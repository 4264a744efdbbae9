use befunge::{fix_char_width, Befunge, Direction, Fault, Grid, Mode};

fn run(b: &mut Befunge, steps: usize) -> Result<(), Fault> {
    for _ in 0..steps {
        b.step()?;
    }
    Ok(())
}

fn run_to_halt(source: &str, limit: usize) -> (Befunge, Result<(), Fault>) {
    let mut b = Befunge::start(source);
    let mut r = Ok(());
    for _ in 0..limit {
        if b.is_halted() {
            break;
        }
        r = b.step();
        if r.is_err() {
            break;
        }
    }
    (b, r)
}

#[test]
fn single_halt_cell() {
    let mut b = Befunge::start("@");
    assert_eq!(b.step(), Ok(()));
    assert!(b.is_halted());
    assert_eq!(b.mode(), Mode::Halted);
    assert!(b.output().is_empty());
    assert!(b.stack().is_empty());
    assert_eq!(b.cursor(), (0, 0));
}

#[test]
fn multiply_and_print() {
    let mut b = Befunge::start("52*.@");
    b.step().unwrap();
    assert_eq!(b.stack(), &vec![5]);
    b.step().unwrap();
    assert_eq!(b.stack(), &vec![5, 2]);
    b.step().unwrap();
    assert_eq!(b.stack(), &vec![10]);
    b.step().unwrap();
    assert!(b.stack().is_empty());
    assert_eq!(b.output_text(), "10 ");
    b.step().unwrap();
    assert_eq!(b.mode(), Mode::Halted);
    assert_eq!(b.output_text(), "10 ");
    assert!(b.stack().is_empty());
}

#[test]
fn bounce_between_arrows() {
    let mut b = Befunge::start("><");
    b.step().unwrap();
    assert_eq!(b.cursor(), (0, 0));
    assert_eq!(b.direction(), Direction::Right);
    b.step().unwrap();
    assert_eq!(b.cursor(), (1, 0));
    assert_eq!(b.direction(), Direction::Left);
    b.step().unwrap();
    assert_eq!(b.cursor(), (0, 0));
    assert_eq!(b.direction(), Direction::Right);
    for _ in 0..50 {
        run(&mut b, 2).unwrap();
        assert_eq!(b.cursor(), (0, 0));
        assert_eq!(b.direction(), Direction::Right);
        assert_eq!(b.mode(), Mode::Normal);
    }
}

#[test]
fn add_on_empty_stack_pushes_zero() {
    let mut b = Befunge::start("+");
    b.step().unwrap();
    assert_eq!(b.stack(), &vec![0]);
}

#[test]
fn subtract_with_missing_left_operand() {
    let mut b = Befunge::start("5-");
    run(&mut b, 2).unwrap();
    assert_eq!(b.stack(), &vec![-5]);
}

#[test]
fn string_mode_pushes_codes() {
    let mut b = Befunge::start("\"AB\"@");
    b.step().unwrap();
    assert_eq!(b.mode(), Mode::StringMode);
    run(&mut b, 3).unwrap();
    assert_eq!(b.stack(), &vec![65, 66]);
    assert_eq!(b.mode(), Mode::Normal);
    b.step().unwrap();
    assert_eq!(b.mode(), Mode::Halted);
}

#[test]
fn halt_inside_string_is_literal() {
    let mut b = Befunge::start("\"@\"");
    run(&mut b, 3).unwrap();
    assert_eq!(b.stack(), &vec![64]);
    assert_eq!(b.mode(), Mode::Normal);
}

#[test]
fn put_then_get_round_trip() {
    let src = "67*23p23g@\n    \n    \n    ";
    let (b, r) = run_to_halt(src, 100);
    assert_eq!(r, Ok(()));
    assert!(b.is_halted());
    assert_eq!(b.stack(), &vec![42]);
    assert_eq!(b.grid().get(2, 3), Some('*'));
}

#[test]
fn get_outside_grid_is_zero() {
    let (b, _) = run_to_halt("99g@", 10);
    assert_eq!(b.stack(), &vec![0]);
}

#[test]
fn get_inside_grid_reads_code() {
    let (b, _) = run_to_halt("00g@", 10);
    assert_eq!(b.stack(), &vec!['0' as i64]);
}

#[test]
fn put_outside_grid_faults() {
    let (b, r) = run_to_halt("199p@", 10);
    assert_eq!(r, Err(Fault::InvalidWrite));
    assert!(b.is_halted());
    assert!(b.stack().is_empty());
}

#[test]
fn divide_by_zero_faults() {
    let (b, r) = run_to_halt("10/@", 10);
    assert_eq!(r, Err(Fault::ArithmeticFault));
    assert!(b.is_halted());
}

#[test]
fn modulo_by_zero_faults() {
    let (_, r) = run_to_halt("30%@", 10);
    assert_eq!(r, Err(Fault::ArithmeticFault));
}

#[test]
fn halted_state_does_not_change() {
    let mut b = Befunge::reset("12+");
    assert!(b.is_halted());
    assert_eq!(b.cursor(), (0, 0));
    run(&mut b, 5).unwrap();
    assert!(b.stack().is_empty());
    assert_eq!(b.cursor(), (0, 0));
}

#[test]
fn truncating_division_and_remainder() {
    let (b, _) = run_to_halt("07-2/07-2%@", 100);
    assert_eq!(b.stack(), &vec![-3, -1]);
}

#[test]
fn wrapping_arithmetic_at_limits() {
    // 9 squared repeatedly overflows i64 and wraps rather than failing.
    let (b, r) = run_to_halt("9::*:*:*:*:*:*@", 100);
    assert_eq!(r, Ok(()));
    let mut v: i64 = 9;
    for _ in 0..6 {
        v = v.wrapping_mul(v);
    }
    assert_eq!(b.stack(), &vec![9, v]);
}

#[test]
fn greater_than_not_dup_swap_discard() {
    let (b, _) = run_to_halt("32`23`0!5!@", 100);
    assert_eq!(b.stack(), &vec![1, 0, 1, 0]);
    let (b, _) = run_to_halt("12\\:$@", 100);
    assert_eq!(b.stack(), &vec![2, 1]);
    let (b, _) = run_to_halt(":@", 10);
    assert_eq!(b.stack(), &vec![0, 0]);
}

#[test]
fn print_character_and_invalid_code() {
    let (b, _) = run_to_halt("88*1+,@", 100);
    assert_eq!(b.output_text(), "A");
    // A negative value is no code point and prints a space.
    let (b, _) = run_to_halt("09-,@", 100);
    assert_eq!(b.output_text(), " ");
}

#[test]
fn print_negative_number() {
    let (b, _) = run_to_halt("09-.0.@", 100);
    assert_eq!(b.output_text(), "-9 0 ");
}

#[test]
fn branches_and_trampoline() {
    // `_` with zero goes right, `#` skips the `1`.
    let (b, _) = run_to_halt("0_#12@", 100);
    assert_eq!(b.stack(), &vec![2]);
    // `|` with a non-zero value goes up and wraps to the last row.
    let (b, _) = run_to_halt("1|\n 3\n @", 100);
    assert!(b.is_halted());
    assert!(b.stack().is_empty());
    let (b, _) = run_to_halt("0|\n 3\n @", 100);
    assert_eq!(b.stack(), &vec![3]);
}

#[test]
fn wrap_uses_target_row_length() {
    let g = Grid::parse("abcd\nxy");
    assert_eq!(g.row_count(), 2);
    assert_eq!(g.row_len(1), 2);
    assert_eq!(g.wrap(4, 0), (0, 0));
    assert_eq!(g.wrap(3, 1), (1, 1));
    assert_eq!(g.wrap(-1, 0), (3, 0));
    assert_eq!(g.wrap(-1, -1), (1, 1));
    assert_eq!(g.wrap(2, 2), (2, 0));
    let e = Grid::parse("ab\n\ncd");
    assert_eq!(e.wrap(1, 1), (0, 0));
}

#[test]
fn grid_parse_and_access() {
    let mut g = Grid::parse("ab\n\nc");
    assert_eq!(g.row_count(), 3);
    assert_eq!(g.row_len(1), 0);
    assert_eq!(g.get(1, 0), Some('b'));
    assert_eq!(g.get(0, 1), None);
    assert_eq!(g.get(-1, 0), None);
    assert_eq!(g.set(0, 2, 'z'), Ok(()));
    assert_eq!(g.get(0, 2), Some('z'));
    assert_eq!(g.set(1, 2, 'z'), Err(Fault::InvalidWrite));
    assert_eq!(g.get(1, 2), None);
    let empty = Grid::parse("");
    assert_eq!(empty.row_count(), 1);
    assert_eq!(empty.wrap(5, 5), (0, 0));
}

#[test]
fn empty_program_runs_on_blanks() {
    let mut b = Befunge::start("");
    run(&mut b, 10).unwrap();
    assert_eq!(b.cursor(), (0, 0));
    assert!(!b.is_halted());
    assert!(b.stack().is_empty());
}

#[test]
fn moving_left_wraps_to_row_end() {
    let (b, _) = run_to_halt("<@1", 10);
    assert!(b.is_halted());
    assert_eq!(b.stack(), &vec![1]);
    assert_eq!(b.cursor(), (1, 0));
}

#[test]
fn display_glyphs() {
    assert_eq!(fix_char_width('a'), 'a');
    assert_eq!(fix_char_width('~'), '~');
    assert_eq!(fix_char_width(' '), '\u{a0}');
    assert_eq!(fix_char_width('\t'), '\u{a0}');
    assert_eq!(fix_char_width('é'), '\u{a0}');
}

#[test]
fn execute_single_instruction() {
    let mut b = Befunge::start("");
    assert_eq!(b.execute('7'), Ok(()));
    assert_eq!(b.execute('v'), Ok(()));
    assert_eq!(b.direction(), Direction::Down);
    assert_eq!(b.execute('"'), Ok(()));
    assert_eq!(b.mode(), Mode::StringMode);
    assert_eq!(b.stack(), &vec![7]);
}
