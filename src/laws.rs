use vstd::prelude::*;

use crate::grid::in_bounds;
use crate::semantics::{
    char_of, code, dispatch, fetch, next_pos, pop, run_spec, step_spec, Direction, Fault, Machine,
    Mode,
};

verus! {

/// A step faults only when, in normal mode, it executes `/` or `%` with a
/// zero right-hand operand (an arithmetic fault) or `p` aimed outside the
/// grid (an invalid write). Stack underflow and unrecognised characters never
/// fault.
pub proof fn lemma_step_faults(m: Machine)
    ensures
        step_spec(m).1 is Err ==> {
            let c = fetch(m.grid, next_pos(m.grid, m.direction, m.cursor));
            let (y, s1) = pop(m.stack);
            let (x, s2) = pop(s1);
            &&& m.mode == Mode::Normal
            &&& step_spec(m).0.mode == Mode::Halted
            &&& ((c == '/' || c == '%') && y == 0 && step_spec(m).1 == Err::<(), Fault>(
                Fault::ArithmeticFault,
            )) || (c == 'p' && !in_bounds(m.grid, x as int, y as int) && step_spec(m).1 == Err::<
                (),
                Fault,
            >(Fault::InvalidWrite))
        },
{
}

/// A run of `n` steps that ends in a fault stopped at the first step that
/// faulted: every step before it succeeded, and its machine and fault are
/// that step's (so `lemma_step_faults` tells which instruction it was).
pub proof fn lemma_run_faults(m: Machine, n: nat)
    ensures
        run_spec(m, n).1 is Err ==> exists|k: nat|
            #![trigger run_spec(m, k)]
            k < n && run_spec(m, k).1 is Ok && step_spec(run_spec(m, k).0) == run_spec(m, n),
    decreases n,
{
    if n > 0 && run_spec(m, n).1 is Err {
        let (m1, r) = step_spec(m);
        if r is Err {
            assert(run_spec(m, 0) == (m, Ok::<(), Fault>(())));
        } else {
            lemma_run_faults(m1, (n - 1) as nat);
            let k = choose|k: nat|
                #![trigger run_spec(m1, k)]
                k < n - 1 && run_spec(m1, k).1 is Ok && step_spec(run_spec(m1, k).0) == run_spec(
                    m1,
                    (n - 1) as nat,
                );
            assert(run_spec(m, k + 1) == run_spec(m1, k));
        }
    }
}

/// A halted machine stays exactly as it is, however many steps are taken.
pub proof fn lemma_halted_is_sink(m: Machine, n: nat)
    requires
        m.mode == Mode::Halted,
    ensures
        run_spec(m, n) == (m, Ok::<(), Fault>(())),
    decreases n,
{
    if n > 0 {
        lemma_halted_is_sink(m, (n - 1) as nat);
    }
}

/// On the one-row grid `><`, a machine on the `>` facing right and one on the
/// `<` facing left pass into each other at every step: after an even number
/// of steps each is back where it began, and neither ever halts or faults.
pub proof fn lemma_bounce(m: Machine, n: nat)
    requires
        m.grid == seq![seq!['>', '<']],
        m.cursor == (0int, 0int),
        m.direction == Direction::Right,
        m.mode == Mode::Normal,
    ensures
        ({
            let m1 = Machine { cursor: (1int, 0int), direction: Direction::Left, ..m };
            &&& run_spec(m, n).1 is Ok
            &&& run_spec(m1, n).1 is Ok
            &&& run_spec(m, n).0 == if n % 2 == 0 { m } else { m1 }
            &&& run_spec(m1, n).0 == if n % 2 == 0 { m1 } else { m }
        }),
    decreases n,
{
    let m1 = Machine { cursor: (1int, 0int), direction: Direction::Left, ..m };
    assert(1int % 2 == 1 && 2int % 2 == 0 && 0int % 1 == 0);
    assert(next_pos(m.grid, m.direction, m.cursor) == (1int, 0int));
    assert(fetch(m.grid, (1int, 0int)) == '<');
    assert(step_spec(m) == (m1, Ok::<(), Fault>(())));
    assert(next_pos(m1.grid, m1.direction, m1.cursor) == (0int, 0int));
    assert(fetch(m.grid, (0int, 0int)) == '>');
    assert(step_spec(m1) == (m, Ok::<(), Fault>(())));
    if n > 0 {
        lemma_bounce(m, (n - 1) as nat);
    }
}

/// Writing a character's code with `p` and reading the same cell back with
/// `g` yields that code.
pub proof fn lemma_put_then_get(m: Machine, ch: char, x: i64, y: i64)
    requires
        in_bounds(m.grid, x as int, y as int),
        m.stack.len() >= 3,
        m.stack.last() == y,
        m.stack.drop_last().last() == x,
        m.stack.drop_last().drop_last().last() == ch as i64,
    ensures
        ({
            let (m2, r2) = dispatch(m, 'p');
            let rest = m.stack.drop_last().drop_last().drop_last();
            let (m3, r3) = dispatch(Machine { stack: m2.stack.push(x).push(y), ..m2 }, 'g');
            &&& r2 is Ok
            &&& m2.stack == rest
            &&& r3 is Ok
            &&& m3.stack == rest.push(ch as i64)
        }),
{
    assert(code(ch) == (ch as i64) as int);
    let d = choose|d: char| #[trigger] code(d) == (ch as i64) as int;
    assert(d as u32 == ch as u32);
    assert(char_of((ch as i64) as int) == ch);
    let (m2, r2) = dispatch(m, 'p');
    assert(m2.stack.push(x).push(y).drop_last().drop_last() == m2.stack);
}

} // verus!
