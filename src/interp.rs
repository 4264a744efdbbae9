use vstd::prelude::*;

use crate::grid::{split_lines, Grid};
use crate::semantics::{
    arith, char_of, code, lemma_code_range, decimal, digit, digits, dispatch, fetch, next_pos, pop, step_spec,
    Direction, Fault, Machine, Mode,
};

verus! {

/// Relies on `char::from_u32`: `Some` of the character with code point `v`,
/// `None` when `v` is no character's code point.
#[verifier::external_body]
fn char_from_u32(v: u32) -> (r: Option<char>)
    ensures
        r matches Some(c) ==> c as int == v as int,
        r is None ==> forall|c: char| #[trigger] code(c) != v as int,
{
    char::from_u32(v)
}

/// Relies on `String`'s `FromIterator<&char>`: the characters of `cs`, in order.
#[verifier::external_body]
fn string_of(cs: &Vec<char>) -> (r: String)
    ensures
        r@ == cs@,
{
    cs.iter().collect()
}

/// The character whose code point is `v`, or a space.
pub fn char_from_code(v: i64) -> (c: char)
    ensures
        c == char_of(v as int),
{
    if v < 0 || v > 0xFFFF_FFFF {
        proof {
            assert forall|c: char| #[trigger] code(c) != v as int by {
                lemma_code_range(c);
            }
        }
        return ' ';
    }
    match char_from_u32(v as u32) {
        Some(c) => {
            proof {
                assert(code(c) == v as int);
                let d = choose|d: char| #[trigger] code(d) == v as int;
                assert(d as u32 == c as u32);
            }
            c
        },
        None => ' ',
    }
}

/// Appends the decimal digits of `n` to `out`.
fn push_digits(out: &mut Vec<char>, n: u64)
    ensures
        final(out)@ == old(out)@ + digits(n as nat),
    decreases n,
{
    if n >= 10 {
        push_digits(out, n / 10);
    }
    let d = (n % 10) as u8;
    let ch = (48u8 + d) as char;
    assert(ch == digit((n % 10) as nat));
    out.push(ch);
    if n >= 10 {
        assert(final(out)@ =~= old(out)@ + digits(n as nat));
    } else {
        assert(final(out)@ =~= old(out)@ + digits(n as nat));
    }
}

/// Appends the decimal text of `v` to `out`.
pub fn push_decimal(out: &mut Vec<char>, v: i64)
    ensures
        final(out)@ == old(out)@ + decimal(v as int),
{
    if v < 0 {
        out.push('-');
        let m = (0i128 - v as i128) as u64;
        push_digits(out, m);
        assert(final(out)@ =~= old(out)@ + decimal(v as int));
    } else {
        push_digits(out, v as u64);
    }
}

/// Pops the top of `s`; an empty stack yields 0.
fn pop_or_zero(s: &mut Vec<i64>) -> (v: i64)
    ensures
        (v, final(s)@) == pop(old(s)@),
{
    match s.pop() {
        Some(v) => v,
        None => 0,
    }
}

/// Interpreter state: the grid it runs on, the cursor, its direction, the
/// dispatch mode, the value stack and the output produced so far.
pub struct Befunge {
    grid: Grid,
    cursor: (i128, i128),
    direction: Direction,
    mode: Mode,
    stack: Vec<i64>,
    output: Vec<char>,
}

/// Largest coordinate a grid built in memory can have, plus one.
pub open spec fn coord_bound() -> int {
    0x1_0000_0000_0000_0000
}

/// A cursor that every state reachable by stepping keeps.
pub open spec fn cursor_ok(c: (int, int)) -> bool {
    -1 <= c.0 < coord_bound() && -1 <= c.1 < coord_bound()
}

impl View for Befunge {
    type V = Machine;

    closed spec fn view(&self) -> Machine {
        Machine {
            grid: self.grid@,
            cursor: (self.cursor.0 as int, self.cursor.1 as int),
            direction: self.direction,
            mode: self.mode,
            stack: self.stack@,
            output: self.output@,
        }
    }
}

impl Befunge {
    /// The cursor stays where stepping can reach it: one cell before the
    /// origin at the start, inside the grid's coordinate range afterwards.
    pub open spec fn wf(&self) -> bool {
        cursor_ok(self@.cursor)
    }

    /// A running state on `source`: the first step lands on the origin.
    pub fn start(source: &str) -> (b: Befunge)
        ensures
            b.wf(),
            b@ == (Machine {
                grid: split_lines(source@),
                cursor: (-1, 0),
                direction: Direction::Right,
                mode: Mode::Normal,
                stack: Seq::empty(),
                output: Seq::empty(),
            }),
    {
        Befunge {
            grid: Grid::parse(source),
            cursor: (-1, 0),
            direction: Direction::Right,
            mode: Mode::Normal,
            stack: Vec::new(),
            output: Vec::new(),
        }
    }

    /// A halted state on `source`, cursor at the origin.
    pub fn reset(source: &str) -> (b: Befunge)
        ensures
            b.wf(),
            b@ == (Machine {
                grid: split_lines(source@),
                cursor: (0, 0),
                direction: Direction::Right,
                mode: Mode::Halted,
                stack: Seq::empty(),
                output: Seq::empty(),
            }),
    {
        Befunge {
            grid: Grid::parse(source),
            cursor: (0, 0),
            direction: Direction::Right,
            mode: Mode::Halted,
            stack: Vec::new(),
            output: Vec::new(),
        }
    }

    pub fn cursor(&self) -> (c: (i128, i128))
        ensures
            c.0 as int == self@.cursor.0,
            c.1 as int == self@.cursor.1,
    {
        self.cursor
    }

    pub fn direction(&self) -> (d: Direction)
        ensures
            d == self@.direction,
    {
        self.direction
    }

    pub fn mode(&self) -> (m: Mode)
        ensures
            m == self@.mode,
    {
        self.mode
    }

    pub fn is_halted(&self) -> (h: bool)
        ensures
            h == (self@.mode == Mode::Halted),
    {
        self.mode == Mode::Halted
    }

    /// The stack, bottom first.
    pub fn stack(&self) -> (s: &Vec<i64>)
        ensures
            s@ == self@.stack,
    {
        &self.stack
    }

    /// The output, one character at a time.
    pub fn output(&self) -> (o: &Vec<char>)
        ensures
            o@ == self@.output,
    {
        &self.output
    }

    /// The output as text.
    pub fn output_text(&self) -> (o: String)
        ensures
            o@ == self@.output,
    {
        string_of(&self.output)
    }

    pub fn grid(&self) -> (g: &Grid)
        ensures
            g@ == self@.grid,
    {
        &self.grid
    }

    /// The cell one step from `c` in the current direction.
    fn next_from(&self, c: (i128, i128)) -> (r: (i128, i128))
        requires
            cursor_ok((c.0 as int, c.1 as int)),
        ensures
            (r.0 as int, r.1 as int) == next_pos(self@.grid, self@.direction, (c.0 as int, c.1 as int)),
            0 <= r.0 < coord_bound(),
            0 <= r.1 < coord_bound(),
    {
        match self.direction {
            Direction::Left => self.grid.wrap(c.0 - 1, c.1),
            Direction::Right => self.grid.wrap(c.0 + 1, c.1),
            Direction::Up => self.grid.wrap(c.0, c.1 - 1),
            Direction::Down => self.grid.wrap(c.0, c.1 + 1),
        }
    }

    /// Executes instruction `c` at the current cursor.
    #[verifier::rlimit(50)]
    pub fn execute(&mut self, c: char) -> (r: Result<(), Fault>)
        requires
            old(self).wf(),
        ensures
            final(self).wf(),
            (final(self)@, r) == dispatch(old(self)@, c),
    {
        if c == '<' {
            self.direction = Direction::Left;
        } else if c == '>' {
            self.direction = Direction::Right;
        } else if c == '^' {
            self.direction = Direction::Up;
        } else if c == 'v' {
            self.direction = Direction::Down;
        } else if c == '_' {
            let v = pop_or_zero(&mut self.stack);
            self.direction = if v == 0 {
                Direction::Right
            } else {
                Direction::Left
            };
        } else if c == '|' {
            let v = pop_or_zero(&mut self.stack);
            self.direction = if v == 0 {
                Direction::Down
            } else {
                Direction::Up
            };
        } else if c == '#' {
            self.cursor = self.next_from(self.cursor);
        } else if c == '@' {
            self.mode = Mode::Halted;
        } else if '0' <= c && c <= '9' {
            self.stack.push((c as u32 - 48) as i64);
        } else if c == '"' {
            self.mode = if self.mode == Mode::StringMode {
                Mode::Normal
            } else {
                Mode::StringMode
            };
        } else if c == '.' {
            let v = pop_or_zero(&mut self.stack);
            push_decimal(&mut self.output, v);
            self.output.push(' ');
        } else if c == ',' {
            let v = pop_or_zero(&mut self.stack);
            let ch = char_from_code(v);
            self.output.push(ch);
        } else if c == '+' || c == '-' || c == '*' || c == '/' || c == '%' || c == '`' {
            let r = pop_or_zero(&mut self.stack);
            let l = pop_or_zero(&mut self.stack);
            let x: i64;
            if c == '+' {
                x = l.wrapping_add(r);
            } else if c == '-' {
                x = l.wrapping_sub(r);
            } else if c == '*' {
                x = l.wrapping_mul(r);
            } else if c == '/' {
                if r == 0 {
                    self.mode = Mode::Halted;
                    return Err(Fault::ArithmeticFault);
                }
                x = match l.checked_div(r) {
                    Some(q) => q,
                    None => l,
                };
            } else if c == '%' {
                if r == 0 {
                    self.mode = Mode::Halted;
                    return Err(Fault::ArithmeticFault);
                }
                x = match l.checked_rem(r) {
                    Some(q) => q,
                    None => 0,
                };
            } else {
                x = if l > r {
                    1
                } else {
                    0
                };
            }
            assert(x == arith(c, l, r));
            self.stack.push(x);
        } else if c == '!' {
            let v = pop_or_zero(&mut self.stack);
            self.stack.push(
                if v == 0 {
                    1
                } else {
                    0
                },
            );
        } else if c == ':' {
            let v = pop_or_zero(&mut self.stack);
            self.stack.push(v);
            self.stack.push(v);
        } else if c == '\\' {
            let r = pop_or_zero(&mut self.stack);
            let l = pop_or_zero(&mut self.stack);
            self.stack.push(r);
            self.stack.push(l);
        } else if c == '$' {
            pop_or_zero(&mut self.stack);
        } else if c == 'g' {
            let y = pop_or_zero(&mut self.stack);
            let x = pop_or_zero(&mut self.stack);
            let got: i64 = match self.grid.get(x as i128, y as i128) {
                Some(ch) => ch as i64,
                None => 0,
            };
            self.stack.push(got);
        } else if c == 'p' {
            let y = pop_or_zero(&mut self.stack);
            let x = pop_or_zero(&mut self.stack);
            let v = pop_or_zero(&mut self.stack);
            let ch = char_from_code(v);
            if let Err(f) = self.grid.set(x as i128, y as i128, ch) {
                self.mode = Mode::Halted;
                return Err(f);
            }
        }
        Ok(())
    }

    /// Advances execution by one cell.
    pub fn step(&mut self) -> (r: Result<(), Fault>)
        requires
            old(self).wf(),
        ensures
            final(self).wf(),
            (final(self)@, r) == step_spec(old(self)@),
    {
        if self.mode == Mode::Halted {
            return Ok(());
        }
        let pos = self.next_from(self.cursor);
        let c = match self.grid.get(pos.0, pos.1) {
            Some(ch) => ch,
            None => ' ',
        };
        assert(c == fetch(self@.grid, (pos.0 as int, pos.1 as int)));
        self.cursor = pos;
        if self.mode == Mode::StringMode && c != '"' {
            self.stack.push(c as i64);
            Ok(())
        } else {
            self.execute(c)
        }
    }
}

} // verus!
