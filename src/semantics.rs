use vstd::prelude::*;

use crate::grid::{cell_spec, in_bounds, wrap_spec};

verus! {

/// Facing direction of the cursor.
#[derive(Clone, Copy, Debug, PartialEq, Eq, Structural)]
pub enum Direction {
    Up,
    Down,
    Left,
    Right,
}

/// Dispatch mode; `Halted` is terminal.
#[derive(Clone, Copy, Debug, PartialEq, Eq, Structural)]
pub enum Mode {
    Normal,
    StringMode,
    Halted,
}

/// The two conditions a step reports instead of defaulting.
#[derive(Clone, Copy, Debug, PartialEq, Eq, Structural)]
pub enum Fault {
    /// `/` or `%` with a zero right-hand operand.
    ArithmeticFault,
    /// `p` aimed outside the grid.
    InvalidWrite,
}

/// The whole interpreter state as mathematical values.
pub struct Machine {
    pub grid: Seq<Seq<char>>,
    pub cursor: (int, int),
    pub direction: Direction,
    pub mode: Mode,
    pub stack: Seq<i64>,
    pub output: Seq<char>,
}

/// Top of the stack and the rest; an empty stack yields 0 and stays empty.
pub open spec fn pop(s: Seq<i64>) -> (i64, Seq<i64>) {
    if s.len() == 0 {
        (0, s)
    } else {
        (s.last(), s.drop_last())
    }
}

/// The cell one step from `c` in direction `d`, wrapped around the grid.
pub open spec fn next_pos(g: Seq<Seq<char>>, d: Direction, c: (int, int)) -> (int, int) {
    match d {
        Direction::Left => wrap_spec(g, c.0 - 1, c.1),
        Direction::Right => wrap_spec(g, c.0 + 1, c.1),
        Direction::Up => wrap_spec(g, c.0, c.1 - 1),
        Direction::Down => wrap_spec(g, c.0, c.1 + 1),
    }
}

/// The character under `c`, or a space where there is none.
pub open spec fn fetch(g: Seq<Seq<char>>, c: (int, int)) -> char {
    match cell_spec(g, c.0, c.1) {
        Some(ch) => ch,
        None => ' ',
    }
}

/// Code point of `c`.
pub open spec fn code(c: char) -> int {
    c as int
}

/// Every character's code point fits in 32 bits.
pub proof fn lemma_code_range(c: char)
    ensures
        0 <= code(c) <= 0xFFFF_FFFF,
{
}

/// The character whose code point is `v`, or a space if there is none.
pub open spec fn char_of(v: int) -> char {
    if exists|c: char| #[trigger] code(c) == v {
        choose|c: char| #[trigger] code(c) == v
    } else {
        ' '
    }
}

pub open spec fn digit(d: nat) -> char {
    ((d + 48) as u8) as char
}

/// Decimal digits of `n`, most significant first, without leading zeros.
pub open spec fn digits(n: nat) -> Seq<char>
    decreases n,
{
    if n < 10 {
        seq![digit(n)]
    } else {
        digits(n / 10).push(digit(n % 10))
    }
}

/// Decimal text of `v`, with a leading `-` when negative.
pub open spec fn decimal(v: int) -> Seq<char> {
    if v < 0 {
        seq!['-'] + digits((-v) as nat)
    } else {
        digits(v as nat)
    }
}

/// Truncating quotient; the one overflowing case wraps back to `l`.
pub open spec fn quotient(l: i64, r: i64) -> i64 {
    match l.checked_div(r) {
        Some(q) => q,
        None => l,
    }
}

/// Remainder with the sign of `l`; the one overflowing case gives 0.
pub open spec fn remainder(l: i64, r: i64) -> i64 {
    match l.checked_rem(r) {
        Some(q) => q,
        None => 0,
    }
}

/// `l OP r` for the binary operators other than division and modulo.
pub open spec fn arith(op: char, l: i64, r: i64) -> i64 {
    if op == '+' {
        l.wrapping_add(r)
    } else if op == '-' {
        l.wrapping_sub(r)
    } else if op == '*' {
        l.wrapping_mul(r)
    } else if op == '/' {
        quotient(l, r)
    } else if op == '%' {
        remainder(l, r)
    } else if l > r {
        1
    } else {
        0
    }
}

pub open spec fn is_arith(c: char) -> bool {
    c == '+' || c == '-' || c == '*' || c == '/' || c == '%' || c == '`'
}

pub open spec fn is_digit(c: char) -> bool {
    '0' <= c <= '9'
}

/// The effect of executing instruction `c` on `m`, and whether it faulted.
/// A fault leaves the operands popped and the machine halted.
pub open spec fn dispatch(m: Machine, c: char) -> (Machine, Result<(), Fault>) {
    let (v, s1) = pop(m.stack);
    let (v2, s2) = pop(s1);
    let (v3, s3) = pop(s2);
    if c == '<' {
        (Machine { direction: Direction::Left, ..m }, Ok(()))
    } else if c == '>' {
        (Machine { direction: Direction::Right, ..m }, Ok(()))
    } else if c == '^' {
        (Machine { direction: Direction::Up, ..m }, Ok(()))
    } else if c == 'v' {
        (Machine { direction: Direction::Down, ..m }, Ok(()))
    } else if c == '_' {
        let d = if v == 0 {
            Direction::Right
        } else {
            Direction::Left
        };
        (Machine { direction: d, stack: s1, ..m }, Ok(()))
    } else if c == '|' {
        let d = if v == 0 {
            Direction::Down
        } else {
            Direction::Up
        };
        (Machine { direction: d, stack: s1, ..m }, Ok(()))
    } else if c == '#' {
        (Machine { cursor: next_pos(m.grid, m.direction, m.cursor), ..m }, Ok(()))
    } else if c == '@' {
        (Machine { mode: Mode::Halted, ..m }, Ok(()))
    } else if is_digit(c) {
        (Machine { stack: m.stack.push((c as int - 48) as i64), ..m }, Ok(()))
    } else if c == '"' {
        let md = if m.mode == Mode::StringMode {
            Mode::Normal
        } else {
            Mode::StringMode
        };
        (Machine { mode: md, ..m }, Ok(()))
    } else if c == '.' {
        (Machine { stack: s1, output: (m.output + decimal(v as int)).push(' '), ..m }, Ok(()))
    } else if c == ',' {
        (Machine { stack: s1, output: m.output.push(char_of(v as int)), ..m }, Ok(()))
    } else if is_arith(c) {
        if (c == '/' || c == '%') && v == 0 {
            (Machine { stack: s2, mode: Mode::Halted, ..m }, Err(Fault::ArithmeticFault))
        } else {
            (Machine { stack: s2.push(arith(c, v2, v)), ..m }, Ok(()))
        }
    } else if c == '!' {
        (Machine { stack: s1.push(if v == 0 { 1i64 } else { 0i64 }), ..m }, Ok(()))
    } else if c == ':' {
        (Machine { stack: s1.push(v).push(v), ..m }, Ok(()))
    } else if c == '\\' {
        (Machine { stack: s2.push(v).push(v2), ..m }, Ok(()))
    } else if c == '$' {
        (Machine { stack: s1, ..m }, Ok(()))
    } else if c == 'g' {
        let got: i64 = match cell_spec(m.grid, v2 as int, v as int) {
            Some(ch) => ch as i64,
            None => 0,
        };
        (Machine { stack: s2.push(got), ..m }, Ok(()))
    } else if c == 'p' {
        if in_bounds(m.grid, v2 as int, v as int) {
            let row = m.grid[v as int].update(v2 as int, char_of(v3 as int));
            (Machine { stack: s3, grid: m.grid.update(v as int, row), ..m }, Ok(()))
        } else {
            (Machine { stack: s3, mode: Mode::Halted, ..m }, Err(Fault::InvalidWrite))
        }
    } else {
        (m, Ok(()))
    }
}

/// One step: move, fetch, then push the character in string mode or
/// execute it otherwise. A halted machine stays as it is.
pub open spec fn step_spec(m: Machine) -> (Machine, Result<(), Fault>) {
    if m.mode == Mode::Halted {
        (m, Ok(()))
    } else {
        let pos = next_pos(m.grid, m.direction, m.cursor);
        let c = fetch(m.grid, pos);
        let moved = Machine { cursor: pos, ..m };
        if m.mode == Mode::StringMode && c != '"' {
            (Machine { stack: m.stack.push(c as i64), ..moved }, Ok(()))
        } else {
            dispatch(moved, c)
        }
    }
}

/// `n` steps from `m`, stopping at the first fault.
pub open spec fn run_spec(m: Machine, n: nat) -> (Machine, Result<(), Fault>)
    decreases n,
{
    if n == 0 {
        (m, Ok(()))
    } else {
        let (m1, r) = step_spec(m);
        if r is Err {
            (m1, r)
        } else {
            run_spec(m1, (n - 1) as nat)
        }
    }
}

} // verus!
