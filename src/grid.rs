use vstd::prelude::*;

use crate::semantics::Fault;

verus! {

/// Toroidal position: the row is taken modulo the number of rows, then the
/// column modulo the length of that row. An empty grid or an empty target row
/// resolves to the origin.
pub open spec fn wrap_spec(g: Seq<Seq<char>>, x: int, y: int) -> (int, int) {
    if g.len() == 0 {
        (0, 0)
    } else {
        let ry = y % (g.len() as int);
        let len = g[ry].len() as int;
        if len == 0 {
            (0, 0)
        } else {
            (x % len, ry)
        }
    }
}

/// Bounds-checked, non-wrapping lookup.
pub open spec fn cell_spec(g: Seq<Seq<char>>, x: int, y: int) -> Option<char> {
    if in_bounds(g, x, y) {
        Some(g[y][x])
    } else {
        None
    }
}

pub open spec fn in_bounds(g: Seq<Seq<char>>, x: int, y: int) -> bool {
    0 <= y < g.len() && 0 <= x < g[y].len()
}

/// The rows of `s`, split at each line feed; no row holds a line feed.
pub open spec fn split_lines(s: Seq<char>) -> Seq<Seq<char>>
    decreases s.len(),
{
    if s.len() == 0 {
        seq![Seq::empty()]
    } else {
        let rest = split_lines(s.drop_last());
        if s.last() == '\n' {
            rest.push(Seq::empty())
        } else {
            rest.update(rest.len() - 1, rest.last().push(s.last()))
        }
    }
}

/// A program laid out as rows of characters; rows may differ in length.
pub struct Grid {
    rows: Vec<Vec<char>>,
}

impl View for Grid {
    type V = Seq<Seq<char>>;

    closed spec fn view(&self) -> Seq<Seq<char>> {
        Seq::new(self.rows@.len(), |i: int| self.rows@[i]@)
    }
}

/// Relies on `str::chars`: the characters of `s`, in order.
#[verifier::external_body]
fn chars_of(s: &str) -> (r: Vec<char>)
    ensures
        r@ == s@,
{
    s.chars().collect()
}

proof fn lemma_split_lines_nonempty(s: Seq<char>)
    ensures
        split_lines(s).len() >= 1,
    decreases s.len(),
{
    if s.len() > 0 {
        lemma_split_lines_nonempty(s.drop_last());
    }
}

impl Grid {
    /// Splits `text` at line feeds; each line becomes one row.
    pub fn parse(text: &str) -> (g: Grid)
        ensures
            g@ == split_lines(text@),
    {
        let cs = chars_of(text);
        let mut rows: Vec<Vec<char>> = Vec::new();
        let mut cur: Vec<char> = Vec::new();
        let mut i: usize = 0;
        while i < cs.len()
            invariant
                0 <= i <= cs.len(),
                cs@ == text@,
                split_lines(cs@.take(i as int)) == Seq::new(rows@.len(), |k: int| rows@[k]@).push(
                    cur@,
                ),
            decreases cs.len() - i,
        {
            let c = cs[i];
            proof {
                let t = cs@.take(i as int + 1);
                assert(t.drop_last() =~= cs@.take(i as int));
                lemma_split_lines_nonempty(cs@.take(i as int));
            }
            if c == '\n' {
                rows.push(cur);
                cur = Vec::new();
                proof {
                    assert(Seq::new(rows@.len(), |k: int| rows@[k]@) =~= split_lines(
                        cs@.take(i as int),
                    ));
                }
            } else {
                cur.push(c);
                proof {
                    let t = cs@.take(i as int + 1);
                    assert(split_lines(t) =~= Seq::new(rows@.len(), |k: int| rows@[k]@).push(
                        cur@,
                    ));
                }
            }
            i = i + 1;
        }
        rows.push(cur);
        assert(cs@.take(cs@.len() as int) =~= cs@);
        let g = Grid { rows };
        assert(g@ =~= split_lines(text@));
        g
    }

    pub fn row_count(&self) -> (n: usize)
        ensures
            n == self@.len(),
    {
        self.rows.len()
    }

    pub fn row_len(&self, y: usize) -> (n: usize)
        requires
            y < self@.len(),
        ensures
            n == self@[y as int].len(),
    {
        self.rows[y].len()
    }

    /// Bounds-checked read; `None` outside the grid or past the end of a row.
    pub fn get(&self, x: i128, y: i128) -> (r: Option<char>)
        ensures
            r == cell_spec(self@, x as int, y as int),
    {
        if y < 0 || y >= self.rows.len() as i128 {
            return None;
        }
        let row = &self.rows[y as usize];
        if x < 0 || x >= row.len() as i128 {
            return None;
        }
        Some(row[x as usize])
    }

    /// Bounds-checked write; an invalid write, with the grid unchanged, when
    /// `(x, y)` is outside it.
    pub fn set(&mut self, x: i128, y: i128, c: char) -> (r: Result<(), Fault>)
        ensures
            r is Ok <==> in_bounds(old(self)@, x as int, y as int),
            r is Ok ==> final(self)@ == old(self)@.update(
                y as int,
                old(self)@[y as int].update(x as int, c),
            ),
            r is Err ==> r == Err::<(), Fault>(Fault::InvalidWrite) && final(self)@ == old(self)@,
    {
        if y < 0 || y >= self.rows.len() as i128 {
            return Err(Fault::InvalidWrite);
        }
        if x < 0 || x >= self.rows[y as usize].len() as i128 {
            return Err(Fault::InvalidWrite);
        }
        self.rows[y as usize][x as usize] = c;
        assert(self@ =~= old(self)@.update(y as int, old(self)@[y as int].update(x as int, c)));
        Ok(())
    }

    /// Toroidal addressing used to move the cursor.
    pub fn wrap(&self, x: i128, y: i128) -> (r: (i128, i128))
        requires
            -0x1_0000_0000_0000_0000 <= x <= 0x1_0000_0000_0000_0000,
            -0x1_0000_0000_0000_0000 <= y <= 0x1_0000_0000_0000_0000,
        ensures
            r.0 as int == wrap_spec(self@, x as int, y as int).0,
            r.1 as int == wrap_spec(self@, x as int, y as int).1,
            0 <= r.0 < 0x1_0000_0000_0000_0000,
            0 <= r.1 < 0x1_0000_0000_0000_0000,
    {
        let n = self.rows.len();
        if n == 0 {
            return (0, 0);
        }
        let ry = euclid_rem(y, n);
        let len = self.rows[ry as usize].len();
        if len == 0 {
            return (0, 0);
        }
        (euclid_rem(x, len), ry)
    }
}

/// `a` modulo `n`, in `0..n`.
fn euclid_rem(a: i128, n: usize) -> (r: i128)
    requires
        n > 0,
    ensures
        r as int == a as int % n as int,
        0 <= r < n,
{
    match a.checked_rem_euclid(n as i128) {
        Some(r) => r,
        None => 0,
    }
}

} // verus!
