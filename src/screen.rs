use vstd::prelude::*;
use vstd::seq_lib::lemma_concat_associative;
use crate::error::Error;
use crate::glyph::{blank, encode, glyph_code, push_char, Glyph};

verus! {

/// The cursor-to-origin sequence that opens every frame.
pub open spec fn home() -> Seq<char> {
    seq!['\x1b', '[', 'H']
}

/// Index of cell `(x, y)` in row-major order for a grid `size` wide.
pub open spec fn cell_index(size: [usize; 2], x: int, y: int) -> int {
    x + y * size[0]
}

/// The cells after resizing to `n` cells: a longer grid keeps the old cells
/// in place and appends blank ones, a shorter one drops the cells past `n`.
pub open spec fn resized(cells: Seq<Glyph>, n: nat) -> Seq<Glyph> {
    if n <= cells.len() {
        cells.take(n as int)
    } else {
        cells + Seq::new((n - cells.len()) as nat, |i: int| blank())
    }
}

/// The renderings of all cells, concatenated in order.
pub open spec fn frame(cells: Seq<Glyph>) -> Seq<char>
    decreases cells.len(),
{
    if cells.len() == 0 {
        Seq::empty()
    } else {
        frame(cells.drop_last()) + glyph_code(cells.last())
    }
}

/// A grid of glyphs sized to the terminal, and the text of the frame being
/// built from it. Several screens may coexist; they share nothing.
pub struct Screen {
    s: String,
    glyphs: Vec<Glyph>,
    size: [usize; 2],
}

impl Screen {
    /// The frame text accumulated so far.
    pub closed spec fn text(&self) -> Seq<char> {
        self.s@
    }

    /// The cells in row-major order.
    pub closed spec fn cells(&self) -> Seq<Glyph> {
        self.glyphs@
    }

    /// The size `[columns, rows]` seen at the last write.
    pub closed spec fn dims(&self) -> [usize; 2] {
        self.size
    }

    /// There is exactly one cell per position of the grid, and every
    /// position has a machine-sized index.
    pub open spec fn wf(&self) -> bool {
        &&& self.cells().len() == self.dims()[0] * self.dims()[1]
        &&& self.dims()[0] * self.dims()[1] <= usize::MAX
    }

    /// An empty screen: size `[0, 0]`, no cells, no text.
    pub fn new() -> (r: Self)
        ensures
            r.wf(),
            r.dims() == [0usize, 0usize],
            r.cells() == Seq::<Glyph>::empty(),
            r.text() == Seq::<char>::empty(),
    {
        let r = Screen { s: String::new(), glyphs: Vec::new(), size: [0, 0] };
        assert(r.size[0] == 0 && r.size[1] == 0);
        assert(r.size[0] * r.size[1] == 0);
        r
    }

    /// The size `[columns, rows]` seen at the last write.
    pub fn size(&self) -> (r: &[usize; 2])
        ensures
            *r == self.dims(),
    {
        &self.size
    }

    /// Sets cell `(x, y)` to `g`.
    pub fn set(&mut self, g: &Glyph, x: usize, y: usize)
        requires
            old(self).wf(),
            x < old(self).dims()[0],
            y < old(self).dims()[1],
        ensures
            final(self).wf(),
            final(self).cells() == old(self).cells().update(
                cell_index(old(self).dims(), x as int, y as int),
                *g,
            ),
            final(self).dims() == old(self).dims(),
            final(self).text() == old(self).text(),
    {
        proof {
            lemma_index_in_grid(self.size, x, y);
        }
        self.glyphs.set(x + y * self.size[0], *g);
    }

    /// The glyph at cell `(x, y)`.
    pub fn get(&mut self, x: usize, y: usize) -> (r: &Glyph)
        requires
            old(self).wf(),
            x < old(self).dims()[0],
            y < old(self).dims()[1],
        ensures
            *r == old(self).cells()[cell_index(old(self).dims(), x as int, y as int)],
            *final(self) == *old(self),
    {
        proof {
            lemma_index_in_grid(self.size, x, y);
        }
        &self.glyphs[x + y * self.size[0]]
    }

    /// Starts a frame from the outcome of a terminal size query. On an error
    /// nothing changes and the error is handed back. Otherwise the grid takes
    /// the new size (see `resized`) and the text restarts with the
    /// cursor-to-origin sequence.
    pub fn write(&mut self, size: Result<[usize; 2], Error>) -> (r: Result<(), Error>)
        requires
            old(self).wf(),
            size is Ok ==> size->Ok_0[0] * size->Ok_0[1] <= usize::MAX,
        ensures
            final(self).wf(),
            match size {
                Err(e) => r == Err::<(), Error>(e) && *final(self) == *old(self),
                Ok(sz) => {
                    &&& r is Ok
                    &&& final(self).dims() == sz
                    &&& final(self).cells() == resized(old(self).cells(), (sz[0] * sz[1]) as nat)
                    &&& final(self).text() == home()
                },
            },
    {
        let sz = match size {
            Err(e) => return Err(e),
            Ok(sz) => sz,
        };
        let n: usize = sz[0] * sz[1];
        if sz[0] != self.size[0] || sz[1] != self.size[1] {
            self.size = sz;
            if n <= self.glyphs.len() {
                self.glyphs.truncate(n);
            } else {
                let ghost start = self.glyphs@;
                while self.glyphs.len() < n
                    invariant
                        self.size == sz,
                        self.s == old(self).s,
                        n == sz[0] * sz[1],
                        start == old(self).glyphs@,
                        start.len() <= self.glyphs.len() <= n,
                        self.glyphs@ == start + Seq::new(
                            (self.glyphs.len() - start.len()) as nat,
                            |i: int| blank(),
                        ),
                    decreases n - self.glyphs.len(),
                {
                    self.glyphs.push(Glyph::from('\0'));
                    assert(self.glyphs@ =~= start + Seq::new(
                        (self.glyphs.len() - start.len()) as nat,
                        |i: int| blank(),
                    ));
                }
            }
        }
        assert(self.glyphs@ =~= resized(old(self).glyphs@, n as nat));
        clear_text(&mut self.s);
        push_char(&mut self.s, '\x1b');
        push_char(&mut self.s, '[');
        push_char(&mut self.s, 'H');
        assert(self.s@ =~= home());
        Ok(())
    }

    /// Appends the rendering of every cell, in row-major order, to the frame
    /// text.
    pub fn flush(&mut self)
        requires
            old(self).wf(),
        ensures
            final(self).wf(),
            final(self).text() == old(self).text() + frame(old(self).cells()),
            final(self).cells() == old(self).cells(),
            final(self).dims() == old(self).dims(),
    {
        let n = self.glyphs.len();
        let mut i: usize = 0;
        while i < n
            invariant
                i <= n,
                n == self.glyphs.len(),
                self.glyphs == old(self).glyphs,
                self.size == old(self).size,
                self.s@ == old(self).s@ + frame(self.glyphs@.take(i as int)),
            decreases n - i,
        {
            let g = self.glyphs[i];
            proof {
                assert(self.glyphs@.take(i + 1).drop_last() =~= self.glyphs@.take(i as int));
                lemma_concat_associative(
                    old(self).s@,
                    frame(self.glyphs@.take(i as int)),
                    glyph_code(g),
                );
            }
            encode(&g, &mut self.s);
            i = i + 1;
        }
        assert(self.glyphs@.take(n as int) =~= self.glyphs@);
    }

    /// The frame text, ready to be sent to the terminal.
    pub fn output(&self) -> (r: &str)
        ensures
            r@ == self.text(),
    {
        self.s.as_str()
    }
}

/// Relies on String::clear: the string becomes empty.
#[verifier::external_body]
fn clear_text(s: &mut String)
    ensures
        final(s)@ == Seq::<char>::empty(),
{
    s.clear()
}

/// A write that grows the grid leaves no cell without a value: every
/// position of the new size has a cell, the cells that were there before keep
/// their index, and every added cell is blank.
pub proof fn lemma_grow_fills_blank(s: Screen, size: [usize; 2])
    requires
        s.wf(),
        s.cells().len() < size[0] * size[1],
        size[0] * size[1] <= usize::MAX,
    ensures
        ({
            let cells = resized(s.cells(), (size[0] * size[1]) as nat);
            &&& cells.len() == size[0] * size[1]
            &&& forall|x: usize, y: usize|
                x < size[0] && y < size[1] ==> {
                    let i = #[trigger] cell_index(size, x as int, y as int);
                    &&& 0 <= i < cells.len()
                    &&& i < s.cells().len() ==> cells[i] == s.cells()[i]
                    &&& s.cells().len() <= i ==> cells[i] == blank()
                }
        }),
{
    assert forall|x: usize, y: usize| x < size[0] && y < size[1] implies 0 <= #[trigger] cell_index(
        size,
        x as int,
        y as int,
    ) < size[0] * size[1] by {
        lemma_index_in_grid(size, x, y);
    }
}

/// Reading a cell right after setting it gives back the glyph that was set.
pub proof fn lemma_set_then_get(s: Screen, g: Glyph, x: usize, y: usize)
    requires
        s.wf(),
        x < s.dims()[0],
        y < s.dims()[1],
    ensures
        s.cells().update(cell_index(s.dims(), x as int, y as int), g)[cell_index(
            s.dims(),
            x as int,
            y as int,
        )] == g,
{
    lemma_index_in_grid(s.dims(), x, y);
}

/// Two frames made at the same size with no cell set in between are
/// identical. By the contracts of `write` and `flush`, a frame made at size
/// `size` from cells `c` is `home() + frame(resized(c, n))`, and the cells are
/// then `resized(c, n)`; a second frame at the same size is therefore made
/// from `resized(resized(c, n), n)`, and its text equals the first.
pub proof fn lemma_frames_repeat(s: Screen, size: [usize; 2])
    requires
        s.wf(),
        size[0] * size[1] <= usize::MAX,
    ensures
        ({
            let n = (size[0] * size[1]) as nat;
            home() + frame(resized(resized(s.cells(), n), n)) == home() + frame(
                resized(s.cells(), n),
            )
        }),
{
    let n = (size[0] * size[1]) as nat;
    let first = resized(s.cells(), n);
    assert(first.len() == n);
    assert(resized(first, n) =~= first);
}

proof fn lemma_index_in_grid(size: [usize; 2], x: usize, y: usize)
    requires
        x < size[0],
        y < size[1],
    ensures
        0 <= y * size[0] <= cell_index(size, x as int, y as int) < size[0] * size[1],
{
    let c = size[0] as int;
    let r = size[1] as int;
    assert(y * c <= (r - 1) * c) by (nonlinear_arith)
        requires
            y < r,
            0 <= c,
    ;
    assert((r - 1) * c + c == r * c) by (nonlinear_arith);
    assert(0 <= y * c) by (nonlinear_arith)
        requires
            0 <= c,
    ;
}

} // verus!
