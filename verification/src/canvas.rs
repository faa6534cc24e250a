//! A rectangle of characters to draw on.

use crate::grid_point::GridPoint;
use crate::size_2d::Size2d;
use crate::vec2::UVec2;
use vstd::prelude::*;

verus! {

/// The character that an untouched cell holds.
pub const BLANK: u8 = 0x20;

/// A rectangle of one-byte characters, held row after row.
#[derive(Debug)]
pub struct Canvas {
    size: UVec2,
    cells: Vec<u8>,
}

/// The character that is shown in the place of a blank one.
pub const DOT: u8 = 0x2e;

/// The character that is shown for `c`: a dot for a blank, else `c` itself.
pub open spec fn shown(c: u8) -> u8 {
    if c == BLANK {
        DOT
    } else {
        c
    }
}

/// The byte that stands for `glyph` on a canvas: its lowest eight bits.
pub open spec fn glyph_byte(glyph: char) -> u8 {
    (glyph as u32 % 256) as u8
}

impl Canvas {
    #[verifier::type_invariant]
    closed spec fn inv(self) -> bool {
        self.cells@.len() == self.size.x * self.size.y
    }

    /// The shape: `x` is the width, `y` the height.
    pub closed spec fn size_spec(self) -> UVec2 {
        self.size
    }

    /// The characters, row after row.
    pub closed spec fn view(self) -> Seq<u8> {
        self.cells@
    }

    /// A canvas has one character for each cell.
    pub open spec fn wf(self) -> bool {
        self@.len() == self.size_spec().x * self.size_spec().y
    }

    /// Every character is one of the first 128.
    pub open spec fn is_ascii(self) -> bool {
        forall|i: int| 0 <= i < self@.len() ==> #[trigger] self@[i] < 128
    }

    /// The place of `(x, y)` among the characters: `y * width + x`.
    pub open spec fn index_spec(self, x: int, y: int) -> int {
        y * self.size_spec().x + x
    }

    /// A canvas of shape `size`, blank all over.
    pub fn new<S: Size2d>(size: S) -> (r: Canvas)
        requires
            size.width_spec() * size.height_spec() <= usize::MAX,
        ensures
            r.wf(),
            r.size_spec() == (UVec2 { x: size.width_spec(), y: size.height_spec() }),
            r@ == Seq::new((size.width_spec() * size.height_spec()) as nat, |i: int| BLANK),
            r.is_ascii(),
    {
        let n: usize = size.count();
        let mut cells: Vec<u8> = Vec::with_capacity(n);
        while cells.len() < n
            invariant
                cells@.len() <= n,
                forall|i: int| 0 <= i < cells@.len() ==> #[trigger] cells@[i] == BLANK,
            decreases n - cells@.len(),
        {
            cells.push(BLANK);
        }
        assert(cells@ =~= Seq::new(n as nat, |i: int| BLANK));
        Canvas { size: size.as_uvec2(), cells }
    }

    /// Puts the character `glyph` at `pos`; the other characters stay. The
    /// position is taken as `y * width + x` and has to be that of a cell; the
    /// character has to be one of the first 128 once cut to its lowest
    /// eight bits.
    pub fn put<P: GridPoint>(&mut self, pos: P, glyph: char)
        requires
            pos.x_spec() >= 0,
            pos.y_spec() >= 0,
            old(self).index_spec(pos.x_spec() as int, pos.y_spec() as int) < old(self)@.len(),
            glyph_byte(glyph) < 128,
        ensures
            final(self).wf(),
            final(self).size_spec() == old(self).size_spec(),
            final(self)@ == old(self)@.update(
                old(self).index_spec(pos.x_spec() as int, pos.y_spec() as int),
                glyph_byte(glyph),
            ),
            old(self).is_ascii() ==> final(self).is_ascii(),
    {
        proof {
            use_type_invariant(&*self);
            assert(self.cells.len() == self.cells@.len());
        }
        let i: usize = self.to_index(pos);
        let code: u32 = glyph as u32;
        let byte: u8 = (code % 256) as u8;
        self.cells[i] = byte;
        proof {
            use_type_invariant(&*self);
        }
    }

    /// The place of `point` among the characters: `y * width + x`.
    pub fn to_index<P: GridPoint>(&self, point: P) -> (r: usize)
        requires
            point.x_spec() >= 0,
            point.y_spec() >= 0,
            self.index_spec(point.x_spec() as int, point.y_spec() as int) <= usize::MAX,
        ensures
            r == self.index_spec(point.x_spec() as int, point.y_spec() as int),
    {
        let x: usize = point.x() as usize;
        let y: usize = point.y() as usize;
        assert(0 <= y * self.size.x) by (nonlinear_arith)
            requires
                0 <= y,
                0 <= self.size.x,
        ;
        y * self.size.x as usize + x
    }

    /// The rows from the top, each with its characters as they are shown:
    /// blanks as dots.
    pub fn lines(&self) -> (r: Vec<Vec<u8>>)
        ensures
            r@.len() == self.size_spec().y,
            forall|y: int| 0 <= y < r@.len() ==> (#[trigger] r@[y])@.len() == self.size_spec().x,
            forall|x: int, y: int|
                0 <= y < self.size_spec().y && 0 <= x < self.size_spec().x ==> (
                #[trigger] r@[y]@[x]) == shown(self@[self.index_spec(x, y)]),
    {
        proof {
            use_type_invariant(self);
        }
        let w: usize = self.size.x as usize;
        let h: usize = self.size.y as usize;
        let mut out: Vec<Vec<u8>> = Vec::with_capacity(h);
        let mut y: usize = 0;
        while y < h
            invariant
                self.inv(),
                w == self.size.x,
                h == self.size.y,
                y <= h,
                out@.len() == y,
                forall|k: int| 0 <= k < y ==> (#[trigger] out@[k])@.len() == w,
                forall|a: int, k: int|
                    0 <= k < y && 0 <= a < w ==> (#[trigger] out@[k]@[a]) == shown(
                        self.cells@[k * w + a],
                    ),
            decreases h - y,
        {
            let mut line: Vec<u8> = Vec::with_capacity(w);
            let mut x: usize = 0;
            while x < w
                invariant
                    self.inv(),
                    w == self.size.x,
                    h == self.size.y,
                    y < h,
                    x <= w,
                    line@.len() == x,
                    forall|a: int| 0 <= a < x ==> #[trigger] line@[a] == shown(self.cells@[y * w + a]),
                decreases w - x,
            {
                proof {
                    crate::size_2d::lemma_row_major(x as int, y as int, w as int, h as int);
                    assert(self.cells.len() == self.cells@.len());
                }
                let c: u8 = self.cells[y * w + x];
                line.push(if c == BLANK { DOT } else { c });
                x += 1;
            }
            out.push(line);
            y += 1;
        }
        out
    }

    /// The shape.
    pub fn size(&self) -> (r: UVec2)
        ensures
            r == self.size_spec(),
    {
        self.size
    }

    /// The characters, row after row.
    pub fn data(&self) -> (r: &[u8])
        ensures
            r@ == self@,
            self.wf(),
    {
        proof {
            use_type_invariant(self);
        }
        self.cells.as_slice()
    }
}

} // verus!
