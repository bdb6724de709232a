//! Pure layout arithmetic: an axis-aligned terminal rectangle and its split
//! into equal-width columns.

use vstd::arithmetic::div_mod::lemma_fundamental_div_mod;
use vstd::arithmetic::div_mod::lemma_mod_bound;
use vstd::arithmetic::mul::lemma_mul_inequality;
use vstd::prelude::*;

verus! {

/// An axis-aligned rectangle of terminal cells: top-left corner and size.
#[derive(Clone, Copy, PartialEq, Eq, Structural, Debug)]
pub struct Rect {
    pub x: u16,
    pub y: u16,
    pub width: u16,
    pub height: u16,
}

impl Rect {
    /// A rectangle from its corner and size.
    pub fn new(x: u16, y: u16, width: u16, height: u16) -> (r: Rect)
        ensures
            r == (Rect { x, y, width, height }),
    {
        Rect { x, y, width, height }
    }

    /// Splits the rectangle into `splits` side-by-side columns of equal
    /// width `width / splits`; the remainder cells of the division are
    /// dropped on the right. Column `i` starts `i` column widths to the
    /// right of `self.x` and keeps the vertical extent of `self`.
    pub fn split_vertically(&self, splits: u16) -> (r: Vec<Rect>)
        requires
            splits > 0,
            self.x + self.width <= u16::MAX,
        ensures
            r@.len() == splits as int,
            forall|i: int|
                0 <= i < splits as int ==> {
                    &&& (#[trigger] r@[i]).x as int == self.x as int + i * (
                    self.width as int / splits as int)
                    &&& r@[i].y == self.y
                    &&& r@[i].width as int == self.width as int / splits as int
                    &&& r@[i].height == self.height
                },
    {
        let width = self.width / splits;
        let height = self.height;
        let mut x = self.x;
        let y = self.y;
        let mut rectangles: Vec<Rect> = Vec::with_capacity(splits as usize);
        proof {
            lemma_fundamental_div_mod(self.width as int, splits as int);
            lemma_mod_bound(self.width as int, splits as int);
        }
        let mut i: u16 = 0;
        while i < splits
            invariant
                0 < splits,
                i <= splits,
                width as int == self.width as int / splits as int,
                y == self.y,
                height == self.height,
                splits as int * width as int <= self.width as int,
                self.x + self.width <= u16::MAX,
                x as int == self.x as int + i as int * width as int,
                rectangles@.len() == i as int,
                forall|j: int|
                    0 <= j < i as int ==> {
                        &&& (#[trigger] rectangles@[j]).x as int == self.x as int + j * (
                        width as int)
                        &&& rectangles@[j].y == self.y
                        &&& rectangles@[j].width == width
                        &&& rectangles@[j].height == self.height
                    },
            decreases splits as int - i as int,
        {
            let rect = Rect { x, y, width, height };
            let ghost prefix = rectangles@;
            rectangles.push(rect);
            proof {
                lemma_mul_inequality(i as int + 1, splits as int, width as int);
                assert((i as int + 1) * width as int == i as int * width as int + width as int)
                    by (nonlinear_arith);
                assert forall|j: int| 0 <= j < i as int + 1 implies {
                    &&& (#[trigger] rectangles@[j]).x as int == self.x as int + j * (width as int)
                    &&& rectangles@[j].y == self.y
                    &&& rectangles@[j].width == width
                    &&& rectangles@[j].height == self.height
                } by {
                    if j < i as int {
                        assert(rectangles@[j] == prefix[j]);
                    } else {
                        assert(rectangles@[j] == rect);
                    }
                }
            }
            x = x + width;
            i = i + 1;
        }
        rectangles
    }
}

} // verus!
