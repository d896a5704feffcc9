//! A whole design: its stitches in order, and its thread palette.

use crate::stitch::Stitch;
use vstd::prelude::*;
use vstd::std_specs::cmp::PartialEqSpecImpl;

verus! {

/// The colour of one thread.
#[derive(Clone, Copy, Debug, PartialEq, Eq, Hash, Structural)]
pub struct Color {
    pub red: u8,
    pub green: u8,
    pub blue: u8,
}

/// The mathematical value of a [`Pattern`].
pub struct PatternView {
    pub stitches: Seq<Stitch>,
    pub palette: Seq<Color>,
}

/// A stitch sequence is terminated when it is empty or ends with the end
/// marker.
pub open spec fn terminated(stitches: Seq<Stitch>) -> bool {
    stitches.len() == 0 || stitches.last() == Stitch::End
}

/// The sequence with an end marker added where one is missing.
pub open spec fn terminate(stitches: Seq<Stitch>) -> Seq<Stitch> {
    if terminated(stitches) {
        stitches
    } else {
        stitches.push(Stitch::End)
    }
}

/// Where the needle stands, left to right, after the first `k` stitches of
/// the sequence: the sum of their offsets, counted from the origin.
pub open spec fn needle_x(stitches: Seq<Stitch>, k: int) -> int
    decreases k,
{
    if k <= 0 {
        0
    } else {
        needle_x(stitches, k - 1) + stitches[k - 1].dx()
    }
}

/// Where the needle stands, bottom to top, after the first `k` stitches of
/// the sequence.
pub open spec fn needle_y(stitches: Seq<Stitch>, k: int) -> int
    decreases k,
{
    if k <= 0 {
        0
    } else {
        needle_y(stitches, k - 1) + stitches[k - 1].dy()
    }
}

/// The smallest upright rectangle that holds every place at which the needle
/// stands while the machine works through a pattern, the origin included.
///
/// A place is a sum of 32-bit offsets, one for each stitch before it; 128
/// bits hold every such sum.
#[derive(Clone, Copy, Debug, PartialEq, Eq, Structural)]
pub struct BoundingBox {
    pub min_x: i128,
    pub min_y: i128,
    pub max_x: i128,
    pub max_y: i128,
}

/// `bounds` holds every needle position of the sequence, and the needle
/// reaches each of its four sides.
pub open spec fn is_bounding_box(stitches: Seq<Stitch>, bounds: BoundingBox) -> bool {
    &&& forall|k: int|
        0 <= k <= stitches.len() ==> bounds.min_x <= #[trigger] needle_x(stitches, k)
            <= bounds.max_x
    &&& forall|k: int|
        0 <= k <= stitches.len() ==> bounds.min_y <= #[trigger] needle_y(stitches, k)
            <= bounds.max_y
    &&& exists|k: int| 0 <= k <= stitches.len() && #[trigger] needle_x(stitches, k) == bounds.min_x
    &&& exists|k: int| 0 <= k <= stitches.len() && #[trigger] needle_x(stitches, k) == bounds.max_x
    &&& exists|k: int| 0 <= k <= stitches.len() && #[trigger] needle_y(stitches, k) == bounds.min_y
    &&& exists|k: int| 0 <= k <= stitches.len() && #[trigger] needle_y(stitches, k) == bounds.max_y
}

/// A stitch sequence has one bounding box only.
pub proof fn lemma_bounding_box_unique(stitches: Seq<Stitch>, a: BoundingBox, b: BoundingBox)
    requires
        is_bounding_box(stitches, a),
        is_bounding_box(stitches, b),
    ensures
        a == b,
{
}

/// A design: stitches in the order in which the machine performs them, and
/// the threads it uses, ordered by first use.
///
/// The stitch sequence of every pattern is terminated; the model sees to
/// that, not the formats.
#[derive(Debug)]
pub struct Pattern {
    stitches: Vec<Stitch>,
    palette: Vec<Color>,
}

impl View for Pattern {
    type V = PatternView;

    closed spec fn view(&self) -> PatternView {
        PatternView { stitches: self.stitches@, palette: self.palette@ }
    }
}

impl Pattern {
    #[verifier::type_invariant]
    spec fn well_formed(&self) -> bool {
        terminated(self.stitches@)
    }

    /// A pattern of the given stitches and threads. An end marker is added
    /// unless the sequence is empty or already ends with one.
    pub fn new(stitches: Vec<Stitch>, palette: Vec<Color>) -> (pattern: Self)
        ensures
            pattern@.stitches == terminate(stitches@),
            pattern@.palette == palette@,
    {
        let mut stitches = stitches;
        let n = stitches.len();
        if n > 0 && !stitches[n - 1].is_end() {
            stitches.push(Stitch::End);
        }
        Pattern { stitches, palette }
    }

    /// The stitches, in order.
    pub fn stitches(&self) -> (stitches: &Vec<Stitch>)
        ensures
            stitches@ == self@.stitches,
            terminated(stitches@),
    {
        proof {
            use_type_invariant(self);
        }
        &self.stitches
    }

    /// The threads, ordered by first use.
    pub fn palette(&self) -> (palette: &Vec<Color>)
        ensures
            palette@ == self@.palette,
    {
        &self.palette
    }

    /// The bounding box of the pattern. It is worked out from the stitches
    /// at each call and is no part of the pattern's value.
    pub fn bounds(&self) -> (bounds: BoundingBox)
        ensures
            is_bounding_box(self@.stitches, bounds),
    {
        let n = self.stitches.len();
        let ghost stitches = self.stitches@;
        let mut x: i128 = 0;
        let mut y: i128 = 0;
        let mut bounds = BoundingBox { min_x: 0, min_y: 0, max_x: 0, max_y: 0 };
        let ghost mut at_min_x: int = 0;
        let ghost mut at_max_x: int = 0;
        let ghost mut at_min_y: int = 0;
        let ghost mut at_max_y: int = 0;
        let mut i: usize = 0;
        while i < n
            invariant
                n == self.stitches.len(),
                stitches == self.stitches@,
                i <= n,
                x == needle_x(stitches, i as int),
                y == needle_y(stitches, i as int),
                -(i * 0x8000_0000) <= x <= i * 0x8000_0000,
                -(i * 0x8000_0000) <= y <= i * 0x8000_0000,
                forall|k: int|
                    0 <= k <= i ==> bounds.min_x <= #[trigger] needle_x(stitches, k)
                        <= bounds.max_x,
                forall|k: int|
                    0 <= k <= i ==> bounds.min_y <= #[trigger] needle_y(stitches, k)
                        <= bounds.max_y,
                0 <= at_min_x <= i && needle_x(stitches, at_min_x) == bounds.min_x,
                0 <= at_max_x <= i && needle_x(stitches, at_max_x) == bounds.max_x,
                0 <= at_min_y <= i && needle_y(stitches, at_min_y) == bounds.min_y,
                0 <= at_max_y <= i && needle_y(stitches, at_max_y) == bounds.max_y,
            decreases n - i,
        {
            let (dx, dy) = self.stitches[i].offset();
            x = x + dx as i128;
            y = y + dy as i128;
            i = i + 1;
            if x < bounds.min_x {
                bounds.min_x = x;
                proof {
                    at_min_x = i as int;
                }
            }
            if x > bounds.max_x {
                bounds.max_x = x;
                proof {
                    at_max_x = i as int;
                }
            }
            if y < bounds.min_y {
                bounds.min_y = y;
                proof {
                    at_min_y = i as int;
                }
            }
            if y > bounds.max_y {
                bounds.max_y = y;
                proof {
                    at_max_y = i as int;
                }
            }
        }
        bounds
    }
}

impl Clone for Pattern {
    fn clone(&self) -> (copy: Self)
        ensures
            copy@ == self@,
    {
        proof {
            use_type_invariant(self);
        }
        let stitches = self.stitches.clone();
        let palette = self.palette.clone();
        assert(stitches@ =~= self.stitches@);
        assert(palette@ =~= self.palette@);
        Pattern { stitches, palette }
    }
}

impl PartialEq for Pattern {
    /// Two patterns are equal when their stitches and their palettes are.
    fn eq(&self, other: &Self) -> (equal: bool) {
        let n = self.stitches.len();
        let m = self.palette.len();
        if n != other.stitches.len() || m != other.palette.len() {
            return false;
        }
        let mut i: usize = 0;
        while i < n
            invariant
                n == self.stitches.len(),
                n == other.stitches.len(),
                i <= n,
                self.stitches@.take(i as int) == other.stitches@.take(i as int),
            decreases n - i,
        {
            if self.stitches[i] != other.stitches[i] {
                assert(self.stitches@[i as int] != other.stitches@[i as int]);
                return false;
            }
            assert(self.stitches@.take(i + 1) == self.stitches@.take(i as int).push(
                self.stitches@[i as int],
            ));
            assert(other.stitches@.take(i + 1) == other.stitches@.take(i as int).push(
                other.stitches@[i as int],
            ));
            i = i + 1;
        }
        let mut j: usize = 0;
        while j < m
            invariant
                m == self.palette.len(),
                m == other.palette.len(),
                j <= m,
                self.palette@.take(j as int) == other.palette@.take(j as int),
            decreases m - j,
        {
            if self.palette[j] != other.palette[j] {
                assert(self.palette@[j as int] != other.palette@[j as int]);
                return false;
            }
            assert(self.palette@.take(j + 1) == self.palette@.take(j as int).push(
                self.palette@[j as int],
            ));
            assert(other.palette@.take(j + 1) == other.palette@.take(j as int).push(
                other.palette@[j as int],
            ));
            j = j + 1;
        }
        assert(self.stitches@ == self.stitches@.take(n as int));
        assert(other.stitches@ == other.stitches@.take(n as int));
        assert(self.palette@ == self.palette@.take(m as int));
        assert(other.palette@ == other.palette@.take(m as int));
        true
    }
}

impl PartialEqSpecImpl for Pattern {
    open spec fn obeys_eq_spec() -> bool {
        true
    }

    open spec fn eq_spec(&self, other: &Self) -> bool {
        self@ == other@
    }
}

} // verus!
