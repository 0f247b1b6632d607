//! The rectangle packer of one atlas, as the library sees it.
//!
//! The packer itself is `rect_packer::Packer`, a skyline packer. Nothing in
//! this file is proved: it states what the library relies on.

use rect_packer::Packer;
use vstd::prelude::*;

verus! {

/// `rect_packer::Packer`. The proofs see nothing inside it: what it holds
/// is spoken of through `packer_rects` and `packer_size`.
#[verifier::external_type_specification]
#[verifier::external_body]
pub struct ExPacker(rect_packer::Packer);

/// The rectangles that a packer has handed out since it was made, oldest
/// first, each as `(x, y, width, height)`.
pub uninterp spec fn packer_rects(p: Packer) -> Seq<(int, int, int, int)>;

/// The `(width, height)` that a packer was made with.
pub uninterp spec fn packer_size(p: Packer) -> (int, int);

/// Where a packer of `size` that has handed out `rects` puts a rectangle of
/// `w` by `h` that may not be rotated, if it takes it at all.
pub uninterp spec fn packer_choice(
    rects: Seq<(int, int, int, int)>,
    size: (int, int),
    w: int,
    h: int,
) -> Option<(int, int)>;

/// No texel lies in both rectangles.
pub open spec fn apart(a: (int, int, int, int), b: (int, int, int, int)) -> bool {
    a.0 + a.2 <= b.0 || b.0 + b.2 <= a.0 || a.1 + a.3 <= b.1 || b.1 + b.3 <= a.1
}

/// `Packer::new`, with no padding at the border or between rectangles: an
/// empty packer of the given size.
#[verifier::external_body]
pub(crate) fn packer_new(width: i32, height: i32) -> (p: Packer)
    requires
        0 <= width,
        0 <= height,
    ensures
        packer_rects(p) == Seq::<(int, int, int, int)>::empty(),
        packer_size(p) == (width as int, height as int),
{
    Packer::new(rect_packer::Config { width, height, border_padding: 0, rectangle_padding: 0 })
}

/// `Packer::pack` without rotation. The packer either refuses and stays as
/// it was, or hands out a place for the rectangle and records it. Which of
/// the two, and which place, depends on the packer's size and on what it has
/// handed out alone. A place lies inside the packer's size and shares no
/// texel with a rectangle handed out before; only a rectangle that is not
/// empty gets one. An empty packer puts a rectangle that fits at the origin.
/// The sums of the rectangle's and the packer's extents must fit in `i32`:
/// the packer adds them up.
#[verifier::external_body]
pub(crate) fn packer_pack(p: &mut Packer, w: i32, h: i32) -> (r: Option<(i32, i32)>)
    requires
        w + packer_size(*old(p)).0 <= i32::MAX,
        h + packer_size(*old(p)).1 <= i32::MAX,
    ensures
        packer_size(*final(p)) == packer_size(*old(p)),
        match r {
            Some((x, y)) => {
                &&& packer_choice(
                    packer_rects(*old(p)),
                    packer_size(*old(p)),
                    w as int,
                    h as int,
                ) == Some((x as int, y as int))
                &&& packer_rects(*final(p)) == packer_rects(*old(p)).push(
                    (x as int, y as int, w as int, h as int),
                )
                &&& w > 0 && h > 0
                &&& 0 <= x && x + w <= packer_size(*old(p)).0
                &&& 0 <= y && y + h <= packer_size(*old(p)).1
                &&& forall|i: int|
                    0 <= i < packer_rects(*old(p)).len() ==> apart(
                        #[trigger] packer_rects(*old(p))[i],
                        (x as int, y as int, w as int, h as int),
                    )
            },
            None => {
                &&& packer_choice(
                    packer_rects(*old(p)),
                    packer_size(*old(p)),
                    w as int,
                    h as int,
                ) is None
                &&& packer_rects(*final(p)) == packer_rects(*old(p))
            },
        },
        packer_rects(*old(p)).len() == 0 && 0 < w <= packer_size(*old(p)).0 && 0 < h
            <= packer_size(*old(p)).1 ==> r == Some((0i32, 0i32)),
{
    p.pack(w, h, false).map(|r| (r.x, r.y))
}

} // verus!
