//! Atlases and the space in them.
//!
//! An atlas is a handle of the backend with a packer of the atlas's size.
//! Atlases are tried in the order they were made; a new one is asked of the
//! backend when none has room. Nothing is ever taken out of an atlas.

use crate::packer::{apart, packer_choice, packer_new, packer_pack, packer_rects, packer_size};
use crate::geometry::RenderBounds;
use crate::AtlasHandler;
use rect_packer::Packer;
use vstd::prelude::*;

verus! {

/// The largest atlas extent that is packed. A larger atlas is packed up to
/// this extent only.
pub const MAX_ATLAS_EXTENT: u32 = 0x3fff_ffff;

/// A rectangle of texels in an atlas.
#[derive(Clone, Copy, Debug, PartialEq, Eq, Structural)]
pub struct Rect {
    pub x: u32,
    pub y: u32,
    pub w: u32,
    pub h: u32,
}

impl Rect {
    /// Some texel lies in both rectangles.
    pub open spec fn overlaps(self, other: Rect) -> bool {
        &&& self.x < other.x + other.w
        &&& other.x < self.x + self.w
        &&& self.y < other.y + other.h
        &&& other.y < self.y + self.h
    }

    /// The rectangle is not empty and lies in an area of `width` by `height`.
    pub open spec fn within(self, width: int, height: int) -> bool {
        &&& self.w > 0
        &&& self.h > 0
        &&& self.x + self.w <= width
        &&& self.y + self.h <= height
    }
}

/// What the packer recorded, as a rectangle of the atlas.
pub open spec fn rect_of(t: (int, int, int, int)) -> Rect {
    Rect { x: t.0 as u32, y: t.1 as u32, w: t.2 as u32, h: t.3 as u32 }
}

/// A rectangle of the atlas, as the packer records it.
pub open spec fn tuple_of(r: Rect) -> (int, int, int, int) {
    (r.x as int, r.y as int, r.w as int, r.h as int)
}

/// What an atlas is to its users: the backend's handle, the extent that is
/// packed, and the rectangles handed out so far, oldest first.
pub struct AtlasView<AtlasID> {
    pub handle: AtlasID,
    pub width: int,
    pub height: int,
    pub placements: Seq<Rect>,
}

impl<AtlasID> AtlasView<AtlasID> {
    /// Every rectangle handed out lies inside the atlas, and no two of them
    /// share a texel.
    pub open spec fn sound(self) -> bool {
        &&& forall|i: int|
            0 <= i < self.placements.len() ==> (#[trigger] self.placements[i]).within(
                self.width,
                self.height,
            )
        &&& forall|i: int, j: int|
            0 <= i < j < self.placements.len() ==> !(#[trigger] self.placements[i]).overlaps(
                #[trigger] self.placements[j],
            )
    }

    /// Where this atlas puts a rectangle of `w` by `h`, if it takes it.
    /// It takes none that is empty or larger than itself.
    pub open spec fn fit(self, w: u32, h: u32) -> Option<(u32, u32)> {
        if w == 0 || h == 0 || w > self.width || h > self.height {
            None
        } else {
            match packer_choice(
                self.placements.map_values(|r: Rect| tuple_of(r)),
                (self.width, self.height),
                w as int,
                h as int,
            ) {
                Some((x, y)) => Some((x as u32, y as u32)),
                None => None,
            }
        }
    }

    /// The atlas after it has handed out `rect`.
    pub open spec fn with(self, rect: Rect) -> Self {
        AtlasView { placements: self.placements.push(rect), ..self }
    }
}

/// One atlas: the backend's handle and the packer that shares out its area.
pub struct AtlasState<AtlasID: Copy> {
    handle: AtlasID,
    packer: Packer,
    width: u32,
    height: u32,
}

impl<AtlasID: Copy> View for AtlasState<AtlasID> {
    type V = AtlasView<AtlasID>;

    closed spec fn view(&self) -> AtlasView<AtlasID> {
        AtlasView {
            handle: self.handle,
            width: self.width as int,
            height: self.height as int,
            placements: packer_rects(self.packer).map_values(|t: (int, int, int, int)| rect_of(t)),
        }
    }
}

impl<AtlasID: Copy> AtlasState<AtlasID> {
    /// The packer agrees with the atlas's extent, which is at most
    /// `MAX_ATLAS_EXTENT`, and what it has handed out is sound.
    pub closed spec fn wf(&self) -> bool {
        let rects = packer_rects(self.packer);
        &&& self.width <= MAX_ATLAS_EXTENT
        &&& self.height <= MAX_ATLAS_EXTENT
        &&& packer_size(self.packer) == (self.width as int, self.height as int)
        &&& forall|i: int|
            0 <= i < rects.len() ==> {
                let t = #[trigger] rects[i];
                t.0 >= 0 && t.1 >= 0 && t.2 > 0 && t.3 > 0 && t.0 + t.2 <= self.width && t.1 + t.3
                    <= self.height
            }
        &&& forall|i: int, j: int|
            0 <= i < j < rects.len() ==> apart(#[trigger] rects[i], #[trigger] rects[j])
    }

    /// In a well-formed atlas the rectangles lie inside it and no two of them
    /// share a texel.
    pub proof fn lemma_wf_sound(&self)
        requires
            self.wf(),
        ensures
            self@.sound(),
            0 <= self@.width <= MAX_ATLAS_EXTENT,
            0 <= self@.height <= MAX_ATLAS_EXTENT,
    {
    }

    /// Two rectangles that an atlas hands out one after the other share no
    /// texel.
    pub proof fn lemma_back_to_back_apart(&self, before: AtlasView<AtlasID>, first: Rect, second: Rect)
        requires
            self.wf(),
            before.placements.len() > 0,
            before.placements.last() == first,
            self@ == before.with(second),
        ensures
            !first.overlaps(second),
            second.within(self@.width, self@.height),
    {
        self.lemma_wf_sound();
        let n = before.placements.len() as int;
        assert(self@.placements[n - 1] == first);
        assert(self@.placements[n] == second);
    }

    /// What the packer recorded is what the view shows.
    proof fn lemma_rects_of_view(&self)
        requires
            self.wf(),
        ensures
            packer_rects(self.packer) == self@.placements.map_values(|r: Rect| tuple_of(r)),
    {
        assert(packer_rects(self.packer) =~= self@.placements.map_values(|r: Rect| tuple_of(r)));
    }

    /// An empty atlas for `handle`, of `w` by `h` texels.
    pub fn new(handle: AtlasID, w: u32, h: u32) -> (r: AtlasState<AtlasID>)
        ensures
            r.wf(),
            r@ == (AtlasView {
                handle,
                width: if w <= MAX_ATLAS_EXTENT { w as int } else { MAX_ATLAS_EXTENT as int },
                height: if h <= MAX_ATLAS_EXTENT { h as int } else { MAX_ATLAS_EXTENT as int },
                placements: Seq::<Rect>::empty(),
            }),
    {
        let width: u32 = if w <= MAX_ATLAS_EXTENT { w } else { MAX_ATLAS_EXTENT };
        let height: u32 = if h <= MAX_ATLAS_EXTENT { h } else { MAX_ATLAS_EXTENT };
        let packer = packer_new(width as i32, height as i32);
        let r = AtlasState { handle, packer, width, height };
        assert(r@.placements =~= Seq::<Rect>::empty());
        r
    }

    /// The backend's handle.
    pub fn get_handle(&self) -> (r: AtlasID)
        ensures
            r == self@.handle,
    {
        self.handle
    }

    /// Tries to place a rectangle of `w` by `h` texels. On success the place
    /// is recorded; otherwise the atlas stays as it was. A place lies inside
    /// the atlas and shares no texel with an earlier one, and an empty atlas
    /// puts a rectangle that fits at the origin.
    pub fn attempt_fit(&mut self, w: u32, h: u32) -> (r: Option<(u32, u32)>)
        requires
            old(self).wf(),
        ensures
            final(self).wf(),
            r == old(self)@.fit(w, h),
            final(self)@ == match r {
                Some((x, y)) => old(self)@.with(Rect { x, y, w, h }),
                None => old(self)@,
            },
            r matches Some((x, y)) ==> {
                let placed = Rect { x, y, w, h };
                &&& placed.within(old(self)@.width, old(self)@.height)
                &&& forall|i: int|
                    0 <= i < old(self)@.placements.len() ==> !placed.overlaps(
                        #[trigger] old(self)@.placements[i],
                    )
            },
            old(self)@.placements.len() == 0 && 0 < w <= old(self)@.width && 0 < h <= old(
                self,
            )@.height ==> r == Some((0u32, 0u32)),
    {
        if w == 0 || h == 0 || w > self.width || h > self.height {
            return None;
        }
        proof {
            self.lemma_rects_of_view();
        }
        match packer_pack(&mut self.packer, w as i32, h as i32) {
            Some((x, y)) => {
                proof {
                    let placed = Rect { x: x as u32, y: y as u32, w, h };
                    assert(self@.placements =~= old(self)@.placements.push(placed));
                }
                Some((x as u32, y as u32))
            },
            None => None,
        }
    }
}

/// Where a glyph lives: the atlas, and what the backend needs to draw it.
pub struct GlyphState<AtlasID: Copy, AtlasCoords: Copy> {
    pub atlas: AtlasID,
    pub coords: AtlasCoords,
}

/// Every atlas of the list is well-formed.
pub open spec fn all_wf<AtlasID: Copy>(atlases: Seq<AtlasState<AtlasID>>) -> bool {
    forall|i: int| 0 <= i < atlases.len() ==> (#[trigger] atlases[i]).wf()
}

/// The two lists show the same atlases.
pub open spec fn same_atlases<AtlasID: Copy>(
    before: Seq<AtlasState<AtlasID>>,
    after: Seq<AtlasState<AtlasID>>,
) -> bool {
    &&& after.len() == before.len()
    &&& forall|j: int| 0 <= j < before.len() ==> (#[trigger] after[j])@ == before[j]@
}

/// No atlas of the list takes a rectangle of `w` by `h`.
pub open spec fn none_fits<AtlasID: Copy>(atlases: Seq<AtlasState<AtlasID>>, w: u32, h: u32) -> bool {
    forall|j: int| 0 <= j < atlases.len() ==> (#[trigger] atlases[j])@.fit(w, h) is None
}

/// Atlas `i` is the first of the list that takes a rectangle of `w` by `h`.
pub open spec fn first_fit_at<AtlasID: Copy>(
    atlases: Seq<AtlasState<AtlasID>>,
    w: u32,
    h: u32,
    i: int,
) -> bool {
    &&& 0 <= i < atlases.len()
    &&& atlases[i]@.fit(w, h) is Some
    &&& none_fits(atlases.take(i), w, h)
}

/// `after` is `before` with `rect` handed out by atlas `i`: the first-fit
/// step.
pub open spec fn placed_in<AtlasID: Copy>(
    before: Seq<AtlasState<AtlasID>>,
    after: Seq<AtlasState<AtlasID>>,
    i: int,
    rect: Rect,
) -> bool {
    &&& 0 <= i < before.len()
    &&& after.len() == before.len()
    &&& after[i]@ == before[i]@.with(rect)
    &&& forall|j: int| 0 <= j < before.len() && j != i ==> (#[trigger] after[j])@ == before[j]@
}

/// `after` is `before` and one more atlas: `handle`, of `width` by `height`,
/// with `rect` as its only rectangle. This is the growth step.
pub open spec fn opened_with<AtlasID: Copy>(
    before: Seq<AtlasState<AtlasID>>,
    after: Seq<AtlasState<AtlasID>>,
    handle: AtlasID,
    width: u32,
    height: u32,
    rect: Rect,
) -> bool {
    &&& after.len() == before.len() + 1
    &&& after.last()@ == (AtlasView {
        handle,
        width: width as int,
        height: height as int,
        placements: seq![rect],
    })
    &&& forall|j: int| 0 <= j < before.len() ==> (#[trigger] after[j])@ == before[j]@
}

/// First fit: offers a rectangle of `w` by `h` texels to the atlases in the
/// order they were made. The first that takes it records it and the result
/// names it and the place; when none takes it, nothing changes.
pub fn first_fit<AtlasID: Copy>(atlases: &mut Vec<AtlasState<AtlasID>>, w: u32, h: u32) -> (r:
    Option<(usize, u32, u32)>)
    requires
        all_wf(old(atlases)@),
    ensures
        all_wf(final(atlases)@),
        match r {
            Some((i, x, y)) => {
                &&& first_fit_at(old(atlases)@, w, h, i as int)
                &&& old(atlases)@[i as int]@.fit(w, h) == Some((x, y))
                &&& placed_in(old(atlases)@, final(atlases)@, i as int, Rect { x, y, w, h })
            },
            None => none_fits(old(atlases)@, w, h) && same_atlases(
                old(atlases)@,
                final(atlases)@,
            ),
        },
{
    let mut i: usize = 0;
    while i < atlases.len()
        invariant
            i <= atlases.len(),
            all_wf(atlases@),
            same_atlases(old(atlases)@, atlases@),
            none_fits(old(atlases)@.take(i as int), w, h),
        decreases atlases.len() - i,
    {
        match atlases[i].attempt_fit(w, h) {
            Some((x, y)) => {
                return Some((i, x, y));
            },
            None => {},
        }
        i += 1;
    }
    proof {
        assert(old(atlases)@.take(i as int) =~= old(atlases)@);
    }
    None
}

/// Growth: what becomes of the list when no atlas had room and the backend
/// was asked for a new one. Its error is handed on and nothing changes; its
/// atlas is appended, of `atlas_w` by `atlas_h` texels, and takes the
/// rectangle at its origin.
pub fn open_atlas<AtlasID: Copy, E>(
    atlases: &mut Vec<AtlasState<AtlasID>>,
    opened: Result<AtlasID, E>,
    atlas_w: u32,
    atlas_h: u32,
    w: u32,
    h: u32,
) -> (r: Result<(AtlasID, u32, u32), E>)
    requires
        all_wf(old(atlases)@),
        0 < w <= atlas_w <= MAX_ATLAS_EXTENT,
        0 < h <= atlas_h <= MAX_ATLAS_EXTENT,
    ensures
        all_wf(final(atlases)@),
        match opened {
            Ok(handle) => r == Ok::<(AtlasID, u32, u32), E>((handle, 0u32, 0u32)) && opened_with(
                old(atlases)@,
                final(atlases)@,
                handle,
                atlas_w,
                atlas_h,
                Rect { x: 0, y: 0, w, h },
            ),
            Err(e) => r == Err::<(AtlasID, u32, u32), E>(e) && final(atlases)@ == old(atlases)@,
        },
{
    match opened {
        Ok(handle) => {
            let mut state = AtlasState::new(handle, atlas_w, atlas_h);
            let _ = state.attempt_fit(w, h);
            atlases.push(state);
            Ok((handle, 0, 0))
        },
        Err(e) => Err(e),
    }
}

/// `after` is `before` with a rectangle of `w` by `h` handed out at
/// `(x, y)` of the atlas `handle`: by the first atlas that takes it, or, when
/// none does, by a new atlas `handle` of `atlas_w` by `atlas_h` at the end of
/// the list.
pub open spec fn placed<AtlasID: Copy>(
    before: Seq<AtlasState<AtlasID>>,
    after: Seq<AtlasState<AtlasID>>,
    w: u32,
    h: u32,
    atlas_w: u32,
    atlas_h: u32,
    handle: AtlasID,
    x: u32,
    y: u32,
) -> bool {
    ||| exists|i: int|
        {
            &&& #[trigger] first_fit_at(before, w, h, i)
            &&& before[i]@.handle == handle
            &&& before[i]@.fit(w, h) == Some((x, y))
            &&& placed_in(before, after, i, Rect { x, y, w, h })
        }
    ||| {
        &&& none_fits(before, w, h)
        &&& x == 0
        &&& y == 0
        &&& opened_with(before, after, handle, atlas_w, atlas_h, Rect { x, y, w, h })
    }
}

/// Finds a place for a rectangle of `w` by `h` texels: in the first atlas
/// that takes it, else in a new atlas that the handler is asked for. When
/// the handler fails, its error is returned and no atlas is added.
pub fn place<A: AtlasHandler>(
    atlases: &mut Vec<AtlasState<A::AtlasID>>,
    handler: &mut A,
    atlas_w: u32,
    atlas_h: u32,
    w: u32,
    h: u32,
) -> (r: Result<(A::AtlasID, u32, u32), A::E>)
    requires
        all_wf(old(atlases)@),
        0 < w <= atlas_w <= MAX_ATLAS_EXTENT,
        0 < h <= atlas_h <= MAX_ATLAS_EXTENT,
    ensures
        all_wf(final(atlases)@),
        match r {
            Ok((handle, x, y)) => placed(
                old(atlases)@,
                final(atlases)@,
                w,
                h,
                atlas_w,
                atlas_h,
                handle,
                x,
                y,
            ),
            Err(_) => none_fits(old(atlases)@, w, h) && same_atlases(
                old(atlases)@,
                final(atlases)@,
            ),
        },
{
    match first_fit(atlases, w, h) {
        Some((i, x, y)) => {
            let handle = atlases[i].get_handle();
            Ok((handle, x, y))
        },
        None => {
            let opened = handler.new_atlas();
            open_atlas(atlases, opened, atlas_w, atlas_h, w, h)
        },
    }
}

/// `after` is `before` with one more rectangle of `w` by `h` in the atlas
/// `handle`, placed as `placed` says.
pub open spec fn took_glyph<AtlasID: Copy>(
    before: Seq<AtlasState<AtlasID>>,
    after: Seq<AtlasState<AtlasID>>,
    w: u32,
    h: u32,
    atlas_w: u32,
    atlas_h: u32,
    handle: AtlasID,
) -> bool {
    exists|x: u32, y: u32| #[trigger]
        placed(before, after, w, h, atlas_w, atlas_h, handle, x, y)
}

/// Places a raster of `w` by `h` texels and uploads it. On success the
/// glyph's atlas is the one that took the rectangle. An error is the
/// handler's: either no new atlas could be had, and the atlases are as they
/// were, or the upload failed after the place was taken.
pub fn put_into_atlas<A: AtlasHandler>(
    atlases: &mut Vec<AtlasState<A::AtlasID>>,
    handler: &mut A,
    atlas_w: u32,
    atlas_h: u32,
    render: RenderBounds,
    w: u32,
    h: u32,
    bitmap: &[u8],
) -> (r: Result<GlyphState<A::AtlasID, A::AtlasCoords>, A::E>)
    requires
        all_wf(old(atlases)@),
        0 < w <= atlas_w <= MAX_ATLAS_EXTENT,
        0 < h <= atlas_h <= MAX_ATLAS_EXTENT,
    ensures
        all_wf(final(atlases)@),
        match r {
            Ok(glyph) => took_glyph(
                old(atlases)@,
                final(atlases)@,
                w,
                h,
                atlas_w,
                atlas_h,
                glyph.atlas,
            ),
            Err(_) => {
                ||| none_fits(old(atlases)@, w, h) && same_atlases(old(atlases)@, final(atlases)@)
                ||| exists|handle: A::AtlasID| #[trigger]
                    took_glyph(old(atlases)@, final(atlases)@, w, h, atlas_w, atlas_h, handle)
            },
        },
{
    match place(atlases, handler, atlas_w, atlas_h, w, h) {
        Ok((handle, x, y)) => {
            proof {
                assert(took_glyph(old(atlases)@, atlases@, w, h, atlas_w, atlas_h, handle));
            }
            match handler.add_to_atlas(handle, render, x, y, w, h, bitmap) {
                Ok(coords) => Ok(GlyphState { atlas: handle, coords }),
                Err(e) => Err(e),
            }
        },
        Err(e) => Err(e),
    }
}

} // verus!
