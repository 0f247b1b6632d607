//! The resolution state of a glyph.

use crate::atlas::{
    all_wf, none_fits, placed, put_into_atlas, same_atlases, took_glyph, AtlasState, GlyphState,
    MAX_ATLAS_EXTENT,
};
use crate::bg::Rendered;
use crate::AtlasHandler;
use vstd::prelude::*;

verus! {

/// What the cache knows of a glyph that was asked for. A glyph that was
/// never asked for has no state.
pub enum GlyphStateInCache<AtlasID: Copy, AtlasCoords: Copy> {
    /// Resolved for good, to nothing: the glyph has no outline, or it could
    /// not be placed or uploaded.
    Null,
    /// Sent off to be rendered in the background; no result yet.
    Pending,
    /// Resolved for good: placed and uploaded.
    Present(GlyphState<AtlasID, AtlasCoords>),
}

impl<AtlasID: Copy, AtlasCoords: Copy> GlyphStateInCache<AtlasID, AtlasCoords> {
    /// Whether the glyph still waits for its background rendering.
    pub fn is_pending(&self) -> (r: bool)
        ensures
            r == (self is Pending),
    {
        match self {
            GlyphStateInCache::Pending => true,
            _ => false,
        }
    }

    /// What a caller is told of a glyph in this state.
    pub open spec fn answer(self) -> Option<(AtlasID, AtlasCoords)> {
        match self {
            GlyphStateInCache::Present(glyph) => Some((glyph.atlas, glyph.coords)),
            _ => None,
        }
    }

    /// The state is final: neither rendering nor placing is tried again.
    pub open spec fn settled(self) -> bool {
        !(self is Pending)
    }

    /// What a caller is told of a glyph in this state: where it is, or
    /// nothing while it is pending or if it resolved to nothing.
    pub fn get_answer(&self) -> (r: Option<(AtlasID, AtlasCoords)>)
        ensures
            r == self.answer(),
    {
        match self {
            GlyphStateInCache::Present(glyph) => Some((glyph.atlas, glyph.coords)),
            _ => None,
        }
    }
}

/// Atlases only grow: `after` holds every atlas of `before`, in its place,
/// with the same handle and extent and with the rectangles it had, in their
/// order, before any that are new.
pub open spec fn grown<AtlasID: Copy>(
    before: Seq<AtlasState<AtlasID>>,
    after: Seq<AtlasState<AtlasID>>,
) -> bool {
    &&& before.len() <= after.len()
    &&& forall|j: int|
        0 <= j < before.len() ==> {
            let a = before[j]@;
            let b = (#[trigger] after[j])@;
            &&& b.handle == a.handle
            &&& b.width == a.width
            &&& b.height == a.height
            &&& a.placements.is_prefix_of(b.placements)
        }
}

/// Lists that show the same atlases have grown, by nothing.
pub proof fn lemma_same_grown<AtlasID: Copy>(
    before: Seq<AtlasState<AtlasID>>,
    after: Seq<AtlasState<AtlasID>>,
)
    requires
        same_atlases(before, after),
    ensures
        grown(before, after),
{
}

/// Placing a rectangle, by first fit or in a new atlas, is growth: nothing
/// that was placed before moves or goes.
pub proof fn lemma_placed_grown<AtlasID: Copy>(
    before: Seq<AtlasState<AtlasID>>,
    after: Seq<AtlasState<AtlasID>>,
    w: u32,
    h: u32,
    atlas_w: u32,
    atlas_h: u32,
    handle: AtlasID,
    x: u32,
    y: u32,
)
    requires
        placed(before, after, w, h, atlas_w, atlas_h, handle, x, y),
    ensures
        grown(before, after),
        before.len() <= after.len() <= before.len() + 1,
{
}

/// Growth after growth is growth.
pub proof fn lemma_grown_transitive<AtlasID: Copy>(
    a: Seq<AtlasState<AtlasID>>,
    b: Seq<AtlasState<AtlasID>>,
    c: Seq<AtlasState<AtlasID>>,
)
    requires
        grown(a, b),
        grown(b, c),
    ensures
        grown(a, c),
{
    assert forall|j: int| 0 <= j < a.len() implies {
        let x = a[j]@;
        let z = (#[trigger] c[j])@;
        &&& z.handle == x.handle
        &&& z.width == x.width
        &&& z.height == x.height
        &&& x.placements.is_prefix_of(z.placements)
    } by {
        let x = a[j]@;
        let y = b[j]@;
        let z = c[j]@;
        assert(x.placements =~= z.placements.subrange(0, x.placements.len() as int)) by {
            assert(x.placements == y.placements.subrange(0, x.placements.len() as int));
            assert(y.placements == z.placements.subrange(0, y.placements.len() as int));
        }
    }
}

/// A rendered glyph can be placed in atlases of `atlas_w` by `atlas_h`
/// texels: its raster is whole and not empty, and no larger than an atlas,
/// which is no larger than what is packed.
pub open spec fn placeable(rendered: Rendered, atlas_w: u32, atlas_h: u32) -> bool {
    &&& rendered.whole()
    &&& 0 < rendered.width <= atlas_w <= MAX_ATLAS_EXTENT
    &&& 0 < rendered.height <= atlas_h <= MAX_ATLAS_EXTENT
}

/// Whether a rendered glyph can be placed in atlases of the given size.
pub fn is_placeable(rendered: &Rendered, atlas_w: u32, atlas_h: u32) -> (r: bool)
    ensures
        r == placeable(*rendered, atlas_w, atlas_h),
{
    rendered.is_whole() && 0 < rendered.width && rendered.width <= atlas_w && atlas_w
        <= MAX_ATLAS_EXTENT && 0 < rendered.height && rendered.height <= atlas_h && atlas_h
        <= MAX_ATLAS_EXTENT
}

/// What becomes of a glyph once placing and uploading has ended: it is
/// present where that went well; else it resolves to nothing, and the
/// handler's error is kept beside it.
pub fn outcome_state<AtlasID: Copy, AtlasCoords: Copy, E>(
    outcome: Result<GlyphState<AtlasID, AtlasCoords>, E>,
) -> (r: (GlyphStateInCache<AtlasID, AtlasCoords>, Option<E>))
    ensures
        match outcome {
            Ok(glyph) => r == (GlyphStateInCache::Present(glyph), None::<E>),
            Err(e) => r == (GlyphStateInCache::<AtlasID, AtlasCoords>::Null, Some(e)),
        },
{
    match outcome {
        Ok(glyph) => (GlyphStateInCache::Present(glyph), None),
        Err(e) => (GlyphStateInCache::Null, Some(e)),
    }
}

/// How a rendered glyph settles where the handler does not fail and the
/// atlases are of `atlas_w` by `atlas_h` texels. A raster that cannot be
/// placed resolves to nothing, and the atlases stay as they are. Any other
/// is present, in the atlas that took its rectangle.
pub open spec fn settled_well<AtlasID: Copy, AtlasCoords: Copy>(
    before: Seq<AtlasState<AtlasID>>,
    after: Seq<AtlasState<AtlasID>>,
    rendered: Rendered,
    atlas_w: u32,
    atlas_h: u32,
    state: GlyphStateInCache<AtlasID, AtlasCoords>,
) -> bool {
    if placeable(rendered, atlas_w, atlas_h) {
        &&& state matches GlyphStateInCache::Present(glyph)
        &&& took_glyph(
            before,
            after,
            rendered.width,
            rendered.height,
            atlas_w,
            atlas_h,
            glyph.atlas,
        )
    } else {
        state is Null && after == before
    }
}

/// How a rendered glyph settles where the handler fails and the atlases are
/// of `atlas_w` by `atlas_h` texels. The raster could be placed, and the
/// glyph resolves to nothing. Either no atlas had room and none was added,
/// or the place was taken before the upload failed.
pub open spec fn settled_badly<AtlasID: Copy, AtlasCoords: Copy>(
    before: Seq<AtlasState<AtlasID>>,
    after: Seq<AtlasState<AtlasID>>,
    rendered: Rendered,
    atlas_w: u32,
    atlas_h: u32,
    state: GlyphStateInCache<AtlasID, AtlasCoords>,
) -> bool {
    let w = rendered.width;
    let h = rendered.height;
    &&& placeable(rendered, atlas_w, atlas_h)
    &&& state is Null
    &&& {
        ||| none_fits(before, w, h) && same_atlases(before, after)
        ||| exists|handle: AtlasID| #[trigger]
            took_glyph(before, after, w, h, atlas_w, atlas_h, handle)
    }
}

/// However a glyph settled, it is settled, and the atlases grew by one atlas
/// at most.
pub proof fn lemma_settled_grown<AtlasID: Copy, AtlasCoords: Copy>(
    before: Seq<AtlasState<AtlasID>>,
    after: Seq<AtlasState<AtlasID>>,
    rendered: Rendered,
    atlas_w: u32,
    atlas_h: u32,
    state: GlyphStateInCache<AtlasID, AtlasCoords>,
)
    requires
        settled_well(before, after, rendered, atlas_w, atlas_h, state) || settled_badly(
            before,
            after,
            rendered,
            atlas_w,
            atlas_h,
            state,
        ),
    ensures
        state.settled(),
        grown(before, after),
        before.len() <= after.len() <= before.len() + 1,
{
    let w = rendered.width;
    let h = rendered.height;
    if exists|handle: AtlasID| took_glyph(before, after, w, h, atlas_w, atlas_h, handle) {
        let handle = choose|handle: AtlasID|
            took_glyph(before, after, w, h, atlas_w, atlas_h, handle);
        let (x, y) = choose|x: u32, y: u32|
            placed(before, after, w, h, atlas_w, atlas_h, handle, x, y);
        lemma_placed_grown(before, after, w, h, atlas_w, atlas_h, handle, x, y);
    }
}

/// Settles a rendered glyph in atlases of `atlas_w` by `atlas_h` texels: the
/// raster is placed and uploaded, if it can be placed. Returns the glyph's
/// state from now on, and the handler's error where it failed.
pub fn settle_sized<A: AtlasHandler>(
    atlases: &mut Vec<AtlasState<A::AtlasID>>,
    handler: &mut A,
    atlas_w: u32,
    atlas_h: u32,
    rendered: &Rendered,
) -> (r: (GlyphStateInCache<A::AtlasID, A::AtlasCoords>, Option<A::E>))
    requires
        all_wf(old(atlases)@),
    ensures
        all_wf(final(atlases)@),
        match r.1 {
            None => settled_well(
                old(atlases)@,
                final(atlases)@,
                *rendered,
                atlas_w,
                atlas_h,
                r.0,
            ),
            Some(_) => settled_badly(
                old(atlases)@,
                final(atlases)@,
                *rendered,
                atlas_w,
                atlas_h,
                r.0,
            ),
        },
{
    if !is_placeable(rendered, atlas_w, atlas_h) {
        return (GlyphStateInCache::Null, None);
    }
    let outcome = put_into_atlas(
        atlases,
        handler,
        atlas_w,
        atlas_h,
        rendered.render,
        rendered.width,
        rendered.height,
        rendered.bitmap.as_slice(),
    );
    outcome_state(outcome)
}

} // verus!
