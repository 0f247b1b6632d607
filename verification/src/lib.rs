//! A demand-populated glyph cache: a (face, glyph) lookup is turned into a
//! slot of a texture atlas that holds a multichannel signed distance field of
//! the glyph. Glyphs are planned, packed and uploaded the first time they are
//! asked for, and remembered from then on.
//!
//! The crate owns the decisions: the geometry of a glyph's raster, the
//! first-fit packing over a growing list of atlases, and the resolution state
//! of each glyph. Distance-field rasterisation, threads and the atlas backend
//! belong to the embedder.

pub mod atlas;
pub mod bg;
pub mod cache;
pub mod face;
pub mod font;
pub mod geometry;
pub mod packer;

use crate::atlas::{all_wf, AtlasState};
use crate::atlas::took_glyph;
use crate::bg::{
    faces_after, lemma_commands_push, runnable, BgCmd, RenderJob, Rendered, Renderer, Worker,
};
use crate::cache::placeable;
use crate::cache::{
    grown, lemma_grown_transitive, lemma_same_grown, lemma_settled_grown, settle_sized,
    settled_badly, settled_well, GlyphStateInCache,
};
use crate::face::{FaceState, FaceView};
use crate::font::face_units;
use crate::geometry::RenderBounds;
use std::collections::HashMap;
use std::sync::Arc;
use vstd::prelude::*;

verus! {

/// The atlas backend, implemented by the embedding renderer. It is called
/// from the thread that owns the cache only.
pub trait AtlasHandler {
    type AtlasID: Copy;

    type AtlasCoords: Copy;

    type E;

    /// Create a new, blank atlas.
    fn new_atlas(&mut self) -> Result<Self::AtlasID, Self::E>;

    /// The size of the atlases that this handler creates. It is asked for
    /// often: keep it cheap.
    fn get_atlas_size(&mut self) -> (u32, u32);

    /// Upload the given glyph pixels, three bytes a texel, to the given
    /// region of the given atlas, and return what is needed to render the
    /// glyph later. `render` is the quad in em; it includes the border that
    /// the raster has.
    fn add_to_atlas(
        &mut self,
        target_atlas: Self::AtlasID,
        render: RenderBounds,
        glyph_x: u32,
        glyph_y: u32,
        glyph_width: u32,
        glyph_height: u32,
        glyph_pixels: &[u8],
    ) -> Result<Self::AtlasCoords, Self::E>;
}

/// The key of a glyph in the cache: the face's index and the glyph's
/// number, as one number.
pub open spec fn glyph_key(face: usize, glyph: u16) -> u128 {
    (face as int * 65536 + glyph as int) as u128
}

/// Different glyphs have different keys.
pub proof fn lemma_glyph_key_injective(f1: usize, g1: u16, f2: usize, g2: u16)
    requires
        glyph_key(f1, g1) == glyph_key(f2, g2),
    ensures
        f1 == f2,
        g1 == g2,
{
}

fn key_of(face: usize, glyph: u16) -> (k: u128)
    ensures
        k == glyph_key(face, glyph),
{
    (face as u128) * 65536 + (glyph as u128)
}

/// The state of a glyph among `states`; none if it has none.
pub open spec fn state_in<AtlasID: Copy, AtlasCoords: Copy>(
    states: Map<(usize, u16), GlyphStateInCache<AtlasID, AtlasCoords>>,
    face: usize,
    glyph: u16,
) -> Option<GlyphStateInCache<AtlasID, AtlasCoords>> {
    if states.contains_key((face, glyph)) {
        Some(states[(face, glyph)])
    } else {
        None
    }
}

/// The states of the glyphs, by face and glyph, as the map by key holds
/// them.
spec fn states_of<AtlasID: Copy, AtlasCoords: Copy>(
    glyphs: Map<u128, GlyphStateInCache<AtlasID, AtlasCoords>>,
) -> Map<(usize, u16), GlyphStateInCache<AtlasID, AtlasCoords>> {
    Map::new(
        |k: (usize, u16)| glyphs.contains_key(glyph_key(k.0, k.1)),
        |k: (usize, u16)| glyphs[glyph_key(k.0, k.1)],
    )
}

/// Writing the state of a glyph under its key writes it under its face and
/// glyph, and leaves every other glyph as it was.
proof fn lemma_states_insert<AtlasID: Copy, AtlasCoords: Copy>(
    glyphs: Map<u128, GlyphStateInCache<AtlasID, AtlasCoords>>,
    face: usize,
    glyph: u16,
    state: GlyphStateInCache<AtlasID, AtlasCoords>,
)
    ensures
        states_of(glyphs.insert(glyph_key(face, glyph), state)) == states_of(glyphs).insert(
            (face, glyph),
            state,
        ),
{
    let a = states_of(glyphs.insert(glyph_key(face, glyph), state));
    let b = states_of(glyphs).insert((face, glyph), state);
    assert forall|k: (usize, u16)| a.contains_key(k) == b.contains_key(k) && (a.contains_key(k)
        ==> a[k] == b[k]) by {
        if glyph_key(k.0, k.1) == glyph_key(face, glyph) {
            lemma_glyph_key_injective(k.0, k.1, face, glyph);
        }
    }
    assert(a =~= b);
}

/// The part of the cache that taking in a rendered glyph can change: the
/// atlases, and the states of the glyphs by face and glyph.
pub struct Snapshot<AtlasID: Copy, AtlasCoords: Copy> {
    pub atlases: Seq<AtlasState<AtlasID>>,
    pub states: Map<(usize, u16), GlyphStateInCache<AtlasID, AtlasCoords>>,
}

/// What became of a rendered glyph that was taken into the cache.
#[derive(Clone, Copy, Debug, PartialEq, Eq, Structural)]
pub enum Taken {
    /// The glyph was never asked for: the result was dropped.
    Unasked,
    /// The glyph was settled already: the result was dropped.
    Repeated,
    /// The glyph was pending and is present now.
    Placed,
    /// The glyph was pending and has resolved to nothing: its raster could
    /// not be placed, or the handler failed.
    Failed,
}

/// What became of a rendered glyph, by the state of its glyph before and
/// after it was taken in.
pub open spec fn taken_as<AtlasID: Copy, AtlasCoords: Copy>(
    before: Option<GlyphStateInCache<AtlasID, AtlasCoords>>,
    after: Option<GlyphStateInCache<AtlasID, AtlasCoords>>,
) -> Taken {
    match before {
        None => Taken::Unasked,
        Some(GlyphStateInCache::Pending) => if after matches Some(GlyphStateInCache::Present(_)) {
            Taken::Placed
        } else {
            Taken::Failed
        },
        Some(_) => Taken::Repeated,
    }
}

/// A rendered glyph of this face and glyph is among `waiting`.
pub open spec fn awaited(waiting: Seq<Rendered>, face: usize, glyph: u16) -> bool {
    exists|i: int|
        0 <= i < waiting.len() && (#[trigger] waiting[i]).face_index == face && waiting[i].glyph_id
            == glyph
}

/// Taking one rendered glyph in, with atlases of `atlas_w` by `atlas_h`
/// texels, leads from `before` to `after`. If the glyph is pending, it gets
/// the state that placing and uploading its raster came to, as
/// `settled_well` and `settled_badly` say, and nothing else changes. If it
/// was never asked for, or is settled already, nothing changes at all.
pub open spec fn reconciled<AtlasID: Copy, AtlasCoords: Copy>(
    before: Snapshot<AtlasID, AtlasCoords>,
    after: Snapshot<AtlasID, AtlasCoords>,
    rendered: Rendered,
    atlas_w: u32,
    atlas_h: u32,
) -> bool {
    let key = (rendered.face_index, rendered.glyph_id);
    if state_in(before.states, key.0, key.1) == Some(
        GlyphStateInCache::<AtlasID, AtlasCoords>::Pending,
    ) {
        &&& after.states.contains_key(key)
        &&& after.states == before.states.insert(key, after.states[key])
        &&& {
            ||| settled_well(
                before.atlases,
                after.atlases,
                rendered,
                atlas_w,
                atlas_h,
                after.states[key],
            )
            ||| settled_badly(
                before.atlases,
                after.atlases,
                rendered,
                atlas_w,
                atlas_h,
                after.states[key],
            )
        }
    } else {
        after == before
    }
}

/// Taking the rendered glyphs `waiting` in, oldest first, leads from `start`
/// to `end`: each is taken in as `reconciled` says, for the atlas size that
/// the handler gave at the time.
pub open spec fn drained<AtlasID: Copy, AtlasCoords: Copy>(
    start: Snapshot<AtlasID, AtlasCoords>,
    end: Snapshot<AtlasID, AtlasCoords>,
    waiting: Seq<Rendered>,
) -> bool
    decreases waiting.len(),
{
    if waiting.len() == 0 {
        end == start
    } else {
        exists|mid: Snapshot<AtlasID, AtlasCoords>, atlas_w: u32, atlas_h: u32|
            drained(start, mid, waiting.drop_last()) && #[trigger] reconciled(
                mid,
                end,
                waiting.last(),
                atlas_w,
                atlas_h,
            )
    }
}

/// Every glyph that was pending at `start` and is among the rendered glyphs
/// `taken` is settled at `end`.
pub open spec fn all_taken<AtlasID: Copy, AtlasCoords: Copy>(
    start: Snapshot<AtlasID, AtlasCoords>,
    end: Snapshot<AtlasID, AtlasCoords>,
    taken: Seq<Rendered>,
) -> bool {
    forall|i: int|
        0 <= i < taken.len() ==> {
            let t = #[trigger] taken[i];
            state_in(start.states, t.face_index, t.glyph_id) == Some(
                GlyphStateInCache::<AtlasID, AtlasCoords>::Pending,
            ) ==> state_in(end.states, t.face_index, t.glyph_id) is Some && state_in(
                end.states,
                t.face_index,
                t.glyph_id,
            ).unwrap().settled()
        }
}

/// Taking one rendered glyph in only grows the atlases, changes no state but
/// that glyph's, and that one only from pending to settled.
pub proof fn lemma_reconciled<AtlasID: Copy, AtlasCoords: Copy>(
    before: Snapshot<AtlasID, AtlasCoords>,
    after: Snapshot<AtlasID, AtlasCoords>,
    rendered: Rendered,
    atlas_w: u32,
    atlas_h: u32,
)
    requires
        reconciled(before, after, rendered, atlas_w, atlas_h),
    ensures
        grown(before.atlases, after.atlases),
        forall|f: usize, g: u16|
            step(state_in(before.states, f, g), #[trigger] state_in(after.states, f, g)),
        forall|f: usize, g: u16|
            (f, g) != (rendered.face_index, rendered.glyph_id) ==> #[trigger] state_in(
                after.states,
                f,
                g,
            ) == state_in(before.states, f, g),
        state_in(before.states, rendered.face_index, rendered.glyph_id) == Some(
            GlyphStateInCache::<AtlasID, AtlasCoords>::Pending,
        ) ==> state_in(after.states, rendered.face_index, rendered.glyph_id) is Some && state_in(
            after.states,
            rendered.face_index,
            rendered.glyph_id,
        ).unwrap().settled(),
{
    let key = (rendered.face_index, rendered.glyph_id);
    if state_in(before.states, key.0, key.1) == Some(
        GlyphStateInCache::<AtlasID, AtlasCoords>::Pending,
    ) {
        lemma_settled_grown(
            before.atlases,
            after.atlases,
            rendered,
            atlas_w,
            atlas_h,
            after.states[key],
        );
    } else {
        lemma_same_grown(before.atlases, after.atlases);
    }
}

/// A pending glyph whose raster can be placed is present once its result is
/// taken in, in the atlas that took the raster, unless the handler failed.
pub proof fn lemma_reconciled_present<AtlasID: Copy, AtlasCoords: Copy>(
    before: Snapshot<AtlasID, AtlasCoords>,
    after: Snapshot<AtlasID, AtlasCoords>,
    rendered: Rendered,
    atlas_w: u32,
    atlas_h: u32,
)
    requires
        reconciled(before, after, rendered, atlas_w, atlas_h),
        state_in(before.states, rendered.face_index, rendered.glyph_id) == Some(
            GlyphStateInCache::<AtlasID, AtlasCoords>::Pending,
        ),
        placeable(rendered, atlas_w, atlas_h),
    ensures
        match state_in(after.states, rendered.face_index, rendered.glyph_id) {
            Some(GlyphStateInCache::Present(glyph)) => took_glyph(
                before.atlases,
                after.atlases,
                rendered.width,
                rendered.height,
                atlas_w,
                atlas_h,
                glyph.atlas,
            ),
            Some(GlyphStateInCache::Null) => settled_badly(
                before.atlases,
                after.atlases,
                rendered,
                atlas_w,
                atlas_h,
                GlyphStateInCache::<AtlasID, AtlasCoords>::Null,
            ),
            _ => false,
        },
{
}

/// Taking rendered glyphs in only grows the atlases. No state goes back;
/// the glyphs that were pending and are among those taken in are settled;
/// a glyph that is not among them keeps its state, so a pending glyph
/// without result stays pending.
pub proof fn lemma_drained<AtlasID: Copy, AtlasCoords: Copy>(
    start: Snapshot<AtlasID, AtlasCoords>,
    end: Snapshot<AtlasID, AtlasCoords>,
    waiting: Seq<Rendered>,
)
    requires
        drained(start, end, waiting),
    ensures
        grown(start.atlases, end.atlases),
        forall|f: usize, g: u16|
            step(state_in(start.states, f, g), #[trigger] state_in(end.states, f, g)),
        forall|f: usize, g: u16|
            !awaited(waiting, f, g) ==> #[trigger] state_in(end.states, f, g) == state_in(
                start.states,
                f,
                g,
            ),
        all_taken(start, end, waiting),
        waiting.len() == 0 ==> end == start,
    decreases waiting.len(),
{
    if waiting.len() == 0 {
        lemma_same_grown(start.atlases, end.atlases);
    } else {
        let (mid, atlas_w, atlas_h) = choose|
            mid: Snapshot<AtlasID, AtlasCoords>,
            atlas_w: u32,
            atlas_h: u32,
        |
            drained(start, mid, waiting.drop_last()) && #[trigger] reconciled(
                mid,
                end,
                waiting.last(),
                atlas_w,
                atlas_h,
            );
        let last = waiting.last();
        lemma_drained(start, mid, waiting.drop_last());
        lemma_reconciled(mid, end, last, atlas_w, atlas_h);
        lemma_grown_transitive(start.atlases, mid.atlases, end.atlases);
        assert forall|f: usize, g: u16|
            step(state_in(start.states, f, g), #[trigger] state_in(end.states, f, g)) by {
            lemma_step_transitive(
                state_in(start.states, f, g),
                state_in(mid.states, f, g),
                state_in(end.states, f, g),
            );
        }
        assert forall|f: usize, g: u16| !awaited(waiting, f, g) implies #[trigger] state_in(
            end.states,
            f,
            g,
        ) == state_in(start.states, f, g) by {
            if awaited(waiting.drop_last(), f, g) {
                let i = choose|i: int|
                    0 <= i < waiting.drop_last().len() && (#[trigger] waiting.drop_last()[i]).face_index
                        == f && waiting.drop_last()[i].glyph_id == g;
                assert(waiting[i] == waiting.drop_last()[i]);
            }
            if (f, g) == (last.face_index, last.glyph_id) {
                assert(waiting[waiting.len() - 1] == last);
            }
            assert(state_in(mid.states, f, g) == state_in(start.states, f, g));
        }
        assert forall|i: int| 0 <= i < waiting.len() implies {
            let t = #[trigger] waiting[i];
            state_in(start.states, t.face_index, t.glyph_id) == Some(
                GlyphStateInCache::<AtlasID, AtlasCoords>::Pending,
            ) ==> state_in(end.states, t.face_index, t.glyph_id) is Some && state_in(
                end.states,
                t.face_index,
                t.glyph_id,
            ).unwrap().settled()
        } by {
            let t = waiting[i];
            assert(step(
                state_in(start.states, t.face_index, t.glyph_id),
                state_in(mid.states, t.face_index, t.glyph_id),
            ));
            assert(step(
                state_in(mid.states, t.face_index, t.glyph_id),
                state_in(end.states, t.face_index, t.glyph_id),
            ));
            if i < waiting.len() - 1 {
                assert(waiting.drop_last()[i] == t);
            }
        }
    }
}

/// What the cache says when it is asked for a glyph.
pub enum Lookup<AtlasID: Copy, AtlasCoords: Copy> {
    /// The cache answers: where the glyph is, or nothing, for a glyph that
    /// is still being rendered or that resolved to nothing.
    Known(Option<(AtlasID, AtlasCoords)>),
    /// The glyph is new and is to be rendered now: rasterise the job and
    /// hand the result to `put_glyph`.
    Render(RenderJob),
}

/// How the state of one glyph may change while rendered glyphs are taken
/// into the cache: not at all, or from pending to settled.
pub open spec fn step<AtlasID: Copy, AtlasCoords: Copy>(
    before: Option<GlyphStateInCache<AtlasID, AtlasCoords>>,
    after: Option<GlyphStateInCache<AtlasID, AtlasCoords>>,
) -> bool {
    ||| after == before
    ||| before == Some(GlyphStateInCache::<AtlasID, AtlasCoords>::Pending) && after is Some
        && after.unwrap().settled()
}

/// A settled state is final: no step changes it.
pub proof fn lemma_step_keeps_settled<AtlasID: Copy, AtlasCoords: Copy>(
    before: GlyphStateInCache<AtlasID, AtlasCoords>,
    after: Option<GlyphStateInCache<AtlasID, AtlasCoords>>,
)
    requires
        before.settled(),
        step(Some(before), after),
    ensures
        after == Some(before),
{
}

/// A glyph that was never asked for stays so: no step gives it a state.
pub proof fn lemma_step_keeps_absent<AtlasID: Copy, AtlasCoords: Copy>(
    after: Option<GlyphStateInCache<AtlasID, AtlasCoords>>,
)
    requires
        step(None::<GlyphStateInCache<AtlasID, AtlasCoords>>, after),
    ensures
        after is None,
{
}

/// Steps chain: a state never goes back, from settled to pending or from
/// either to none.
pub proof fn lemma_step_transitive<AtlasID: Copy, AtlasCoords: Copy>(
    a: Option<GlyphStateInCache<AtlasID, AtlasCoords>>,
    b: Option<GlyphStateInCache<AtlasID, AtlasCoords>>,
    c: Option<GlyphStateInCache<AtlasID, AtlasCoords>>,
)
    requires
        step(a, b),
        step(b, c),
    ensures
        step(a, c),
{
}

/// The glyph cache: faces, atlases, the state of every glyph that was asked
/// for, and the cache's end of the queues to the background worker.
pub struct TextHandler<AtlasID: Copy, AtlasCoords: Copy> {
    faces: Vec<FaceState>,
    atlases: Vec<AtlasState<AtlasID>>,
    glyphs: HashMap<u128, GlyphStateInCache<AtlasID, AtlasCoords>>,
    bg: Renderer,
    render_in_bg: bool,
    sent: Ghost<Seq<BgCmd>>,
}

impl<AtlasID: Copy, AtlasCoords: Copy> TextHandler<AtlasID, AtlasCoords> {
    /// The faces, by index.
    pub closed spec fn faces(&self) -> Seq<FaceView> {
        self.faces@.map_values(|f: FaceState| f@)
    }

    /// The atlases, in the order they were made.
    pub closed spec fn atlases(&self) -> Seq<AtlasState<AtlasID>> {
        self.atlases@
    }

    /// The states of the glyphs that were asked for, by face and glyph.
    pub closed spec fn states(&self) -> Map<(usize, u16), GlyphStateInCache<AtlasID, AtlasCoords>> {
        states_of(self.glyphs@)
    }

    /// The state of a glyph; none if it was never asked for.
    pub open spec fn state(&self, face: usize, glyph: u16) -> Option<
        GlyphStateInCache<AtlasID, AtlasCoords>,
    > {
        state_in(self.states(), face, glyph)
    }

    /// The atlases and the states of the glyphs.
    pub open spec fn snapshot(&self) -> Snapshot<AtlasID, AtlasCoords> {
        Snapshot { atlases: self.atlases(), states: self.states() }
    }

    /// The commands that wait to be handed to the worker, oldest first.
    pub closed spec fn commands(&self) -> Seq<BgCmd> {
        self.bg.commands()
    }

    /// The commands that were taken to be handed to the worker, oldest
    /// first.
    pub closed spec fn sent(&self) -> Seq<BgCmd> {
        self.sent@
    }

    /// The rendered glyphs that wait to be taken into the cache, oldest
    /// first.
    pub closed spec fn waiting(&self) -> Seq<Rendered> {
        self.bg.glyphs()
    }

    /// Whether new glyphs are rendered in the background.
    pub closed spec fn in_background(&self) -> bool {
        self.render_in_bg
    }

    /// Every atlas is well-formed, every face is one that its font file
    /// holds, and the commands given so far are what a worker needs to know
    /// the same faces.
    pub closed spec fn wf(&self) -> bool {
        &&& all_wf(self.atlases@)
        &&& forall|i: int| 0 <= i < self.faces@.len() ==> (#[trigger] self.faces@[i])@.wf()
        &&& runnable(Seq::empty(), self.sent@ + self.bg.commands())
        &&& faces_after(Seq::empty(), self.sent@ + self.bg.commands()) == self.faces()
    }

    /// What a well-formed cache holds is well-formed.
    pub proof fn lemma_wf(&self)
        requires
            self.wf(),
        ensures
            all_wf(self.atlases()),
            forall|i: int| 0 <= i < self.faces().len() ==> (#[trigger] self.faces()[i]).wf(),
    {
    }

    /// The worker keeps step with the cache. A worker that starts without
    /// faces can carry out, in order, every command that the cache has given
    /// and still holds: no glyph is asked of it before its face. Once it has
    /// done so, it knows the faces of the cache, under the same indices.
    pub proof fn lemma_worker_in_step(&self)
        requires
            self.wf(),
        ensures
            runnable(Seq::empty(), self.sent() + self.commands()),
            faces_after(Seq::empty(), self.sent() + self.commands()) == self.faces(),
    {
    }

    /// In a well-formed cache no two rectangles of an atlas share a texel, and
    /// each lies inside its atlas.
    pub proof fn lemma_placements_apart(&self, atlas: int, i: int, j: int)
        requires
            self.wf(),
            0 <= atlas < self.atlases().len(),
            0 <= i < j < self.atlases()[atlas]@.placements.len(),
        ensures
            !self.atlases()[atlas]@.placements[i].overlaps(self.atlases()[atlas]@.placements[j]),
            self.atlases()[atlas]@.placements[i].within(
                self.atlases()[atlas]@.width,
                self.atlases()[atlas]@.height,
            ),
            self.atlases()[atlas]@.placements[j].within(
                self.atlases()[atlas]@.width,
                self.atlases()[atlas]@.height,
            ),
    {
        self.atlases@[atlas].lemma_wf_sound();
    }

    /// An empty cache that renders new glyphs in the background.
    pub fn new() -> (r: TextHandler<AtlasID, AtlasCoords>)
        ensures
            r.wf(),
            r.faces() == Seq::<FaceView>::empty(),
            r.atlases() == Seq::<AtlasState<AtlasID>>::empty(),
            r.states() == Map::<(usize, u16), GlyphStateInCache<AtlasID, AtlasCoords>>::empty(),
            r.commands() == Seq::<BgCmd>::empty(),
            r.sent() == Seq::<BgCmd>::empty(),
            r.waiting() == Seq::<Rendered>::empty(),
            r.in_background(),
    {
        let r = TextHandler {
            faces: Vec::new(),
            atlases: Vec::new(),
            glyphs: HashMap::new(),
            bg: Renderer::new(),
            render_in_bg: true,
            sent: Ghost(Seq::empty()),
        };
        assert(r.sent@ + r.bg.commands() =~= Seq::<BgCmd>::empty());
        assert(r.states() =~= Map::<(usize, u16), GlyphStateInCache<AtlasID, AtlasCoords>>::empty());
        assert(r.faces() =~= Seq::<FaceView>::empty());
        r
    }

    /// Set whether new glyphs will be rendered in the background. When
    /// enabled, new glyphs are invisible until they finish background
    /// rendering. When disabled, a new glyph is rendered before it is
    /// answered for. Glyphs that are being rendered in the background stay
    /// so.
    pub fn set_render_in_background(&mut self, nu: bool)
        requires
            old(self).wf(),
        ensures
            final(self).wf(),
            final(self).in_background() == nu,
            final(self).faces() == old(self).faces(),
            final(self).atlases() == old(self).atlases(),
            final(self).states() == old(self).states(),
            final(self).commands() == old(self).commands(),
            final(self).sent() == old(self).sent(),
            final(self).waiting() == old(self).waiting(),
    {
        self.render_in_bg = nu;
    }

    /// How many faces there are.
    pub fn face_count(&self) -> (r: usize)
        ensures
            r == self.faces().len(),
    {
        self.faces.len()
    }

    /// How many atlases there are.
    pub fn atlas_count(&self) -> (r: usize)
        ensures
            r == self.atlases().len(),
    {
        self.atlases.len()
    }

    /// Adds face `index` of the font file `face_data`, and queues it for the
    /// background worker. Returns the face's index in the cache, or nothing
    /// where the file cannot be parsed or does not hold that face; then
    /// nothing changes.
    ///
    /// - `border_texels`: the padding around each raster in the atlas, which
    ///   is also the range of the distance field, in sixty-fourths of a
    ///   texel.
    /// - `texels_per_em_*`: the texels that one em of the font takes in the
    ///   atlas, in sixty-fourths of a texel.
    pub fn add_face(
        &mut self,
        face_data: Arc<Vec<u8>>,
        index: u32,
        border_texels: u32,
        texels_per_em_x: u32,
        texels_per_em_y: u32,
    ) -> (r: Option<usize>)
        requires
            old(self).wf(),
        ensures
            final(self).wf(),
            final(self).atlases() == old(self).atlases(),
            final(self).states() == old(self).states(),
            final(self).waiting() == old(self).waiting(),
            final(self).sent() == old(self).sent(),
            final(self).in_background() == old(self).in_background(),
            match face_units(face_data@, index) {
                Some(units) => {
                    let view = FaceView {
                        data: face_data@,
                        index,
                        units_per_em: units as u16,
                        border_texels,
                        texels_per_em_x,
                        texels_per_em_y,
                    };
                    &&& r matches Some(n)
                    &&& n as int == old(self).faces().len()
                    &&& final(self).faces() == old(self).faces().push(view)
                    &&& final(self).commands().len() == old(self).commands().len() + 1
                    &&& final(self).commands().drop_last() == old(self).commands()
                    &&& final(self).commands().last() matches BgCmd::AddFace { face }
                    &&& face@ == view
                },
                None => {
                    &&& r is None
                    &&& final(self).faces() == old(self).faces()
                    &&& final(self).commands() == old(self).commands()
                },
            },
    {
        match FaceState::new(face_data, index, border_texels, texels_per_em_x, texels_per_em_y) {
            Some(face) => {
                let copy = face.duplicate();
                self.bg.add_face(copy);
                self.faces.push(face);
                proof {
                    let all = old(self).sent@ + old(self).bg.commands();
                    lemma_commands_push(Seq::empty(), all, BgCmd::AddFace { face: copy });
                    assert(self.sent@ + self.bg.commands() =~= all.push(
                        BgCmd::AddFace { face: copy },
                    ));
                    assert(self.faces() =~= old(self).faces().push(face@));
                }
                Some(self.faces.len() - 1)
            },
            None => None,
        }
    }

    /// The face with index `i`, for a shaping engine to read; none where
    /// there is no such face.
    pub fn get_face(&self, i: usize) -> (r: Option<&FaceState>)
        requires
            self.wf(),
        ensures
            match r {
                Some(face) => i < self.faces().len() && face@ == self.faces()[i as int]
                    && face@.wf(),
                None => i >= self.faces().len(),
            },
    {
        if i < self.faces.len() {
            Some(&self.faces[i])
        } else {
            None
        }
    }

    /// Every glyph that was pending in `before` and is among the rendered
    /// glyphs `taken` is settled now.
    pub open spec fn has_taken(&self, before: Self, taken: Seq<Rendered>) -> bool {
        all_taken(before.snapshot(), self.snapshot(), taken)
    }

    /// A new glyph of face `face` was dealt with, for atlases of `atlas_w`
    /// by `atlas_h` texels, and `r` is the answer. Where glyphs are rendered
    /// in the background, the glyph is pending, the command to render it is
    /// the last of those that wait, and the answer is nothing. Else a glyph
    /// without outline has resolved to nothing, and any other is still new,
    /// the answer being the job to rasterise, with the plan for that size.
    pub open spec fn dispatched(
        &self,
        before: Self,
        face: usize,
        glyph: u16,
        atlas_w: u32,
        atlas_h: u32,
        r: Lookup<AtlasID, AtlasCoords>,
    ) -> bool {
        if before.in_background() {
            &&& self.commands() == before.commands().push(
                BgCmd::RenderGlyph { face_index: face, glyph_id: glyph, atlas_w, atlas_h },
            )
            &&& self.state(face, glyph) == Some(GlyphStateInCache::<AtlasID, AtlasCoords>::Pending)
            &&& r == Lookup::<AtlasID, AtlasCoords>::Known(None)
        } else {
            &&& self.commands() == before.commands()
            &&& match before.faces()[face as int].plan(glyph, atlas_w, atlas_h) {
                Some(plan) => {
                    &&& self.state(face, glyph) is None
                    &&& r == Lookup::<AtlasID, AtlasCoords>::Render(
                        RenderJob { face_index: face, glyph_id: glyph, plan },
                    )
                },
                None => {
                    &&& self.state(face, glyph) == Some(
                        GlyphStateInCache::<AtlasID, AtlasCoords>::Null,
                    )
                    &&& r == Lookup::<AtlasID, AtlasCoords>::Known(None)
                },
            }
        }
    }

    /// A glyph is planned in one way, whether it is rendered at once or in
    /// the background: the job that a worker with the cache's faces makes of
    /// the command to render the glyph is the job that the cache hands out
    /// where the glyph is rendered at once, for the same atlas size. Both
    /// have a job, or neither.
    pub proof fn lemma_one_plan(
        self,
        before: Self,
        face: usize,
        glyph: u16,
        atlas_w: u32,
        atlas_h: u32,
        r: Lookup<AtlasID, AtlasCoords>,
    )
        requires
            !before.in_background(),
            self.dispatched(before, face, glyph, atlas_w, atlas_h, r),
        ensures
            match Worker::job(
                before.faces(),
                BgCmd::RenderGlyph { face_index: face, glyph_id: glyph, atlas_w, atlas_h },
            ) {
                Some(job) => r == Lookup::<AtlasID, AtlasCoords>::Render(job),
                None => r == Lookup::<AtlasID, AtlasCoords>::Known(None),
            },
    {
    }

    /// The glyph was looked up in a cache that had come to `mid`, and `r` is
    /// the answer. A glyph with a state is answered from it, and nothing
    /// changes. A glyph without one is dealt with as `dispatched` says, for
    /// the atlas size that the handler gave. No other glyph's state and no
    /// atlas changes.
    pub open spec fn answered(
        &self,
        before: Self,
        mid: Snapshot<AtlasID, AtlasCoords>,
        face: usize,
        glyph: u16,
        r: Lookup<AtlasID, AtlasCoords>,
    ) -> bool {
        &&& self.atlases() == mid.atlases
        &&& forall|f: usize, g: u16|
            (f, g) != (face, glyph) ==> #[trigger] self.state(f, g) == state_in(mid.states, f, g)
        &&& match state_in(mid.states, face, glyph) {
            Some(state) => {
                &&& self.state(face, glyph) == Some(state)
                &&& r == Lookup::Known(state.answer())
                &&& self.commands() == before.commands()
            },
            None => exists|atlas_w: u32, atlas_h: u32| #[trigger]
                self.dispatched(before, face, glyph, atlas_w, atlas_h, r),
        }
    }

    /// Puts a glyph that the worker has rendered behind those that wait to
    /// be taken into the cache.
    pub fn deliver(&mut self, rendered: Rendered)
        requires
            old(self).wf(),
        ensures
            final(self).wf(),
            final(self).waiting() == old(self).waiting().push(rendered),
            final(self).faces() == old(self).faces(),
            final(self).atlases() == old(self).atlases(),
            final(self).states() == old(self).states(),
            final(self).commands() == old(self).commands(),
            final(self).sent() == old(self).sent(),
            final(self).in_background() == old(self).in_background(),
    {
        self.bg.deliver(rendered);
    }

    /// Takes the commands that wait, oldest first, to hand them to the
    /// worker.
    pub fn take_commands(&mut self) -> (r: Vec<BgCmd>)
        requires
            old(self).wf(),
        ensures
            final(self).wf(),
            r@ == old(self).commands(),
            final(self).commands() == Seq::<BgCmd>::empty(),
            final(self).sent() == old(self).sent() + old(self).commands(),
            final(self).waiting() == old(self).waiting(),
            final(self).faces() == old(self).faces(),
            final(self).atlases() == old(self).atlases(),
            final(self).states() == old(self).states(),
            final(self).in_background() == old(self).in_background(),
    {
        let taken = self.bg.take_commands();
        self.sent = Ghost(self.sent@ + taken@);
        proof {
            assert(self.sent@ + self.bg.commands() =~= old(self).sent@ + old(self).bg.commands());
        }
        taken
    }

    /// Takes one rendered glyph into the cache, for atlases of `atlas_w` by
    /// `atlas_h` texels. If the glyph is pending, its raster is placed and
    /// uploaded, and the glyph is then present, or resolved to nothing where
    /// the raster cannot be placed or the handler failed; the handler's
    /// error is dropped, as nobody waits for this glyph. A glyph that was
    /// never asked for, or that is settled already, is dropped, and nothing
    /// changes. The result says which of these it was.
    pub fn reconcile_sized<A>(
        &mut self,
        rendered: Rendered,
        atlas_w: u32,
        atlas_h: u32,
        handler: &mut A,
    ) -> (r: Taken) where A: AtlasHandler<AtlasID = AtlasID, AtlasCoords = AtlasCoords>
        requires
            old(self).wf(),
        ensures
            final(self).wf(),
            r == taken_as(
                old(self).state(rendered.face_index, rendered.glyph_id),
                final(self).state(rendered.face_index, rendered.glyph_id),
            ),
            final(self).faces() == old(self).faces(),
            final(self).commands() == old(self).commands(),
            final(self).sent() == old(self).sent(),
            final(self).waiting() == old(self).waiting(),
            final(self).in_background() == old(self).in_background(),
            reconciled(old(self).snapshot(), final(self).snapshot(), rendered, atlas_w, atlas_h),
    {
        let key = key_of(rendered.face_index, rendered.glyph_id);
        match self.glyphs.get(&key) {
            Some(state) => {
                if !state.is_pending() {
                    return Taken::Repeated;
                }
            },
            None => {
                return Taken::Unasked;
            },
        }
        let (state, _) = settle_sized(&mut self.atlases, handler, atlas_w, atlas_h, &rendered);
        let placed = state.get_answer().is_some();
        proof {
            lemma_states_insert(self.glyphs@, rendered.face_index, rendered.glyph_id, state);
        }
        self.glyphs.insert(key, state);
        if placed {
            Taken::Placed
        } else {
            Taken::Failed
        }
    }

    /// Takes one rendered glyph into the cache, as `reconcile_sized` does,
    /// for the atlas size that the handler gives. The handler is asked only
    /// if the glyph is pending.
    pub fn reconcile<A>(&mut self, rendered: Rendered, handler: &mut A) -> (r: Taken) where
        A: AtlasHandler<AtlasID = AtlasID, AtlasCoords = AtlasCoords>,

        requires
            old(self).wf(),
        ensures
            final(self).wf(),
            r == taken_as(
                old(self).state(rendered.face_index, rendered.glyph_id),
                final(self).state(rendered.face_index, rendered.glyph_id),
            ),
            final(self).faces() == old(self).faces(),
            final(self).commands() == old(self).commands(),
            final(self).sent() == old(self).sent(),
            final(self).waiting() == old(self).waiting(),
            final(self).in_background() == old(self).in_background(),
            exists|atlas_w: u32, atlas_h: u32| #[trigger]
                reconciled(
                    old(self).snapshot(),
                    final(self).snapshot(),
                    rendered,
                    atlas_w,
                    atlas_h,
                ),
            old(self).state(rendered.face_index, rendered.glyph_id) != Some(
                GlyphStateInCache::<AtlasID, AtlasCoords>::Pending,
            ) ==> final(self).snapshot() == old(self).snapshot(),
            grown(old(self).atlases(), final(self).atlases()),
    {
        let key = key_of(rendered.face_index, rendered.glyph_id);
        let pending = match self.glyphs.get(&key) {
            Some(state) => state.is_pending(),
            None => false,
        };
        if pending {
            let (atlas_w, atlas_h) = handler.get_atlas_size();
            let r = self.reconcile_sized(rendered, atlas_w, atlas_h, handler);
            proof {
                lemma_reconciled(
                    old(self).snapshot(),
                    self.snapshot(),
                    rendered,
                    atlas_w,
                    atlas_h,
                );
            }
            r
        } else {
            proof {
                assert(reconciled(old(self).snapshot(), self.snapshot(), rendered, 0, 0));
                lemma_same_grown(old(self).atlases(), self.atlases());
            }
            if self.glyphs.get(&key).is_some() {
                Taken::Repeated
            } else {
                Taken::Unasked
            }
        }
    }

    /// Takes every rendered glyph that waits into the cache, oldest first,
    /// each as `reconcile` does. It never waits for the worker.
    pub fn drain<A>(&mut self, handler: &mut A) where
        A: AtlasHandler<AtlasID = AtlasID, AtlasCoords = AtlasCoords>,

        requires
            old(self).wf(),
        ensures
            final(self).wf(),
            final(self).faces() == old(self).faces(),
            final(self).commands() == old(self).commands(),
            final(self).sent() == old(self).sent(),
            final(self).in_background() == old(self).in_background(),
            final(self).waiting() == Seq::<Rendered>::empty(),
            drained(old(self).snapshot(), final(self).snapshot(), old(self).waiting()),
    {
        let ghost mut n: int = 0;
        loop
            invariant
                self.wf(),
                self.faces() == old(self).faces(),
                self.commands() == old(self).commands(),
                self.sent() == old(self).sent(),
                self.in_background() == old(self).in_background(),
                0 <= n <= old(self).waiting().len(),
                self.waiting() == old(self).waiting().skip(n),
                drained(old(self).snapshot(), self.snapshot(), old(self).waiting().take(n)),
            ensures
                n == old(self).waiting().len(),
            decreases self.waiting().len(),
        {
            let ghost before = self.snapshot();
            match self.bg.next_rendered_glyph() {
                Some(rendered) => {
                    let _ = self.reconcile(rendered, handler);
                    proof {
                        let taken = old(self).waiting().take(n + 1);
                        let (atlas_w, atlas_h) = choose|atlas_w: u32, atlas_h: u32| #[trigger]
                            reconciled(before, self.snapshot(), rendered, atlas_w, atlas_h);
                        assert(taken.drop_last() =~= old(self).waiting().take(n));
                        assert(taken.last() == rendered);
                        assert(drained(old(self).snapshot(), before, taken.drop_last())
                            && reconciled(
                            before,
                            self.snapshot(),
                            taken.last(),
                            atlas_w,
                            atlas_h,
                        ));
                        assert(self.waiting() =~= old(self).waiting().skip(n + 1));
                        n = n + 1;
                    }
                },
                None => {
                    break ;
                },
            }
        }
        proof {
            assert(old(self).waiting().take(n) =~= old(self).waiting());
            assert(self.waiting() =~= Seq::<Rendered>::empty());
        }
    }

    /// Deals with a glyph that has no state yet, for atlases of `atlas_w` by
    /// `atlas_h` texels. Where glyphs are rendered in the background, the
    /// glyph is queued for the worker and pending from now on, and the
    /// answer is nothing. Where they are rendered at once: a glyph without
    /// outline resolves to nothing for good; for any other the result is the
    /// job to rasterise, and the glyph stays new until `put_glyph` brings the
    /// raster.
    pub fn dispatch(&mut self, face: usize, glyph: u16, atlas_w: u32, atlas_h: u32) -> (r: Lookup<
        AtlasID,
        AtlasCoords,
    >)
        requires
            old(self).wf(),
            face < old(self).faces().len(),
            old(self).state(face, glyph) is None,
        ensures
            final(self).wf(),
            final(self).faces() == old(self).faces(),
            final(self).atlases() == old(self).atlases(),
            final(self).sent() == old(self).sent(),
            final(self).waiting() == old(self).waiting(),
            final(self).in_background() == old(self).in_background(),
            forall|f: usize, g: u16|
                (f, g) != (face, glyph) ==> #[trigger] final(self).state(f, g) == old(self).state(
                    f,
                    g,
                ),
            final(self).dispatched(*old(self), face, glyph, atlas_w, atlas_h, r),
    {
        let key = key_of(face, glyph);
        if self.render_in_bg {
            self.bg.render_glyph(face, glyph, atlas_w, atlas_h);
            proof {
                lemma_states_insert(
                    self.glyphs@,
                    face,
                    glyph,
                    GlyphStateInCache::<AtlasID, AtlasCoords>::Pending,
                );
                let all = old(self).sent@ + old(self).bg.commands();
                let cmd = BgCmd::RenderGlyph { face_index: face, glyph_id: glyph, atlas_w, atlas_h };
                lemma_commands_push(Seq::empty(), all, cmd);
                assert(self.sent@ + self.bg.commands() =~= all.push(cmd));
            }
            self.glyphs.insert(key, GlyphStateInCache::Pending);
            Lookup::Known(None)
        } else {
            assert(self.faces()[face as int] == self.faces@[face as int]@);
            match self.faces[face].render_glyph(glyph, atlas_w, atlas_h) {
                Some(plan) => Lookup::Render(RenderJob { face_index: face, glyph_id: glyph, plan }),
                None => {
                    proof {
                        lemma_states_insert(
                            self.glyphs@,
                            face,
                            glyph,
                            GlyphStateInCache::<AtlasID, AtlasCoords>::Null,
                        );
                    }
                    self.glyphs.insert(key, GlyphStateInCache::Null);
                    Lookup::Known(None)
                },
            }
        }
    }

    /// Resolves a glyph.
    ///
    /// First every rendered glyph that waits is taken into the cache, as
    /// `drain` does. Then the glyph is looked up. If it was asked for
    /// before, the cache answers with its place, or with nothing while it is
    /// pending or if it resolved to nothing; a pending glyph stays pending
    /// and is not queued again. If it is new, the handler is asked for the
    /// atlas size and the glyph is dealt with as `dispatch` does.
    pub fn get_glyph<A>(&mut self, face: usize, glyph: u16, handler: &mut A) -> (r: Lookup<
        AtlasID,
        AtlasCoords,
    >) where A: AtlasHandler<AtlasID = AtlasID, AtlasCoords = AtlasCoords>
        requires
            old(self).wf(),
            face < old(self).faces().len(),
        ensures
            final(self).wf(),
            final(self).faces() == old(self).faces(),
            final(self).in_background() == old(self).in_background(),
            final(self).sent() == old(self).sent(),
            final(self).waiting() == Seq::<Rendered>::empty(),
            exists|mid: Snapshot<AtlasID, AtlasCoords>|
                drained(old(self).snapshot(), mid, old(self).waiting())
                    && #[trigger] final(self).answered(*old(self), mid, face, glyph, r),
            final(self).has_taken(*old(self), old(self).waiting()),
            grown(old(self).atlases(), final(self).atlases()),
            forall|f: usize, g: u16|
                (f, g) != (face, glyph) ==> step(
                    old(self).state(f, g),
                    #[trigger] final(self).state(f, g),
                ),
            forall|f: usize, g: u16|
                (f, g) != (face, glyph) && !awaited(old(self).waiting(), f, g)
                    ==> #[trigger] final(self).state(f, g) == old(self).state(f, g),
            forall|f: usize, g: u16|
                old(self).state(f, g) == Some(GlyphStateInCache::<AtlasID, AtlasCoords>::Pending)
                    && !awaited(old(self).waiting(), f, g) ==> #[trigger] final(self).state(f, g)
                    == old(self).state(f, g),
            old(self).waiting().len() == 0 ==> final(self).atlases() == old(self).atlases(),
            old(self).state(face, glyph) matches Some(before) ==> before.settled() ==> {
                &&& final(self).state(face, glyph) == Some(before)
                &&& r == Lookup::Known(before.answer())
            },
            match old(self).state(face, glyph) {
                Some(before) => {
                    &&& step(Some(before), final(self).state(face, glyph))
                    &&& r == Lookup::Known(final(self).state(face, glyph).unwrap().answer())
                    &&& final(self).commands() == old(self).commands()
                },
                None => exists|atlas_w: u32, atlas_h: u32| #[trigger]
                    final(self).dispatched(*old(self), face, glyph, atlas_w, atlas_h, r),
            },
    {
        self.drain(handler);
        let ghost mid = *self;
        proof {
            lemma_drained(old(self).snapshot(), mid.snapshot(), old(self).waiting());
            assert(step(old(self).state(face, glyph), mid.state(face, glyph)));
        }
        let key = key_of(face, glyph);
        match self.glyphs.get(&key) {
            Some(state) => {
                let r = Lookup::Known(state.get_answer());
                proof {
                    assert(self.answered(*old(self), mid.snapshot(), face, glyph, r));
                }
                return r;
            },
            None => {},
        }
        let (atlas_w, atlas_h) = handler.get_atlas_size();
        let r = self.dispatch(face, glyph, atlas_w, atlas_h);
        proof {
            assert(self.dispatched(*old(self), face, glyph, atlas_w, atlas_h, r));
            assert(self.answered(*old(self), mid.snapshot(), face, glyph, r));
            assert forall|f: usize, g: u16| (f, g) != (face, glyph) implies step(
                old(self).state(f, g),
                #[trigger] self.state(f, g),
            ) by {
                assert(step(old(self).state(f, g), mid.state(f, g)));
            }
            assert forall|i: int| 0 <= i < old(self).waiting().len() implies {
                let t = #[trigger] old(self).waiting()[i];
                old(self).state(t.face_index, t.glyph_id) == Some(
                    GlyphStateInCache::<AtlasID, AtlasCoords>::Pending,
                ) ==> self.state(t.face_index, t.glyph_id) is Some && self.state(
                    t.face_index,
                    t.glyph_id,
                ).unwrap().settled()
            } by {
                let t = old(self).waiting()[i];
                if (t.face_index, t.glyph_id) != (face, glyph) {
                    assert(self.state(t.face_index, t.glyph_id) == mid.state(
                        t.face_index,
                        t.glyph_id,
                    ));
                }
            }
        }
        r
    }

    /// Brings the raster of a glyph that `get_glyph` asked to have rendered
    /// now, for atlases of `atlas_w` by `atlas_h` texels. If the glyph is
    /// still new, its raster is placed and uploaded: the glyph is then
    /// present, and the result is its place; or it resolved to nothing, and
    /// the result is the handler's error where the handler failed, and
    /// nothing where the raster cannot be placed at all. Either way the
    /// glyph is settled for good. If the glyph has a state already, that
    /// state answers and nothing changes.
    pub fn put_glyph_sized<A>(
        &mut self,
        rendered: Rendered,
        atlas_w: u32,
        atlas_h: u32,
        handler: &mut A,
    ) -> (r: Result<Option<(AtlasID, AtlasCoords)>, A::E>) where
        A: AtlasHandler<AtlasID = AtlasID, AtlasCoords = AtlasCoords>,

        requires
            old(self).wf(),
        ensures
            final(self).wf(),
            final(self).faces() == old(self).faces(),
            final(self).commands() == old(self).commands(),
            final(self).sent() == old(self).sent(),
            final(self).waiting() == old(self).waiting(),
            final(self).in_background() == old(self).in_background(),
            match old(self).state(rendered.face_index, rendered.glyph_id) {
                Some(before) => {
                    &&& final(self).snapshot() == old(self).snapshot()
                    &&& r == Ok::<Option<(AtlasID, AtlasCoords)>, A::E>(before.answer())
                },
                None => {
                    let key = (rendered.face_index, rendered.glyph_id);
                    &&& final(self).states().contains_key(key)
                    &&& final(self).states() == old(self).states().insert(
                        key,
                        final(self).states()[key],
                    )
                    &&& match r {
                        Ok(answer) => answer == final(self).states()[key].answer() && settled_well(
                            old(self).atlases(),
                            final(self).atlases(),
                            rendered,
                            atlas_w,
                            atlas_h,
                            final(self).states()[key],
                        ),
                        Err(_) => settled_badly(
                            old(self).atlases(),
                            final(self).atlases(),
                            rendered,
                            atlas_w,
                            atlas_h,
                            final(self).states()[key],
                        ),
                    }
                },
            },
    {
        let key = key_of(rendered.face_index, rendered.glyph_id);
        match self.glyphs.get(&key) {
            Some(state) => {
                return Ok(state.get_answer());
            },
            None => {},
        }
        let (state, error) = settle_sized(&mut self.atlases, handler, atlas_w, atlas_h, &rendered);
        let answer = state.get_answer();
        proof {
            lemma_states_insert(self.glyphs@, rendered.face_index, rendered.glyph_id, state);
        }
        self.glyphs.insert(key, state);
        match error {
            Some(e) => Err(e),
            None => Ok(answer),
        }
    }

    /// Brings the raster of a glyph that `get_glyph` asked to have rendered
    /// now, as `put_glyph_sized` does, for the atlas size that the handler
    /// gives. The handler is asked only if the glyph is still new. A
    /// handler's error is returned, and the glyph has resolved to nothing.
    pub fn put_glyph<A>(&mut self, rendered: Rendered, handler: &mut A) -> (r: Result<
        Option<(AtlasID, AtlasCoords)>,
        A::E,
    >) where A: AtlasHandler<AtlasID = AtlasID, AtlasCoords = AtlasCoords>
        requires
            old(self).wf(),
        ensures
            final(self).wf(),
            final(self).faces() == old(self).faces(),
            final(self).commands() == old(self).commands(),
            final(self).sent() == old(self).sent(),
            final(self).waiting() == old(self).waiting(),
            final(self).in_background() == old(self).in_background(),
            grown(old(self).atlases(), final(self).atlases()),
            match old(self).state(rendered.face_index, rendered.glyph_id) {
                Some(before) => {
                    &&& final(self).snapshot() == old(self).snapshot()
                    &&& r == Ok::<Option<(AtlasID, AtlasCoords)>, A::E>(before.answer())
                },
                None => {
                    let key = (rendered.face_index, rendered.glyph_id);
                    &&& final(self).states().contains_key(key)
                    &&& final(self).states() == old(self).states().insert(
                        key,
                        final(self).states()[key],
                    )
                    &&& final(self).states()[key].settled()
                    &&& match r {
                        Ok(answer) => answer == final(self).states()[key].answer() && exists|
                            atlas_w: u32,
                            atlas_h: u32,
                        | #[trigger]
                            settled_well(
                                old(self).atlases(),
                                final(self).atlases(),
                                rendered,
                                atlas_w,
                                atlas_h,
                                final(self).states()[key],
                            ),
                        Err(_) => final(self).states()[key] is Null && exists|
                            atlas_w: u32,
                            atlas_h: u32,
                        | #[trigger]
                            settled_badly(
                                old(self).atlases(),
                                final(self).atlases(),
                                rendered,
                                atlas_w,
                                atlas_h,
                                final(self).states()[key],
                            ),
                    }
                },
            },
    {
        let key = key_of(rendered.face_index, rendered.glyph_id);
        match self.glyphs.get(&key) {
            Some(state) => {
                proof {
                    lemma_same_grown(old(self).atlases(), self.atlases());
                }
                return Ok(state.get_answer());
            },
            None => {},
        }
        let (atlas_w, atlas_h) = handler.get_atlas_size();
        let r = self.put_glyph_sized(rendered, atlas_w, atlas_h, handler);
        proof {
            lemma_settled_grown(
                old(self).atlases(),
                self.atlases(),
                rendered,
                atlas_w,
                atlas_h,
                self.states()[(rendered.face_index, rendered.glyph_id)],
            );
        }
        r
    }
}

} // verus!
