//! Rendering in the background.
//!
//! One worker renders glyphs off the thread that owns the cache. The two
//! sides share nothing but two queues: commands go to the worker in the order
//! they were given, rendered glyphs come back in the order they were
//! finished. This file holds both ends: the `Renderer` is the cache's end of
//! the queues, the `Worker` is what the worker knows and decides. Moving the
//! queues' contents between threads, and rasterising, is the embedder's part.

use crate::face::{FaceState, FaceView};
use crate::geometry::{GlyphPlan, RenderBounds};
use std::collections::VecDeque;
use vstd::prelude::*;

verus! {

/// A command to the worker.
pub enum BgCmd {
    /// A face was added to the cache: the worker gets its own handle to it,
    /// under the same index.
    AddFace { face: FaceState },
    /// Render a glyph for atlases of the given size.
    RenderGlyph { face_index: usize, glyph_id: u16, atlas_w: u32, atlas_h: u32 },
}

/// The faces that a worker knows once it has carried out `cmds` in order,
/// if it knew `faces` before.
pub open spec fn faces_after(faces: Seq<FaceView>, cmds: Seq<BgCmd>) -> Seq<FaceView>
    decreases cmds.len(),
{
    if cmds.len() == 0 {
        faces
    } else {
        let known = faces_after(faces, cmds.drop_last());
        match cmds.last() {
            BgCmd::AddFace { face } => known.push(face@),
            BgCmd::RenderGlyph { .. } => known,
        }
    }
}

/// A worker that knows `faces` can carry out `cmds` in order: every face
/// that is added is one that its font file holds, and every glyph to render
/// is of a face that is known by then.
pub open spec fn runnable(faces: Seq<FaceView>, cmds: Seq<BgCmd>) -> bool
    decreases cmds.len(),
{
    cmds.len() == 0 || {
        &&& runnable(faces, cmds.drop_last())
        &&& match cmds.last() {
            BgCmd::AddFace { face } => face@.wf(),
            BgCmd::RenderGlyph { face_index, .. } => face_index < faces_after(
                faces,
                cmds.drop_last(),
            ).len(),
        }
    }
}

/// Commands can be carried out in two batches: `a` and `b` in a row do what
/// `a` does and then `b`.
pub proof fn lemma_commands_split(faces: Seq<FaceView>, a: Seq<BgCmd>, b: Seq<BgCmd>)
    ensures
        faces_after(faces, a + b) == faces_after(faces_after(faces, a), b),
        runnable(faces, a + b) == (runnable(faces, a) && runnable(faces_after(faces, a), b)),
    decreases b.len(),
{
    if b.len() == 0 {
        assert(a + b =~= a);
    } else {
        assert((a + b).drop_last() =~= a + b.drop_last());
        lemma_commands_split(faces, a, b.drop_last());
    }
}

/// One more command: what `cmds` and then `cmd` come to.
pub proof fn lemma_commands_push(faces: Seq<FaceView>, cmds: Seq<BgCmd>, cmd: BgCmd)
    ensures
        faces_after(faces, cmds.push(cmd)) == match cmd {
            BgCmd::AddFace { face } => faces_after(faces, cmds).push(face@),
            BgCmd::RenderGlyph { .. } => faces_after(faces, cmds),
        },
        runnable(faces, cmds.push(cmd)) == (runnable(faces, cmds) && match cmd {
            BgCmd::AddFace { face } => face@.wf(),
            BgCmd::RenderGlyph { face_index, .. } => face_index < faces_after(faces, cmds).len(),
        }),
{
    assert(cmds.push(cmd).drop_last() =~= cmds);
}

/// A glyph that has a plan and waits for its raster.
#[derive(Clone, Copy, Debug, PartialEq, Eq, Structural)]
pub struct RenderJob {
    pub face_index: usize,
    pub glyph_id: u16,
    pub plan: GlyphPlan,
}

/// A rendered glyph: its key, the quad it is drawn on, and its raster of
/// `width` by `height` texels, three bytes a texel.
pub struct Rendered {
    pub face_index: usize,
    pub glyph_id: u16,
    pub render: RenderBounds,
    pub width: u32,
    pub height: u32,
    pub bitmap: Vec<u8>,
}

impl RenderJob {
    /// The job with its raster.
    pub fn rendered(self, bitmap: Vec<u8>) -> (r: Rendered)
        ensures
            r.face_index == self.face_index,
            r.glyph_id == self.glyph_id,
            r.render == self.plan.spec_render_bounds(),
            r.width == self.plan.x.extent,
            r.height == self.plan.y.extent,
            r.bitmap == bitmap,
    {
        Rendered {
            face_index: self.face_index,
            glyph_id: self.glyph_id,
            render: self.plan.render_bounds(),
            width: self.plan.x.extent,
            height: self.plan.y.extent,
            bitmap,
        }
    }
}

impl Rendered {
    /// The raster has three bytes for each texel.
    pub open spec fn whole(&self) -> bool {
        self.bitmap@.len() == 3 * (self.width * self.height)
    }

    /// Whether the raster has three bytes for each texel.
    pub fn is_whole(&self) -> (r: bool)
        ensures
            r == self.whole(),
    {
        assert(self.width * self.height <= 0xffff_ffff * 0xffff_ffff) by (nonlinear_arith)
            requires
                self.width <= 0xffff_ffff,
                self.height <= 0xffff_ffff,
        ;
        let texels: u64 = self.width as u64 * self.height as u64;
        self.bitmap.len() as u128 == 3 * (texels as u128)
    }
}

/// The cache's end of the two queues.
pub struct Renderer {
    commands: Vec<BgCmd>,
    glyphs: VecDeque<Rendered>,
}

impl Renderer {
    /// The commands that wait to be handed to the worker, oldest first.
    pub closed spec fn commands(&self) -> Seq<BgCmd> {
        self.commands@
    }

    /// The rendered glyphs that wait to be taken into the cache, oldest
    /// first.
    pub closed spec fn glyphs(&self) -> Seq<Rendered> {
        self.glyphs@
    }

    /// Both queues empty.
    pub fn new() -> (r: Renderer)
        ensures
            r.commands() == Seq::<BgCmd>::empty(),
            r.glyphs() == Seq::<Rendered>::empty(),
    {
        Renderer { commands: Vec::new(), glyphs: VecDeque::new() }
    }

    /// Queues a face for the worker.
    pub fn add_face(&mut self, face: FaceState)
        ensures
            final(self).commands() == old(self).commands().push(BgCmd::AddFace { face }),
            final(self).glyphs() == old(self).glyphs(),
    {
        self.commands.push(BgCmd::AddFace { face });
    }

    /// Queues a glyph to be rendered.
    pub fn render_glyph(&mut self, face_index: usize, glyph_id: u16, atlas_w: u32, atlas_h: u32)
        ensures
            final(self).commands() == old(self).commands().push(
                BgCmd::RenderGlyph { face_index, glyph_id, atlas_w, atlas_h },
            ),
            final(self).glyphs() == old(self).glyphs(),
    {
        self.commands.push(BgCmd::RenderGlyph { face_index, glyph_id, atlas_w, atlas_h });
    }

    /// The oldest rendered glyph that waits, if any. It never waits for the
    /// worker.
    pub fn next_rendered_glyph(&mut self) -> (r: Option<Rendered>)
        ensures
            final(self).commands() == old(self).commands(),
            match r {
                Some(rendered) => old(self).glyphs().len() > 0 && rendered == old(
                    self,
                ).glyphs().first() && final(self).glyphs() == old(self).glyphs().drop_first(),
                None => old(self).glyphs().len() == 0 && final(self).glyphs() == old(
                    self,
                ).glyphs(),
            },
    {
        let r = self.glyphs.pop_front();
        proof {
            if r is Some {
                assert(self.glyphs@ =~= old(self).glyphs@.drop_first());
            }
        }
        r
    }

    /// Takes the commands that wait, oldest first, to hand them to the
    /// worker.
    pub fn take_commands(&mut self) -> (r: Vec<BgCmd>)
        ensures
            r@ == old(self).commands(),
            final(self).commands() == Seq::<BgCmd>::empty(),
            final(self).glyphs() == old(self).glyphs(),
    {
        let mut taken: Vec<BgCmd> = Vec::new();
        std::mem::swap(&mut self.commands, &mut taken);
        taken
    }

    /// Puts a glyph that the worker has rendered behind those that wait.
    pub fn deliver(&mut self, rendered: Rendered)
        ensures
            final(self).commands() == old(self).commands(),
            final(self).glyphs() == old(self).glyphs().push(rendered),
    {
        self.glyphs.push_back(rendered);
    }
}

/// What the worker holds: its own handles to the faces, under the indices
/// that the cache knows them by.
pub struct Worker {
    faces: Vec<FaceState>,
}

impl Worker {
    /// The faces that the worker knows, by index.
    pub closed spec fn faces(&self) -> Seq<FaceView> {
        self.faces@.map_values(|f: FaceState| f@)
    }

    /// Every face is one that its font file holds.
    pub open spec fn wf(&self) -> bool {
        forall|i: int| 0 <= i < self.faces().len() ==> (#[trigger] self.faces()[i]).wf()
    }

    /// A worker that knows no face.
    pub fn new() -> (r: Worker)
        ensures
            r.faces() == Seq::<FaceView>::empty(),
            r.wf(),
    {
        let r = Worker { faces: Vec::new() };
        assert(r.faces() =~= Seq::<FaceView>::empty());
        r
    }

    /// How many faces the worker knows.
    pub fn face_count(&self) -> (r: usize)
        ensures
            r == self.faces().len(),
    {
        self.faces.len()
    }

    /// The face with index `i`, if the worker knows it.
    pub fn get_face(&self, i: usize) -> (r: Option<&FaceState>)
        ensures
            match r {
                Some(face) => i < self.faces().len() && face@ == self.faces()[i as int],
                None => i >= self.faces().len(),
            },
    {
        if i < self.faces.len() {
            Some(&self.faces[i])
        } else {
            None
        }
    }

    /// What `cmd` does to a worker that knows `faces`: the job to rasterise,
    /// if the command is a glyph that has an outline.
    pub open spec fn job(faces: Seq<FaceView>, cmd: BgCmd) -> Option<RenderJob> {
        match cmd {
            BgCmd::AddFace { .. } => None,
            BgCmd::RenderGlyph { face_index, glyph_id, atlas_w, atlas_h } => match faces[face_index as int].plan(
                glyph_id,
                atlas_w,
                atlas_h,
            ) {
                Some(plan) => Some(RenderJob { face_index, glyph_id, plan }),
                None => None,
            },
        }
    }

    /// Carries out one command. A face is appended to those known. A glyph
    /// is planned: the job is returned to be rasterised, or nothing where the
    /// glyph has no outline. Nothing goes back to the cache for such a glyph:
    /// it stays pending there, which answers as resolved to nothing does.
    /// The face of a glyph to render must be known.
    pub fn run(&mut self, cmd: BgCmd) -> (r: Option<RenderJob>)
        requires
            old(self).wf(),
            cmd matches BgCmd::AddFace { face } ==> face@.wf(),
            cmd matches BgCmd::RenderGlyph { face_index, .. } ==> face_index < old(
                self,
            ).faces().len(),
        ensures
            final(self).wf(),
            r == Self::job(old(self).faces(), cmd),
            final(self).faces() == faces_after(old(self).faces(), seq![cmd]),
            final(self).faces() == match cmd {
                BgCmd::AddFace { face } => old(self).faces().push(face@),
                BgCmd::RenderGlyph { .. } => old(self).faces(),
            },
    {
        proof {
            lemma_commands_push(old(self).faces(), Seq::empty(), cmd);
        }
        match cmd {
            BgCmd::AddFace { face } => {
                self.faces.push(face);
                proof {
                    assert(self.faces() =~= old(self).faces().push(face@));
                }
                None
            },
            BgCmd::RenderGlyph { face_index, glyph_id, atlas_w, atlas_h } => {
                assert(self.faces()[face_index as int] == self.faces@[face_index as int]@);
                match self.faces[face_index].render_glyph(glyph_id, atlas_w, atlas_h) {
                    Some(plan) => Some(RenderJob { face_index, glyph_id, plan }),
                    None => None,
                }
            },
        }
    }
}

} // verus!
