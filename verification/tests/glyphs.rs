use psilo_text::atlas::{AtlasState, Rect};
use psilo_text::bg::{BgCmd, RenderJob, Rendered, Renderer, Worker};
use psilo_text::cache::{is_placeable, outcome_state, GlyphStateInCache};
use psilo_text::face::FaceState;
use psilo_text::geometry::{plan_glyph, GlyphBounds, RenderBounds};
use psilo_text::{AtlasHandler, Lookup, Taken, TextHandler};
use std::sync::Arc;

fn put16(v: &mut Vec<u8>, x: u16) {
    v.push((x >> 8) as u8);
    v.push((x & 0xff) as u8);
}

fn put32(v: &mut Vec<u8>, x: u32) {
    put16(v, (x >> 16) as u16);
    put16(v, (x & 0xffff) as u16);
}

/// A glyph with one contour: the rectangle with the given corners.
fn rectangle_glyph(x_min: i16, y_min: i16, x_max: i16, y_max: i16) -> Vec<u8> {
    let mut g = Vec::new();
    put16(&mut g, 1);
    for c in [x_min, y_min, x_max, y_max] {
        put16(&mut g, c as u16);
    }
    put16(&mut g, 3);
    put16(&mut g, 0);
    for _ in 0..4 {
        g.push(0x01);
    }
    for dx in [x_min, x_max - x_min, 0, x_min - x_max] {
        put16(&mut g, dx as u16);
    }
    for dy in [y_min, 0, y_max - y_min, 0] {
        put16(&mut g, dy as u16);
    }
    g
}

/// A TrueType file with 1000 units per em and four glyphs: glyph 0 has no
/// outline, glyph 1 is the box (100, 0)..(600, 700), glyph 2 the box
/// (0, 0)..(1000, 1000), glyph 3 the box (0, 0)..(250, 125).
fn font() -> Vec<u8> {
    font_with(None)
}

/// A substitution table with one lookup whose coverage holds one range,
/// from `start` to `end`.
fn gsub(start: u16, end: u16) -> Vec<u8> {
    let mut t = Vec::new();
    // header: version 1.0, script list at 10, feature list at 12, lookup list at 14
    for x in [1u16, 0, 10, 12, 14] {
        put16(&mut t, x);
    }
    put16(&mut t, 0);
    put16(&mut t, 0);
    // lookup list: one lookup, at 4
    for x in [1u16, 4] {
        put16(&mut t, x);
    }
    // lookup: single substitution, no flags, one subtable, at 8
    for x in [1u16, 0, 1, 8] {
        put16(&mut t, x);
    }
    // single substitution, format 1: coverage at 6, delta 1
    for x in [1u16, 6, 1] {
        put16(&mut t, x);
    }
    // coverage, format 2: one range
    for x in [2u16, 1, start, end, 0] {
        put16(&mut t, x);
    }
    t
}

fn font_with(extra: Option<Vec<u8>>) -> Vec<u8> {
    let glyphs = [
        Vec::new(),
        rectangle_glyph(100, 0, 600, 700),
        rectangle_glyph(0, 0, 1000, 1000),
        rectangle_glyph(0, 0, 250, 125),
    ];
    let mut glyf = Vec::new();
    let mut loca = Vec::new();
    for g in glyphs.iter() {
        put16(&mut loca, (glyf.len() / 2) as u16);
        glyf.extend_from_slice(g);
    }
    put16(&mut loca, (glyf.len() / 2) as u16);

    let mut head = Vec::new();
    put32(&mut head, 0x0001_0000);
    put32(&mut head, 0x0001_0000);
    put32(&mut head, 0);
    put32(&mut head, 0x5f0f_3cf5);
    put16(&mut head, 0);
    put16(&mut head, 1000);
    for _ in 0..16 {
        head.push(0);
    }
    for c in [0u16, 0, 1000, 1000] {
        put16(&mut head, c);
    }
    put16(&mut head, 0);
    put16(&mut head, 8);
    put16(&mut head, 2);
    put16(&mut head, 0);
    put16(&mut head, 0);

    let mut hhea = Vec::new();
    put32(&mut hhea, 0x0001_0000);
    put16(&mut hhea, 800);
    put16(&mut hhea, (-200i16) as u16);
    put16(&mut hhea, 0);
    for _ in 0..24 {
        hhea.push(0);
    }
    put16(&mut hhea, 0);

    let mut maxp = Vec::new();
    put32(&mut maxp, 0x0000_5000);
    put16(&mut maxp, 4);

    let mut tables: Vec<(&[u8; 4], Vec<u8>)> = Vec::new();
    if let Some(table) = extra {
        tables.push((b"GSUB", table));
    }
    tables.push((b"glyf", glyf));
    tables.push((b"head", head));
    tables.push((b"hhea", hhea));
    tables.push((b"loca", loca));
    tables.push((b"maxp", maxp));
    let mut file = Vec::new();
    put32(&mut file, 0x0001_0000);
    put16(&mut file, tables.len() as u16);
    put16(&mut file, 64);
    put16(&mut file, 2);
    put16(&mut file, 16);
    let mut offset = 12 + 16 * tables.len();
    for (tag, data) in tables.iter() {
        file.extend_from_slice(&tag[..]);
        put32(&mut file, 0);
        put32(&mut file, offset as u32);
        put32(&mut file, data.len() as u32);
        offset += (data.len() + 3) / 4 * 4;
    }
    for (_, data) in tables.iter() {
        file.extend_from_slice(data);
        while file.len() % 4 != 0 {
            file.push(0);
        }
    }
    file
}

#[derive(Clone, Debug, PartialEq)]
struct Upload {
    atlas: u32,
    render: RenderBounds,
    rect: Rect,
    pixels: Vec<u8>,
}

/// A backend that counts its calls and keeps what it was given.
struct Stub {
    size: (u32, u32),
    made: u32,
    refuse_atlases: bool,
    refuse_uploads: bool,
    new_atlas_calls: u32,
    uploads: Vec<Upload>,
}

impl Stub {
    fn new(w: u32, h: u32) -> Stub {
        Stub {
            size: (w, h),
            made: 0,
            refuse_atlases: false,
            refuse_uploads: false,
            new_atlas_calls: 0,
            uploads: Vec::new(),
        }
    }
}

impl AtlasHandler for Stub {
    type AtlasID = u32;
    type AtlasCoords = usize;
    type E = String;

    fn new_atlas(&mut self) -> Result<u32, String> {
        self.new_atlas_calls += 1;
        if self.refuse_atlases {
            return Err("no atlas".to_string());
        }
        self.made += 1;
        Ok(100 + self.made)
    }

    fn get_atlas_size(&mut self) -> (u32, u32) {
        self.size
    }

    fn add_to_atlas(
        &mut self,
        target_atlas: u32,
        render: RenderBounds,
        glyph_x: u32,
        glyph_y: u32,
        glyph_width: u32,
        glyph_height: u32,
        glyph_pixels: &[u8],
    ) -> Result<usize, String> {
        if self.refuse_uploads {
            return Err("no upload".to_string());
        }
        self.uploads.push(Upload {
            atlas: target_atlas,
            render,
            rect: Rect { x: glyph_x, y: glyph_y, w: glyph_width, h: glyph_height },
            pixels: glyph_pixels.to_vec(),
        });
        Ok(self.uploads.len() - 1)
    }
}

type Cache = TextHandler<u32, usize>;

/// Stands in for the rasteriser: a raster of the right size whose bytes
/// depend on the glyph.
fn raster(job: &RenderJob) -> Rendered {
    let n = 3 * job.plan.x.extent as usize * job.plan.y.extent as usize;
    let bitmap = (0..n).map(|i| (i as u16 * 7 + job.glyph_id) as u8).collect();
    job.rendered(bitmap)
}

/// A cache with the test font as face 0, border 4.0 and 64 texels per em.
fn cache(background: bool) -> Cache {
    let mut cache = Cache::new();
    cache.set_render_in_background(background);
    assert_eq!(cache.add_face(Arc::new(font()), 0, 256, 4096, 4096), Some(0));
    cache
}

/// Asks for a glyph the way an embedder without worker does.
fn resolve(cache: &mut Cache, glyph: u16, stub: &mut Stub) -> Result<Option<(u32, usize)>, String> {
    match cache.get_glyph(0, glyph, stub) {
        Lookup::Known(answer) => Ok(answer),
        Lookup::Render(job) => cache.put_glyph(raster(&job), stub),
    }
}

fn overlap(a: &Rect, b: &Rect) -> bool {
    a.x < b.x + b.w && b.x < a.x + a.w && a.y < b.y + b.h && b.y < a.y + a.h
}

#[test]
fn face_state_reads_the_font() {
    let face = FaceState::new(Arc::new(font()), 0, 256, 4096, 4096).unwrap();
    assert_eq!(face.index(), 0);
    assert_eq!(face.data(), &font()[..]);
    let plan = face.render_glyph(1, 1024, 1024).unwrap();
    assert_eq!(
        plan,
        plan_glyph(
            GlyphBounds { x_min: 100, y_min: 0, x_max: 600, y_max: 700 },
            1000,
            256,
            4096,
            4096,
            1024,
            1024
        )
    );
    assert_eq!((plan.x.extent, plan.y.extent), (36, 49));
    let small = face.render_glyph(3, 1024, 1024).unwrap();
    // ceil(250 * 64 / 1000 + 4) = 20, ceil(125 * 64 / 1000 + 4) = 12
    assert_eq!((small.x.extent, small.y.extent), (20, 12));
}

#[test]
fn face_state_duplicate_is_the_same_face() {
    let face = FaceState::new(Arc::new(font()), 0, 128, 2048, 4096).unwrap();
    let copy = face.duplicate();
    assert_eq!(copy.index(), face.index());
    assert_eq!(copy.data(), face.data());
    assert_eq!(copy.render_glyph(1, 512, 512), face.render_glyph(1, 512, 512));
}

#[test]
fn glyph_without_outline_has_no_plan() {
    let face = FaceState::new(Arc::new(font()), 0, 256, 4096, 4096).unwrap();
    assert_eq!(face.render_glyph(0, 1024, 1024), None);
    assert_eq!(face.render_glyph(4, 1024, 1024), None);
    assert_eq!(face.render_glyph(u16::MAX, 1024, 1024), None);
}

#[test]
fn bad_font_is_refused() {
    assert!(FaceState::new(Arc::new(Vec::new()), 0, 256, 4096, 4096).is_none());
    assert!(FaceState::new(Arc::new(vec![1, 2, 3, 4, 5, 6, 7, 8]), 0, 256, 4096, 4096).is_none());
    // a file that is no collection holds face 0 only
    assert!(FaceState::new(Arc::new(font()), 1, 256, 4096, 4096).is_none());
    let mut cut = font();
    cut.truncate(100);
    assert!(FaceState::new(Arc::new(cut), 0, 256, 4096, 4096).is_none());
}

#[test]
fn add_face_counts_up_and_refuses_bad_fonts() {
    let mut cache = Cache::new();
    assert_eq!(cache.face_count(), 0);
    assert!(cache.get_face(0).is_none());
    assert_eq!(cache.add_face(Arc::new(font()), 0, 256, 4096, 4096), Some(0));
    assert_eq!(cache.add_face(Arc::new(vec![0; 64]), 0, 256, 4096, 4096), None);
    assert_eq!(cache.add_face(Arc::new(font()), 3, 256, 4096, 4096), None);
    assert_eq!(cache.add_face(Arc::new(font()), 0, 512, 2048, 2048), Some(1));
    assert_eq!(cache.face_count(), 2);
    assert_eq!(cache.get_face(1).unwrap().render_glyph(1, 64, 64).unwrap().x.extent, 24);
    assert!(cache.get_face(2).is_none());
    // both faces were queued for the worker, the refused ones were not
    let commands = cache.take_commands();
    assert_eq!(commands.len(), 2);
    assert!(matches!(commands[0], BgCmd::AddFace { .. }));
    assert!(matches!(commands[1], BgCmd::AddFace { .. }));
    assert!(cache.take_commands().is_empty());
}

#[test]
fn is_pending_tells_pending_only() {
    let pending: GlyphStateInCache<u32, usize> = GlyphStateInCache::Pending;
    let null: GlyphStateInCache<u32, usize> = GlyphStateInCache::Null;
    assert!(pending.is_pending());
    assert!(!null.is_pending());
    let (present, error) = outcome_state::<u32, usize, String>(Ok(psilo_text::atlas::GlyphState {
        atlas: 7,
        coords: 9,
    }));
    assert!(!present.is_pending());
    assert!(error.is_none());
    assert_eq!(present.get_answer(), Some((7, 9)));
    assert_eq!(pending.get_answer(), None);
    assert_eq!(null.get_answer(), None);
    let (failed, error) = outcome_state::<u32, usize, String>(Err("x".to_string()));
    assert!(matches!(failed, GlyphStateInCache::Null));
    assert_eq!(error, Some("x".to_string()));
}

#[test]
fn synchronous_glyph_resolves_and_stays() {
    let mut cache = cache(false);
    let mut stub = Stub::new(256, 256);
    let job = match cache.get_glyph(0, 1, &mut stub) {
        Lookup::Render(job) => job,
        Lookup::Known(_) => panic!("a new glyph is to be rendered"),
    };
    assert_eq!((job.face_index, job.glyph_id), (0, 1));
    assert_eq!((job.plan.x.extent, job.plan.y.extent), (36, 49));
    // nothing is placed before the raster is there
    assert_eq!(cache.atlas_count(), 0);
    let first = cache.put_glyph(raster(&job), &mut stub).unwrap();
    assert_eq!(first, Some((101, 0)));
    assert_eq!(cache.atlas_count(), 1);
    assert_eq!(stub.uploads.len(), 1);
    assert_eq!(stub.uploads[0].rect, Rect { x: 0, y: 0, w: 36, h: 49 });
    assert_eq!(stub.uploads[0].render, job.plan.render_bounds());
    assert_eq!(stub.uploads[0].pixels, raster(&job).bitmap);
    for _ in 0..3 {
        match cache.get_glyph(0, 1, &mut stub) {
            Lookup::Known(answer) => assert_eq!(answer, first),
            Lookup::Render(_) => panic!("the glyph is known"),
        }
    }
    // a second raster for a settled glyph is not looked at
    assert_eq!(cache.put_glyph(raster(&job), &mut stub), Ok(first));
    assert_eq!(stub.uploads.len(), 1);
    assert_eq!(stub.new_atlas_calls, 1);
    assert_eq!(cache.atlas_count(), 1);
}

#[test]
fn glyph_without_outline_resolves_to_nothing_once() {
    let mut cache = cache(false);
    let mut stub = Stub::new(256, 256);
    for _ in 0..3 {
        match cache.get_glyph(0, 0, &mut stub) {
            Lookup::Known(answer) => assert_eq!(answer, None),
            Lookup::Render(_) => panic!("nothing to render"),
        }
    }
    match cache.get_glyph(0, 40000, &mut stub) {
        Lookup::Known(answer) => assert_eq!(answer, None),
        Lookup::Render(_) => panic!("nothing to render"),
    }
    assert_eq!(stub.new_atlas_calls, 0);
    assert!(stub.uploads.is_empty());
    assert_eq!(cache.atlas_count(), 0);
    // settled for good: switching to the background queues nothing for it
    cache.take_commands();
    cache.set_render_in_background(true);
    assert!(matches!(cache.get_glyph(0, 0, &mut stub), Lookup::Known(None)));
    assert!(cache.take_commands().is_empty());
}

#[test]
fn background_glyph_is_pending_then_present() {
    let mut cache = cache(true);
    let mut stub = Stub::new(256, 256);
    assert!(matches!(cache.get_glyph(0, 1, &mut stub), Lookup::Known(None)));
    // asked again before the worker ran: still nothing, and no second job
    assert!(matches!(cache.get_glyph(0, 1, &mut stub), Lookup::Known(None)));
    let commands = cache.take_commands();
    assert_eq!(commands.len(), 2);
    let mut worker = Worker::new();
    let mut jobs = Vec::new();
    for cmd in commands {
        if let BgCmd::RenderGlyph { face_index, glyph_id, atlas_w, atlas_h } = &cmd {
            assert_eq!((*face_index, *glyph_id, *atlas_w, *atlas_h), (0, 1, 256, 256));
            assert!(*face_index < worker.face_count());
        }
        if let Some(job) = worker.run(cmd) {
            jobs.push(job);
        }
    }
    assert_eq!(worker.face_count(), 1);
    assert_eq!(jobs.len(), 1);
    assert!(stub.uploads.is_empty());
    cache.deliver(raster(&jobs[0]));
    let answer = match cache.get_glyph(0, 1, &mut stub) {
        Lookup::Known(answer) => answer,
        Lookup::Render(_) => panic!("the glyph was rendered in the background"),
    };
    assert_eq!(answer, Some((101, 0)));
    assert!(matches!(cache.get_glyph(0, 1, &mut stub), Lookup::Known(a) if a == answer));
    assert!(cache.take_commands().is_empty());

    // the backend saw what it sees when the glyph is rendered at once
    let mut direct = self::cache(false);
    let mut direct_stub = Stub::new(256, 256);
    assert_eq!(resolve(&mut direct, 1, &mut direct_stub), Ok(answer));
    assert_eq!(stub.uploads, direct_stub.uploads);
}

#[test]
fn background_upload_failure_is_swallowed() {
    let mut cache = cache(true);
    let mut stub = Stub::new(256, 256);
    stub.refuse_uploads = true;
    assert!(matches!(cache.get_glyph(0, 1, &mut stub), Lookup::Known(None)));
    let mut worker = Worker::new();
    for cmd in cache.take_commands() {
        if let Some(job) = worker.run(cmd) {
            cache.deliver(raster(&job));
        }
    }
    assert!(matches!(cache.get_glyph(0, 3, &mut stub), Lookup::Known(None)));
    stub.refuse_uploads = false;
    // glyph 1 failed for good, though the backend has recovered
    assert!(matches!(cache.get_glyph(0, 1, &mut stub), Lookup::Known(None)));
    let commands = cache.take_commands();
    assert_eq!(commands.len(), 1);
    assert!(matches!(commands[0], BgCmd::RenderGlyph { glyph_id: 3, .. }));
    assert!(stub.uploads.is_empty());
}

#[test]
fn unasked_and_repeated_results_are_dropped() {
    let mut cache = cache(true);
    let mut stub = Stub::new(256, 256);
    let face = FaceState::new(Arc::new(font()), 0, 256, 4096, 4096).unwrap();
    let job = RenderJob { face_index: 0, glyph_id: 1, plan: face.render_glyph(1, 256, 256).unwrap() };
    // never asked for
    cache.deliver(raster(&job));
    assert!(matches!(cache.get_glyph(0, 3, &mut stub), Lookup::Known(None)));
    assert!(stub.uploads.is_empty());
    assert_eq!(cache.atlas_count(), 0);
    // asked for, and rendered twice
    assert!(matches!(cache.get_glyph(0, 1, &mut stub), Lookup::Known(None)));
    cache.deliver(raster(&job));
    cache.deliver(raster(&job));
    assert!(matches!(cache.get_glyph(0, 1, &mut stub), Lookup::Known(Some((101, 0)))));
    assert_eq!(stub.uploads.len(), 1);
    assert_eq!(cache.reconcile(raster(&job), &mut stub), Taken::Repeated);
    assert_eq!(stub.uploads.len(), 1);
    // glyph 3 was asked for above and is pending
    let small = RenderJob { face_index: 0, glyph_id: 3, plan: face.render_glyph(3, 256, 256).unwrap() };
    assert_eq!(cache.reconcile(raster(&small), &mut stub), Taken::Placed);
    assert_eq!(cache.reconcile(raster(&small), &mut stub), Taken::Repeated);
    let never = RenderJob { face_index: 0, glyph_id: 2, plan: face.render_glyph(2, 256, 256).unwrap() };
    assert_eq!(cache.reconcile(raster(&never), &mut stub), Taken::Unasked);
    assert_eq!(stub.uploads.len(), 2);
    // a pending glyph whose upload fails
    assert!(matches!(cache.get_glyph(0, 2, &mut stub), Lookup::Known(None)));
    stub.refuse_uploads = true;
    assert_eq!(cache.reconcile(raster(&never), &mut stub), Taken::Failed);
    assert_eq!(cache.reconcile(raster(&never), &mut stub), Taken::Repeated);
}

#[test]
fn placements_do_not_overlap() {
    let mut cache = cache(false);
    let mut stub = Stub::new(128, 128);
    for glyph in [1u16, 3, 2, 3, 1] {
        let mut other = self::cache(false);
        let fresh = match other.get_glyph(0, glyph, &mut Stub::new(128, 128)) {
            Lookup::Render(job) => job,
            Lookup::Known(_) => panic!("a new glyph is to be rendered"),
        };
        // every raster is uploaded as a glyph of its own
        cache.put_glyph(
            Rendered { glyph_id: 100 + stub.uploads.len() as u16, ..raster(&fresh) },
            &mut stub,
        )
        .unwrap();
    }
    assert_eq!(stub.uploads.len(), 5);
    for (i, a) in stub.uploads.iter().enumerate() {
        assert!(a.rect.x + a.rect.w <= 128 && a.rect.y + a.rect.h <= 128);
        for b in stub.uploads.iter().skip(i + 1) {
            assert!(a.atlas != b.atlas || !overlap(&a.rect, &b.rect), "{:?} {:?}", a.rect, b.rect);
        }
    }
}

#[test]
fn two_glyphs_back_to_back_are_apart() {
    let mut cache = cache(false);
    let mut stub = Stub::new(256, 256);
    let a = resolve(&mut cache, 1, &mut stub).unwrap().unwrap();
    let b = resolve(&mut cache, 3, &mut stub).unwrap().unwrap();
    assert_eq!(a.0, b.0);
    assert_ne!(a.1, b.1);
    assert_eq!(stub.uploads[0].rect, Rect { x: 0, y: 0, w: 36, h: 49 });
    assert_eq!((stub.uploads[1].rect.w, stub.uploads[1].rect.h), (20, 12));
    assert!(!overlap(&stub.uploads[0].rect, &stub.uploads[1].rect));
}

#[test]
fn full_atlas_makes_a_second_one() {
    let mut cache = cache(false);
    // the atlas has room for glyph 1, of 36 by 49 texels, and little more
    let mut stub = Stub::new(40, 60);
    assert_eq!(resolve(&mut cache, 1, &mut stub), Ok(Some((101, 0))));
    assert_eq!(stub.new_atlas_calls, 1);
    // glyph 2 is capped at the atlas: 40 by 60 texels
    assert_eq!(resolve(&mut cache, 2, &mut stub), Ok(Some((102, 1))));
    assert_eq!(stub.new_atlas_calls, 2);
    assert_eq!(cache.atlas_count(), 2);
    assert_eq!(stub.uploads[1].rect, Rect { x: 0, y: 0, w: 40, h: 60 });
    // glyph 3, of 20 by 12 texels, fits neither beside glyph 1 nor into the full atlas
    assert_eq!(resolve(&mut cache, 3, &mut stub), Ok(Some((103, 2))));
    assert_eq!(stub.new_atlas_calls, 3);
    assert_eq!(cache.atlas_count(), 3);
    // what was placed stays where it is
    assert!(matches!(cache.get_glyph(0, 1, &mut stub), Lookup::Known(Some((101, 0)))));
    assert!(matches!(cache.get_glyph(0, 2, &mut stub), Lookup::Known(Some((102, 1)))));
}

#[test]
fn first_fit_takes_the_oldest_atlas_with_room() {
    let mut atlases: Vec<AtlasState<u32>> = Vec::new();
    let mut stub = Stub::new(64, 64);
    let place = |atlases: &mut Vec<AtlasState<u32>>, stub: &mut Stub, w: u32, h: u32| {
        psilo_text::atlas::place(atlases, stub, 64, 64, w, h).unwrap()
    };
    assert_eq!(place(&mut atlases, &mut stub, 64, 40), (101, 0, 0));
    assert_eq!(place(&mut atlases, &mut stub, 64, 40), (102, 0, 0));
    // the first atlas still has 24 rows
    assert_eq!(place(&mut atlases, &mut stub, 10, 24), (101, 0, 40));
    assert_eq!(place(&mut atlases, &mut stub, 10, 25), (103, 0, 0));
    assert_eq!(stub.new_atlas_calls, 3);
    assert_eq!(psilo_text::atlas::first_fit(&mut atlases, 65, 1), None);
    assert_eq!(psilo_text::atlas::first_fit(&mut atlases, 54, 24), Some((0, 10, 40)));
    assert_eq!(psilo_text::atlas::first_fit(&mut atlases, 1, 0), None);
    assert_eq!(atlases.len(), 3);
}

#[test]
fn atlas_state_places_without_overlap() {
    let mut atlas = AtlasState::new(5u8, 100, 50);
    assert_eq!(atlas.get_handle(), 5);
    assert_eq!(atlas.attempt_fit(0, 10), None);
    assert_eq!(atlas.attempt_fit(10, 0), None);
    assert_eq!(atlas.attempt_fit(101, 10), None);
    assert_eq!(atlas.attempt_fit(10, 51), None);
    assert_eq!(atlas.attempt_fit(60, 30), Some((0, 0)));
    let mut rects = vec![Rect { x: 0, y: 0, w: 60, h: 30 }];
    for (w, h) in [(40u32, 30u32), (50, 20), (50, 20), (1, 1)] {
        match atlas.attempt_fit(w, h) {
            Some((x, y)) => {
                let r = Rect { x, y, w, h };
                assert!(x + w <= 100 && y + h <= 50);
                assert!(rects.iter().all(|o| !overlap(o, &r)));
                rects.push(r);
            }
            None => assert_eq!((w, h), (1, 1)),
        }
    }
    assert_eq!(rects.len(), 4);
    // an atlas larger than what is packed is packed up to the limit
    let mut huge = AtlasState::new(0u8, u32::MAX, 8);
    assert_eq!(huge.attempt_fit(0x3fff_ffff, 8), Some((0, 0)));
    assert_eq!(huge.attempt_fit(1, 1), None);
    let mut huge = AtlasState::new(0u8, u32::MAX, 8);
    assert_eq!(huge.attempt_fit(0x4000_0000, 8), None);
}

#[test]
fn open_atlas_hands_on_the_error() {
    let mut atlases: Vec<AtlasState<u32>> = Vec::new();
    let r = psilo_text::atlas::open_atlas::<u32, String>(
        &mut atlases,
        Err("full".to_string()),
        64,
        64,
        8,
        8,
    );
    assert_eq!(r, Err("full".to_string()));
    assert!(atlases.is_empty());
    let r = psilo_text::atlas::open_atlas::<u32, String>(&mut atlases, Ok(9), 64, 64, 8, 8);
    assert_eq!(r, Ok((9, 0, 0)));
    assert_eq!(atlases.len(), 1);
    assert_eq!(atlases[0].get_handle(), 9);
    // the new atlas holds the rectangle: the next one lands beside it
    assert_eq!(atlases[0].attempt_fit(64, 64), None);
    assert_eq!(atlases[0].attempt_fit(56, 8), Some((8, 0)));
}

#[test]
fn allocation_failure_on_the_first_glyph() {
    let mut cache = cache(false);
    let mut stub = Stub::new(256, 256);
    stub.refuse_atlases = true;
    assert_eq!(resolve(&mut cache, 1, &mut stub), Err("no atlas".to_string()));
    assert_eq!(cache.atlas_count(), 0);
    assert_eq!(stub.new_atlas_calls, 1);
    assert!(stub.uploads.is_empty());
    // the glyph failed for good
    stub.refuse_atlases = false;
    assert_eq!(resolve(&mut cache, 1, &mut stub), Ok(None));
    assert_eq!(stub.new_atlas_calls, 1);
    // another glyph is placed
    assert_eq!(resolve(&mut cache, 3, &mut stub), Ok(Some((101, 0))));
    assert_eq!(cache.atlas_count(), 1);
}

#[test]
fn upload_failure_is_returned_and_remembered() {
    let mut cache = cache(false);
    let mut stub = Stub::new(256, 256);
    stub.refuse_uploads = true;
    assert_eq!(resolve(&mut cache, 1, &mut stub), Err("no upload".to_string()));
    // the place was taken before the upload failed
    assert_eq!(cache.atlas_count(), 1);
    stub.refuse_uploads = false;
    assert_eq!(resolve(&mut cache, 1, &mut stub), Ok(None));
    assert_eq!(resolve(&mut cache, 3, &mut stub), Ok(Some((101, 0))));
    assert_ne!(stub.uploads[0].rect, Rect { x: 0, y: 0, w: 20, h: 12 });
}

#[test]
fn raster_that_cannot_be_placed_resolves_to_nothing() {
    let face = FaceState::new(Arc::new(font()), 0, 256, 4096, 4096).unwrap();
    let job = RenderJob { face_index: 0, glyph_id: 1, plan: face.render_glyph(1, 256, 256).unwrap() };
    let whole = raster(&job);
    assert!(whole.is_whole());
    assert!(is_placeable(&whole, 256, 256));
    assert!(is_placeable(&whole, 36, 49));
    assert!(!is_placeable(&whole, 35, 49));
    assert!(!is_placeable(&whole, 36, 48));
    assert!(!is_placeable(&whole, 0x4000_0000, 256));
    let mut short = raster(&job);
    short.bitmap.pop();
    assert!(!short.is_whole());
    assert!(!is_placeable(&short, 256, 256));

    let mut cache = cache(false);
    let mut stub = Stub::new(256, 256);
    assert_eq!(cache.put_glyph(short, &mut stub), Ok(None));
    assert_eq!(cache.atlas_count(), 0);
    assert_eq!(stub.new_atlas_calls, 0);
    assert!(matches!(cache.get_glyph(0, 1, &mut stub), Lookup::Known(None)));
    // an atlas without area takes nothing
    let mut none = Stub::new(0, 0);
    assert_eq!(resolve(&mut cache, 3, &mut none), Ok(None));
    assert_eq!(none.new_atlas_calls, 0);
}

#[test]
fn renderer_queues_keep_their_order() {
    let mut bg = Renderer::new();
    assert!(bg.next_rendered_glyph().is_none());
    bg.render_glyph(0, 5, 10, 20);
    bg.add_face(FaceState::new(Arc::new(font()), 0, 1, 2, 3).unwrap());
    bg.render_glyph(1, 6, 30, 40);
    let commands = bg.take_commands();
    assert_eq!(commands.len(), 3);
    assert!(matches!(
        commands[0],
        BgCmd::RenderGlyph { face_index: 0, glyph_id: 5, atlas_w: 10, atlas_h: 20 }
    ));
    assert!(matches!(commands[1], BgCmd::AddFace { .. }));
    assert!(matches!(
        commands[2],
        BgCmd::RenderGlyph { face_index: 1, glyph_id: 6, atlas_w: 30, atlas_h: 40 }
    ));
    assert!(bg.take_commands().is_empty());
    let face = FaceState::new(Arc::new(font()), 0, 256, 4096, 4096).unwrap();
    for glyph in [3u16, 1, 2] {
        let plan = face.render_glyph(glyph, 64, 64).unwrap();
        bg.deliver(RenderJob { face_index: 0, glyph_id: glyph, plan }.rendered(Vec::new()));
    }
    assert_eq!(bg.next_rendered_glyph().unwrap().glyph_id, 3);
    assert_eq!(bg.next_rendered_glyph().unwrap().glyph_id, 1);
    let last = bg.next_rendered_glyph().unwrap();
    assert_eq!((last.glyph_id, last.width, last.height), (2, 64, 64));
    assert!(bg.next_rendered_glyph().is_none());
}

#[test]
fn worker_plans_what_it_is_told() {
    let mut worker = Worker::new();
    assert_eq!(worker.face_count(), 0);
    let face = FaceState::new(Arc::new(font()), 0, 256, 4096, 4096).unwrap();
    assert_eq!(worker.run(BgCmd::AddFace { face: face.duplicate() }), None);
    assert_eq!(worker.face_count(), 1);
    let job = worker.run(BgCmd::RenderGlyph { face_index: 0, glyph_id: 1, atlas_w: 30, atlas_h: 256 });
    assert_eq!(
        job,
        Some(RenderJob { face_index: 0, glyph_id: 1, plan: face.render_glyph(1, 30, 256).unwrap() })
    );
    assert_eq!(job.unwrap().plan.x.extent, 30);
    let none = worker.run(BgCmd::RenderGlyph { face_index: 0, glyph_id: 0, atlas_w: 30, atlas_h: 256 });
    assert_eq!(none, None);
}

#[test]
fn switching_modes_leaves_pending_glyphs_pending() {
    let mut cache = cache(true);
    let mut stub = Stub::new(256, 256);
    assert!(matches!(cache.get_glyph(0, 1, &mut stub), Lookup::Known(None)));
    cache.set_render_in_background(false);
    // still pending: not rendered at once
    assert!(matches!(cache.get_glyph(0, 1, &mut stub), Lookup::Known(None)));
    // a new glyph is rendered at once
    assert!(matches!(cache.get_glyph(0, 3, &mut stub), Lookup::Render(_)));
}

#[test]
fn worker_keeps_step_with_the_cache() {
    let mut cache = cache(true);
    let mut stub = Stub::new(256, 256);
    let mut worker = Worker::new();
    let mut run = |cache: &mut Cache, worker: &mut Worker| {
        for cmd in cache.take_commands() {
            if let BgCmd::RenderGlyph { face_index, .. } = &cmd {
                assert!(*face_index < worker.face_count());
            }
            if let Some(job) = worker.run(cmd) {
                cache.deliver(raster(&job));
            }
        }
    };
    assert!(matches!(cache.get_glyph(0, 1, &mut stub), Lookup::Known(None)));
    assert_eq!(cache.add_face(Arc::new(font()), 0, 512, 2048, 2048), Some(1));
    assert!(matches!(cache.get_glyph(1, 1, &mut stub), Lookup::Known(None)));
    run(&mut cache, &mut worker);
    assert_eq!(worker.face_count(), cache.face_count());
    assert_eq!(cache.add_face(Arc::new(font()), 0, 64, 1024, 1024), Some(2));
    assert!(matches!(cache.get_glyph(2, 3, &mut stub), Lookup::Known(None)));
    run(&mut cache, &mut worker);
    assert_eq!(worker.face_count(), 3);
    for i in 0..3 {
        let ours = cache.get_face(i).unwrap();
        let theirs = worker.get_face(i).unwrap();
        assert_eq!(ours.border_texels(), theirs.border_texels());
        assert_eq!(ours.texels_per_em(), theirs.texels_per_em());
        assert_eq!(ours.units_per_em(), 1000);
        assert_eq!(ours.render_glyph(1, 64, 64), theirs.render_glyph(1, 64, 64));
    }
    assert!(worker.get_face(3).is_none());
    // each face renders glyph 1 at its own density
    assert!(matches!(cache.get_glyph(0, 1, &mut stub), Lookup::Known(Some((101, 0)))));
    assert!(matches!(cache.get_glyph(1, 1, &mut stub), Lookup::Known(Some((101, 1)))));
    assert!(matches!(cache.get_glyph(2, 3, &mut stub), Lookup::Known(Some((101, 2)))));
    assert_eq!((stub.uploads[0].rect.w, stub.uploads[0].rect.h), (36, 49));
    // ceil(500 * 32 / 1000 + 8) = 24, ceil(700 * 32 / 1000 + 8) = ceil(30.4) = 31
    assert_eq!((stub.uploads[1].rect.w, stub.uploads[1].rect.h), (24, 31));
    // ceil(250 * 16 / 1000 + 1) = 5, ceil(125 * 16 / 1000 + 1) = 3
    assert_eq!((stub.uploads[2].rect.w, stub.uploads[2].rect.h), (5, 3));
}

#[test]
fn font_with_a_reversed_coverage_range_is_read() {
    // a shaping table whose coverage runs from glyph 16 back to glyph 0
    let data = Arc::new(font_with(Some(gsub(16, 0))));
    let face = FaceState::new(data.clone(), 0, 256, 4096, 4096).unwrap();
    assert_eq!(face.units_per_em(), 1000);
    let plan = face.render_glyph(1, 256, 256).unwrap();
    assert_eq!((plan.x.extent, plan.y.extent), (36, 49));
    assert_eq!(face.render_glyph(0, 256, 256), None);
    let mut cache = Cache::new();
    cache.set_render_in_background(false);
    assert_eq!(cache.add_face(data, 0, 256, 4096, 4096), Some(0));
    let mut stub = Stub::new(256, 256);
    assert_eq!(resolve(&mut cache, 1, &mut stub), Ok(Some((101, 0))));
}

#[test]
fn dispatch_queues_or_plans_for_the_given_size() {
    let mut cache = cache(true);
    cache.take_commands();
    assert!(matches!(cache.dispatch(0, 1, 30, 40), Lookup::Known(None)));
    let commands = cache.take_commands();
    assert_eq!(commands.len(), 1);
    assert!(matches!(
        commands[0],
        BgCmd::RenderGlyph { face_index: 0, glyph_id: 1, atlas_w: 30, atlas_h: 40 }
    ));
    // the glyph is pending now: asking for it queues nothing
    let mut stub = Stub::new(256, 256);
    assert!(matches!(cache.get_glyph(0, 1, &mut stub), Lookup::Known(None)));
    assert!(cache.take_commands().is_empty());

    cache.set_render_in_background(false);
    let face = FaceState::new(Arc::new(font()), 0, 256, 4096, 4096).unwrap();
    match cache.dispatch(0, 3, 16, 256) {
        Lookup::Render(job) => {
            assert_eq!(
                job,
                RenderJob { face_index: 0, glyph_id: 3, plan: face.render_glyph(3, 16, 256).unwrap() }
            );
            assert_eq!((job.plan.x.extent, job.plan.y.extent), (16, 12));
        }
        Lookup::Known(_) => panic!("a new glyph is to be rendered"),
    }
    // still new: the same again
    assert!(matches!(cache.dispatch(0, 3, 16, 256), Lookup::Render(_)));
    assert!(matches!(cache.dispatch(0, 0, 16, 256), Lookup::Known(None)));
    assert!(matches!(cache.get_glyph(0, 0, &mut stub), Lookup::Known(None)));
    assert!(cache.take_commands().is_empty());
}

#[test]
fn sized_functions_use_the_given_size() {
    let face = FaceState::new(Arc::new(font()), 0, 256, 4096, 4096).unwrap();
    let job = RenderJob { face_index: 0, glyph_id: 1, plan: face.render_glyph(1, 256, 256).unwrap() };
    // the handler's own size is never asked for
    let mut stub = Stub::new(1, 1);

    let mut cache = cache(false);
    assert_eq!(cache.put_glyph_sized(raster(&job), 64, 64, &mut stub), Ok(Some((101, 0))));
    assert_eq!(cache.atlas_count(), 1);
    // settled: a second raster changes nothing, whatever the size
    assert_eq!(cache.put_glyph_sized(raster(&job), 0, 0, &mut stub), Ok(Some((101, 0))));
    assert_eq!(stub.uploads.len(), 1);

    // too small an atlas: nothing is placed, and the glyph resolves to nothing
    let mut cache = self::cache(false);
    assert_eq!(cache.put_glyph_sized(raster(&job), 35, 64, &mut stub), Ok(None));
    assert_eq!(cache.atlas_count(), 0);
    assert_eq!(stub.new_atlas_calls, 1);
    assert_eq!(cache.put_glyph_sized(raster(&job), 64, 64, &mut stub), Ok(None));

    let mut cache = self::cache(true);
    // never asked for: dropped
    assert_eq!(cache.reconcile_sized(raster(&job), 64, 64, &mut stub), Taken::Unasked);
    assert_eq!(cache.atlas_count(), 0);
    assert!(matches!(cache.dispatch(0, 1, 64, 64), Lookup::Known(None)));
    assert_eq!(cache.reconcile_sized(raster(&job), 64, 64, &mut stub), Taken::Placed);
    assert_eq!(cache.atlas_count(), 1);
    assert!(matches!(cache.get_glyph(0, 1, &mut stub), Lookup::Known(Some((102, 1)))));
    // rendered twice: dropped
    assert_eq!(cache.reconcile_sized(raster(&job), 64, 64, &mut stub), Taken::Repeated);
    // pending, and too large for the atlas
    assert!(matches!(cache.dispatch(0, 2, 64, 64), Lookup::Known(None)));
    let large = RenderJob { face_index: 0, glyph_id: 2, plan: face.render_glyph(2, 64, 64).unwrap() };
    assert_eq!(cache.reconcile_sized(raster(&large), 63, 64, &mut stub), Taken::Failed);
    assert_eq!(stub.uploads.len(), 2);
    assert_eq!(stub.new_atlas_calls, 2);
}

#[test]
fn drain_takes_in_all_that_waits_in_order() {
    let mut cache = cache(true);
    let mut stub = Stub::new(64, 64);
    let face = FaceState::new(Arc::new(font()), 0, 256, 4096, 4096).unwrap();
    for glyph in [1u16, 3] {
        assert!(matches!(cache.get_glyph(0, glyph, &mut stub), Lookup::Known(None)));
    }
    // glyph 2 is pending and has no result
    assert!(matches!(cache.get_glyph(0, 2, &mut stub), Lookup::Known(None)));
    for glyph in [3u16, 1, 3] {
        let plan = face.render_glyph(glyph, 64, 64).unwrap();
        cache.deliver(raster(&RenderJob { face_index: 0, glyph_id: glyph, plan }));
    }
    cache.take_commands();
    cache.drain(&mut stub);
    // glyph 3 came first and was taken in once
    assert_eq!(stub.uploads.len(), 2);
    assert_eq!(stub.uploads[0].rect, Rect { x: 0, y: 0, w: 20, h: 12 });
    assert_eq!((stub.uploads[1].rect.w, stub.uploads[1].rect.h), (36, 49));
    assert!(matches!(cache.get_glyph(0, 3, &mut stub), Lookup::Known(Some((101, 0)))));
    assert!(matches!(cache.get_glyph(0, 1, &mut stub), Lookup::Known(Some((101, 1)))));
    // glyph 2 stays pending, and no second job is queued for it
    assert!(matches!(cache.get_glyph(0, 2, &mut stub), Lookup::Known(None)));
    assert!(cache.take_commands().is_empty());
    cache.drain(&mut stub);
    assert_eq!(stub.uploads.len(), 2);
    let plan = face.render_glyph(2, 64, 64).unwrap();
    cache.deliver(raster(&RenderJob { face_index: 0, glyph_id: 2, plan }));
    assert!(matches!(cache.get_glyph(0, 2, &mut stub), Lookup::Known(Some((102, 2)))));
}
