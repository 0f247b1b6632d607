//! Faces: the bytes of a font file, the face chosen in it, and how its
//! glyphs are to be rendered.

use crate::font::{face_units, glyph_bounding_box, glyph_box, share, units_per_em};
use crate::geometry::{glyph_plan, plan_glyph, GlyphBounds, GlyphPlan};
use std::sync::Arc;
use vstd::prelude::*;

verus! {

/// The bounding box that the font file gives, as the planner takes it.
pub open spec fn bounds_of(t: (i16, i16, i16, i16)) -> GlyphBounds {
    GlyphBounds { x_min: t.0, y_min: t.1, x_max: t.2, y_max: t.3 }
}

/// A face of a font file with its rendering parameters. Texel quantities are
/// 26.6 fixed-point numbers.
pub struct FaceState {
    face_data: Arc<Vec<u8>>,
    index: u32,
    units_per_em: u16,
    border_texels: u32,
    texels_per_em_x: u32,
    texels_per_em_y: u32,
}

/// What a face is to its users.
pub struct FaceView {
    pub data: Seq<u8>,
    pub index: u32,
    pub units_per_em: u16,
    pub border_texels: u32,
    pub texels_per_em_x: u32,
    pub texels_per_em_y: u32,
}

impl FaceView {
    /// The plan for the raster of `glyph` in atlases of `atlas_w` by
    /// `atlas_h` texels; none where the glyph has no outline.
    pub open spec fn plan(self, glyph: u16, atlas_w: u32, atlas_h: u32) -> Option<GlyphPlan> {
        match glyph_box(self.data, self.index, glyph) {
            Some(t) => Some(
                glyph_plan(
                    bounds_of(t),
                    self.units_per_em,
                    self.border_texels,
                    self.texels_per_em_x,
                    self.texels_per_em_y,
                    atlas_w,
                    atlas_h,
                ),
            ),
            None => None,
        }
    }

    /// The face is one that its font file holds, with the units per em that
    /// the file gives.
    pub open spec fn wf(self) -> bool {
        &&& face_units(self.data, self.index) == Some(self.units_per_em as int)
        &&& 16 <= self.units_per_em <= 16384
    }
}

impl View for FaceState {
    type V = FaceView;

    closed spec fn view(&self) -> FaceView {
        FaceView {
            data: self.face_data@,
            index: self.index,
            units_per_em: self.units_per_em,
            border_texels: self.border_texels,
            texels_per_em_x: self.texels_per_em_x,
            texels_per_em_y: self.texels_per_em_y,
        }
    }
}

impl FaceState {
    /// Face `index` of the font file `face_data`; none where the file cannot
    /// be parsed or does not hold that face.
    pub fn new(
        face_data: Arc<Vec<u8>>,
        index: u32,
        border_texels: u32,
        texels_per_em_x: u32,
        texels_per_em_y: u32,
    ) -> (r: Option<FaceState>)
        ensures
            r is Some <==> face_units(face_data@, index) is Some,
            r matches Some(face) ==> face@.wf() && face@ == (FaceView {
                data: face_data@,
                index,
                units_per_em: face_units(face_data@, index).unwrap() as u16,
                border_texels,
                texels_per_em_x,
                texels_per_em_y,
            }),
    {
        match units_per_em(face_data.as_slice(), index) {
            Some(units) => Some(
                FaceState {
                    face_data,
                    index,
                    units_per_em: units,
                    border_texels,
                    texels_per_em_x,
                    texels_per_em_y,
                },
            ),
            None => None,
        }
    }

    /// A second handle to the same face: the bytes are shared.
    pub fn duplicate(&self) -> (r: FaceState)
        ensures
            r@ == self@,
    {
        FaceState {
            face_data: share(&self.face_data),
            index: self.index,
            units_per_em: self.units_per_em,
            border_texels: self.border_texels,
            texels_per_em_x: self.texels_per_em_x,
            texels_per_em_y: self.texels_per_em_y,
        }
    }

    /// The bytes of the font file.
    pub fn data(&self) -> (r: &[u8])
        ensures
            r@ == self@.data,
    {
        self.face_data.as_slice()
    }

    /// Which face of the font file this is.
    pub fn index(&self) -> (r: u32)
        ensures
            r == self@.index,
    {
        self.index
    }

    /// The padding around each raster of this face, in sixty-fourths of a
    /// texel.
    pub fn border_texels(&self) -> (r: u32)
        ensures
            r == self@.border_texels,
    {
        self.border_texels
    }

    /// The texels that one em of this face takes across and down, in
    /// sixty-fourths of a texel.
    pub fn texels_per_em(&self) -> (r: (u32, u32))
        ensures
            r == (self@.texels_per_em_x, self@.texels_per_em_y),
    {
        (self.texels_per_em_x, self.texels_per_em_y)
    }

    /// The units of the font that make one em.
    pub fn units_per_em(&self) -> (r: u16)
        ensures
            r == self@.units_per_em,
    {
        self.units_per_em
    }

    /// Plans the raster of a glyph for atlases of `atlas_w` by `atlas_h`
    /// texels. Returns `None` if the glyph is not in the font or has no
    /// outline.
    pub fn render_glyph(&self, glyph: u16, atlas_w: u32, atlas_h: u32) -> (r: Option<GlyphPlan>)
        requires
            self@.wf(),
        ensures
            r == self@.plan(glyph, atlas_w, atlas_h),
            r matches Some(plan) ==> plan.x.extent <= atlas_w && plan.y.extent <= atlas_h,
    {
        match glyph_bounding_box(self.face_data.as_slice(), self.index, glyph) {
            Some((x_min, y_min, x_max, y_max)) => Some(
                plan_glyph(
                    GlyphBounds { x_min, y_min, x_max, y_max },
                    self.units_per_em,
                    self.border_texels,
                    self.texels_per_em_x,
                    self.texels_per_em_y,
                    atlas_w,
                    atlas_h,
                ),
            ),
            None => None,
        }
    }
}

} // verus!
