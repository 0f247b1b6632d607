//! What the library asks of a font file.
//!
//! Font files are read by `ttf_parser`, which is written never to panic on
//! any bytes. Nothing in this file is proved: it states what the library
//! relies on.

use std::sync::Arc;
use vstd::prelude::*;

verus! {

/// The units per em of face `index` of the font file `data`, where the file
/// can be parsed and holds that face.
pub uninterp spec fn face_units(data: Seq<u8>, index: u32) -> Option<int>;

/// The bounding box `(x_min, y_min, x_max, y_max)`, in font units, of the
/// outline of glyph `glyph` in face `index` of the font file `data`, where
/// the glyph has an outline.
pub uninterp spec fn glyph_box(data: Seq<u8>, index: u32, glyph: u16) -> Option<
    (i16, i16, i16, i16),
>;

/// `ttf_parser::Face::parse`, then `units_per_em` of the face. Whether the
/// face can be had, and its units per em, depend on the bytes and the index
/// alone. The units per em of a face that parses are between 16 and 16384.
#[verifier::external_body]
pub(crate) fn units_per_em(data: &[u8], index: u32) -> (r: Option<u16>)
    ensures
        match r {
            Some(units) => face_units(data@, index) == Some(units as int) && 16 <= units <= 16384,
            None => face_units(data@, index) is None,
        },
{
    match ttf_parser::Face::parse(data, index) {
        Ok(face) => Some(face.units_per_em()),
        Err(_) => None,
    }
}

/// `ttf_parser::Face::glyph_bounding_box`, on the face that
/// `ttf_parser::Face::parse` gives. The box depends on the bytes, the index
/// and the glyph alone. Where there is no face the result is `None`, as it
/// is for a glyph without outline.
#[verifier::external_body]
pub(crate) fn glyph_bounding_box(data: &[u8], index: u32, glyph: u16) -> (r: Option<
    (i16, i16, i16, i16),
>)
    ensures
        r == glyph_box(data@, index, glyph),
{
    match ttf_parser::Face::parse(data, index) {
        Ok(face) => match face.glyph_bounding_box(ttf_parser::GlyphId(glyph)) {
            Some(b) => Some((b.x_min, b.y_min, b.x_max, b.y_max)),
            None => None,
        },
        Err(_) => None,
    }
}

/// `Arc::clone`: another handle to the same bytes.
#[verifier::external_body]
pub(crate) fn share(data: &Arc<Vec<u8>>) -> (r: Arc<Vec<u8>>)
    ensures
        r == *data,
{
    Arc::clone(data)
}

} // verus!
