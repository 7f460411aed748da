//! Styles and the Text Placement Engine: anchor offsets, the affine text
//! transform, and the placement math that turns a measured layout box into
//! a text draw record's origin.

use vstd::prelude::*;

use crate::color::Color;

verus! {

/// Style attached to a geometry primitive: stroke width and color.
#[derive(Clone, Copy, Debug, PartialEq, Eq)]
pub struct Style {
    pub stroke_width: u32,
    pub color: Color,
}

/// Horizontal anchor of a text box relative to the draw coordinate.
#[derive(Clone, Copy, Debug, PartialEq, Eq)]
pub enum HPos {
    Left,
    Center,
    Right,
}

/// Vertical anchor of a text box relative to the draw coordinate.
#[derive(Clone, Copy, Debug, PartialEq, Eq)]
pub enum VPos {
    Top,
    Center,
    Bottom,
}

/// The affine transform applied to the anchored placement point: identity
/// or a clockwise quarter-turn rotation.
#[derive(Clone, Copy, Debug, PartialEq, Eq)]
pub enum FontTransform {
    Identity,
    Rotate90,
    Rotate180,
    Rotate270,
}

/// Text style: font size, color, the two anchors and the transform applied
/// after the anchor offset.
#[derive(Clone, Copy, Debug, PartialEq, Eq)]
pub struct TextStyle {
    pub size: u32,
    pub color: Color,
    pub h_pos: HPos,
    pub v_pos: VPos,
    pub transform: FontTransform,
}

/// The axis-aligned box a text run occupies before anchoring, as measured
/// by the font layout collaborator.
#[derive(Clone, Copy, Debug, PartialEq, Eq)]
pub struct LayoutBox {
    pub min_x: i32,
    pub min_y: i32,
    pub max_x: i32,
    pub max_y: i32,
}

/// The font layout collaborator: measures the unscaled bounding box of a
/// text run under a style. Implementations live outside this crate (a
/// glyph shaper, or a frontend-provided style object); nothing is assumed
/// of their results.
pub trait LayoutService {
    /// Measure the layout box of `text` under `style`, or report that the
    /// text cannot be measured.
    fn layout_box(&self, text: &str, style: &TextStyle) -> Result<LayoutBox, LayoutError>;
}

/// The font layout collaborator could not measure a text run.
#[derive(Clone, Debug, PartialEq, Eq)]
pub struct LayoutError {
    pub message: String,
}

/// Division by two truncating toward zero, as the placement math uses for
/// centering offsets (pixel snapping truncates, it does not floor).
pub open spec fn half_trunc(v: int) -> int {
    if v >= 0 {
        v / 2
    } else {
        -((-v) / 2)
    }
}

/// Horizontal anchor offset for a measured width: 0 for Left, `-width` for
/// Right, `-width/2` (truncating toward zero) for Center.
pub open spec fn anchor_dx(h: HPos, width: int) -> int {
    match h {
        HPos::Left => 0,
        HPos::Center => -half_trunc(width),
        HPos::Right => -width,
    }
}

/// Vertical anchor offset for a measured height: 0 for Top, `-height` for
/// Bottom, `-height/2` (truncating toward zero) for Center.
pub open spec fn anchor_dy(v: VPos, height: int) -> int {
    match v {
        VPos::Top => 0,
        VPos::Center => -half_trunc(height),
        VPos::Bottom => -height,
    }
}

/// Apply a font transform to a point.
pub open spec fn transformed(t: FontTransform, x: int, y: int) -> (int, int) {
    match t {
        FontTransform::Identity => (x, y),
        FontTransform::Rotate90 => (-y, x),
        FontTransform::Rotate180 => (-x, -y),
        FontTransform::Rotate270 => (y, -x),
    }
}

/// The final placement origin of a text run: the anchor point shifted by
/// the anchor offsets, rebased against the measured box's minimum corner,
/// then transformed.
pub open spec fn placed_origin(style: TextStyle, pos: (i32, i32), layout: LayoutBox) -> (
    int,
    int,
) {
    let width = layout.max_x - layout.min_x;
    let height = layout.max_y - layout.min_y;
    let dx = anchor_dx(style.h_pos, width);
    let dy = anchor_dy(style.v_pos, height);
    transformed(style.transform, pos.0 + dx - layout.min_x, pos.1 + dy - layout.min_y)
}

/// For a centered anchor, the placement offset of a measured box of width
/// `width` and height `height` is exactly `(-width / 2, -height / 2)`
/// before the transform is applied.
pub proof fn lemma_center_anchor_offset(width: int, height: int)
    requires
        0 <= width,
        0 <= height,
    ensures
        anchor_dx(HPos::Center, width) == -(width / 2),
        anchor_dy(VPos::Center, height) == -(height / 2),
{
}

/// Runtime division by two truncating toward zero.
pub(crate) fn half_toward_zero(v: i64) -> (res: i64)
    requires
        v != i64::MIN,
    ensures
        res == half_trunc(v as int),
{
    if v >= 0 {
        ((v as u64) / 2) as i64
    } else {
        let magnitude: u64 = ((-v) as u64) / 2;
        -(magnitude as i64)
    }
}

/// Runtime anchor offsets.
pub(crate) fn anchor_offsets(style: &TextStyle, width: i64, height: i64) -> (res: (i64, i64))
    requires
        i64::MIN < width,
        i64::MIN < height,
    ensures
        res.0 == anchor_dx(style.h_pos, width as int),
        res.1 == anchor_dy(style.v_pos, height as int),
{
    let dx: i64 = match style.h_pos {
        HPos::Left => 0,
        HPos::Center => -half_toward_zero(width),
        HPos::Right => -width,
    };
    let dy: i64 = match style.v_pos {
        VPos::Top => 0,
        VPos::Center => -half_toward_zero(height),
        VPos::Bottom => -height,
    };
    (dx, dy)
}

} // verus!
