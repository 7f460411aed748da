//! Draw records: the values the translation layer appends to the per-frame
//! draw list, together with their mathematical model.
//!
//! Coordinates are kept in drawable-surface pixel space (origin top-left, y
//! increasing downward). Record coordinates are `i64` so that derived
//! extents and transformed text origins, which are sums and differences of
//! a few `i32` inputs, can never overflow.

use vstd::prelude::*;

use crate::color::EngineColor;

verus! {

/// Opaque handle for a font registered with the rendering engine once at
/// construction time; passed unchanged on every text draw.
#[derive(Clone, Copy, Debug, PartialEq, Eq)]
pub struct FontId {
    pub id: usize,
}

/// An axis-aligned rectangle. Extents are signed and passed through as
/// derived (`x2 - x1`), not normalized: corners given in non-canonical
/// order yield negative width or height, which the engine accepts.
#[derive(Clone, Copy, Debug, PartialEq, Eq)]
pub struct RectGeom {
    pub x: i64,
    pub y: i64,
    pub width: i64,
    pub height: i64,
}

/// A circle with its tessellation density.
#[derive(Clone, Copy, Debug, PartialEq, Eq)]
pub struct CircleGeom {
    pub x: i64,
    pub y: i64,
    pub radius: u32,
    /// Number of segments the engine tessellates the circle into.
    pub segments: u32,
}

/// One vertex of a line strip, carrying its own width and color.
#[derive(Clone, Copy, Debug, PartialEq, Eq)]
pub struct LineVertex {
    pub x: i64,
    pub y: i64,
    pub width: u32,
    pub color: EngineColor,
}

/// One pending drawing operation, owned by the draw list until the next
/// present.
#[derive(Clone, Debug, PartialEq)]
pub enum DrawRecord {
    /// A filled rectangle.
    FillRect { rect: RectGeom, color: EngineColor },
    /// A stroked rectangle outline, rendered with the given line width.
    StrokeRect { rect: RectGeom, line_width: u32, color: EngineColor },
    /// A filled circle.
    FillCircle { circle: CircleGeom, color: EngineColor },
    /// A stroked circle outline, rendered with the given line width.
    StrokeCircle { circle: CircleGeom, line_width: u32, color: EngineColor },
    /// A line strip with one vertex per point.
    Lines { vertices: Vec<LineVertex> },
    /// A placed text run: content, font, scale and the clipping box the
    /// text renderer draws into.
    Text { content: String, font: FontId, scale: u32, bounds: RectGeom, color: EngineColor },
}

/// The mathematical model of a [`DrawRecord`]: the same shape data, with
/// the vertex buffer and the text content abstracted to sequences.
pub enum RecordModel {
    FillRect { rect: RectGeom, color: EngineColor },
    StrokeRect { rect: RectGeom, line_width: u32, color: EngineColor },
    FillCircle { circle: CircleGeom, color: EngineColor },
    StrokeCircle { circle: CircleGeom, line_width: u32, color: EngineColor },
    Lines { vertices: Seq<LineVertex> },
    Text { content: Seq<char>, font: FontId, scale: u32, bounds: RectGeom, color: EngineColor },
}

impl View for DrawRecord {
    type V = RecordModel;

    open spec fn view(&self) -> RecordModel {
        match self {
            DrawRecord::FillRect { rect, color } => RecordModel::FillRect {
                rect: *rect,
                color: *color,
            },
            DrawRecord::StrokeRect { rect, line_width, color } => RecordModel::StrokeRect {
                rect: *rect,
                line_width: *line_width,
                color: *color,
            },
            DrawRecord::FillCircle { circle, color } => RecordModel::FillCircle {
                circle: *circle,
                color: *color,
            },
            DrawRecord::StrokeCircle { circle, line_width, color } => RecordModel::StrokeCircle {
                circle: *circle,
                line_width: *line_width,
                color: *color,
            },
            DrawRecord::Lines { vertices } => RecordModel::Lines { vertices: vertices@ },
            DrawRecord::Text { content, font, scale, bounds, color } => RecordModel::Text {
                content: content@,
                font: *font,
                scale: *scale,
                bounds: *bounds,
                color: *color,
            },
        }
    }
}

/// The model of a whole draw list: each record abstracted to its model, in
/// call order.
pub open spec fn list_model(records: Seq<DrawRecord>) -> Seq<RecordModel> {
    records.map_values(|r: DrawRecord| r@)
}

} // verus!
