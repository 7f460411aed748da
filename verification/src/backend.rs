//! The backend adapter: Geometry Translator, Draw List Accumulator, Frame
//! Presenter and Surface Adapter.
//!
//! Every drawing primitive appends records to a per-frame draw list; a
//! present hands the whole list over for GPU submission and resets it. The
//! engine's shared draw state (current stroke width and color) is modeled
//! as adapter-owned fields, mutated before emissions exactly as the engine
//! consumes it and reset at frame boundaries.

use vstd::prelude::*;

use crate::color::Color;
use crate::color::EngineColor;
use crate::color::color_into;
use crate::color::convert_spec;
use crate::color::opaque_white;
use crate::color::opaque_white_color;
use crate::errors::DrawError;
use crate::records::CircleGeom;
use crate::records::DrawRecord;
use crate::records::FontId;
use crate::records::LineVertex;
use crate::records::RecordModel;
use crate::records::RectGeom;
use crate::records::list_model;
use crate::style::FontTransform;
use crate::style::LayoutBox;
use crate::style::LayoutService;
use crate::style::Style;
use crate::style::TextStyle;
use crate::style::anchor_dx;
use crate::style::anchor_dy;
use crate::style::anchor_offsets;
use crate::style::half_trunc;
use crate::style::placed_origin;

verus! {

/// Buffer capacities the rendering engine is configured with at
/// construction; both default when left to [`Default`].
#[derive(Clone, Copy, Debug, PartialEq, Eq)]
pub struct Config {
    pub line_capacity: usize,
    pub mesh_capacity: usize,
}

/// The engine's default buffer capacity, for line and mesh buffers alike.
pub const DEFAULT_CAPACITY: usize = 10_000;

/// The engine's default stroke width at the start of a frame.
pub const DEFAULT_LINE_WIDTH: u32 = 1;

impl Default for Config {
    /// Both capacities default to the engine's own default.
    fn default() -> (res: Self)
        ensures
            res.line_capacity == DEFAULT_CAPACITY,
            res.mesh_capacity == DEFAULT_CAPACITY,
    {
        Config { line_capacity: DEFAULT_CAPACITY, mesh_capacity: DEFAULT_CAPACITY }
    }
}

/// The record a pixel draw appends: a filled 1-by-1 rectangle at the
/// pixel's coordinate, in the converted color.
pub open spec fn pixel_record(point: (i32, i32), color: Color) -> RecordModel {
    RecordModel::FillRect {
        rect: RectGeom { x: point.0 as i64, y: point.1 as i64, width: 1, height: 1 },
        color: convert_spec(color),
    }
}

/// One line-strip vertex for a point: its position plus the style's width
/// and converted color.
pub open spec fn vertex_of(point: (i32, i32), style: Style) -> LineVertex {
    LineVertex {
        x: point.0 as i64,
        y: point.1 as i64,
        width: style.stroke_width,
        color: convert_spec(style.color),
    }
}

/// The record a line draw appends: a two-vertex line strip.
pub open spec fn line_record(from: (i32, i32), to: (i32, i32), style: Style) -> RecordModel {
    RecordModel::Lines { vertices: seq![vertex_of(from, style), vertex_of(to, style)] }
}

/// The record a path draw appends: one vertex per input point, in order.
pub open spec fn path_record(path: Seq<(i32, i32)>, style: Style) -> RecordModel {
    RecordModel::Lines { vertices: path.map_values(|p: (i32, i32)| vertex_of(p, style)) }
}

/// The rectangle a rect draw emits: anchored at the first corner, extents
/// derived signed from the second corner (`x2 - x1`, `y2 - y1`) and passed
/// through without normalization.
pub open spec fn rect_geom(upper_left: (i32, i32), bottom_right: (i32, i32)) -> RectGeom {
    RectGeom {
        x: upper_left.0 as i64,
        y: upper_left.1 as i64,
        width: (bottom_right.0 - upper_left.0) as i64,
        height: (bottom_right.1 - upper_left.1) as i64,
    }
}

/// The record a rect draw appends: filled, or stroked with the style's
/// width.
pub open spec fn rect_record(
    upper_left: (i32, i32),
    bottom_right: (i32, i32),
    style: Style,
    fill: bool,
) -> RecordModel {
    if fill {
        RecordModel::FillRect {
            rect: rect_geom(upper_left, bottom_right),
            color: convert_spec(style.color),
        }
    } else {
        RecordModel::StrokeRect {
            rect: rect_geom(upper_left, bottom_right),
            line_width: style.stroke_width,
            color: convert_spec(style.color),
        }
    }
}

/// Tessellation density for a circle: scales with the radius, with a fixed
/// lower bound of 10 segments so tiny circles stay visually round.
pub open spec fn segments_for(radius: u32) -> u32 {
    if radius < 10 {
        10
    } else {
        radius
    }
}

/// The record a circle draw appends: filled, or stroked with the style's
/// width.
pub open spec fn circle_record(
    center: (i32, i32),
    radius: u32,
    style: Style,
    fill: bool,
) -> RecordModel {
    let circle = CircleGeom {
        x: center.0 as i64,
        y: center.1 as i64,
        radius,
        segments: segments_for(radius),
    };
    if fill {
        RecordModel::FillCircle { circle, color: convert_spec(style.color) }
    } else {
        RecordModel::StrokeCircle {
            circle,
            line_width: style.stroke_width,
            color: convert_spec(style.color),
        }
    }
}

/// The record a text draw appends for a measured layout box: the content,
/// the font registered at construction, the style's size as scale, the
/// converted color, and a clipping box at the placed origin sized to the
/// whole drawable surface (finer clipping is the text renderer's job).
pub open spec fn text_record(
    surface: (u32, u32),
    font: FontId,
    text: Seq<char>,
    style: TextStyle,
    pos: (i32, i32),
    layout: LayoutBox,
) -> RecordModel {
    let origin = placed_origin(style, pos, layout);
    RecordModel::Text {
        content: text,
        font,
        scale: style.size,
        bounds: RectGeom {
            x: origin.0 as i64,
            y: origin.1 as i64,
            width: surface.0 as i64,
            height: surface.1 as i64,
        },
        color: convert_spec(style.color),
    }
}

/// The backend adapter: surface size, the font registered at
/// construction, the engine configuration, the per-frame draw list, and
/// the engine's shared draw state.
pub struct SolsticeBackend {
    width: u32,
    height: u32,
    font_id: FontId,
    config: Config,
    draw_list: Vec<DrawRecord>,
    line_width: u32,
    color: EngineColor,
}

impl SolsticeBackend {
    /// The accumulated draw records of the current frame, in call order.
    pub closed spec fn records(self) -> Seq<RecordModel> {
        list_model(self.draw_list@)
    }

    /// Current drawable size, width then height: the single source of
    /// truth for size queries.
    pub closed spec fn size(self) -> (u32, u32) {
        (self.width, self.height)
    }

    /// The font handle registered with the engine at construction.
    pub closed spec fn font(self) -> FontId {
        self.font_id
    }

    /// The engine configuration chosen at construction.
    pub closed spec fn config(self) -> Config {
        self.config
    }

    /// The engine's shared stroke-width state.
    pub closed spec fn line_width_state(self) -> u32 {
        self.line_width
    }

    /// The engine's shared draw-color state.
    pub closed spec fn color_state(self) -> EngineColor {
        self.color
    }

    /// Whether a point lies on the drawable surface.
    pub open spec fn covers(self, point: (i32, i32)) -> bool {
        &&& 0 <= point.0 < self.size().0
        &&& 0 <= point.1 < self.size().1
    }

    /// The surface identity (size, font and configuration) of `post` is
    /// that of `self`: drawing operations never touch it.
    pub open spec fn same_surface(self, post: Self) -> bool {
        &&& post.size() == self.size()
        &&& post.font() == self.font()
        &&& post.config() == self.config()
    }

    /// Bind a fresh adapter to a drawable surface: remember size, font
    /// handle and engine configuration, and start with an empty draw list
    /// and the engine's default draw state.
    pub fn new(width: u32, height: u32, font_id: FontId, config: Config) -> (res: Self)
        ensures
            res.size() == (width, height),
            res.font() == font_id,
            res.config() == config,
            res.records() == Seq::<RecordModel>::empty(),
            res.line_width_state() == DEFAULT_LINE_WIDTH,
            res.color_state() == opaque_white(),
    {
        let backend = SolsticeBackend {
            width,
            height,
            font_id,
            config,
            draw_list: Vec::new(),
            line_width: DEFAULT_LINE_WIDTH,
            color: opaque_white_color(),
        };
        proof {
            assert(backend.records() =~= Seq::<RecordModel>::empty());
        }
        backend
    }

    /// Current drawable size.
    pub fn get_size(&self) -> (res: (u32, u32))
        ensures
            res == self.size(),
    {
        (self.width, self.height)
    }

    /// This backend needs no pre-draw setup: always succeeds, changes
    /// nothing.
    pub fn ensure_prepared(&mut self) -> (res: Result<(), DrawError>)
        ensures
            res is Ok,
            *final(self) == *old(self),
    {
        Ok(())
    }

    /// Resize the drawable surface. The stored size is the single source
    /// of truth for size queries; the embedding layer must update the GPU
    /// viewport and the engine's own width/height tracking together with
    /// it. Everything else, the pending draw list included, is untouched.
    pub fn resize(&mut self, width: u32, height: u32)
        ensures
            *final(self) == resized(*old(self), width, height),
            final(self).size() == (width, height),
            final(self).records() == old(self).records(),
    {
        self.width = width;
        self.height = height;
    }

    /// Present the frame: hand the accumulated draw list over for GPU
    /// submission and reset for the next frame. The list is replaced
    /// wholesale by an empty one before the submission's outcome can even
    /// be known, so a failed submission never leaks stale geometry into
    /// the next frame; a dropped frame is not replayed. The shared draw
    /// state returns to the engine's defaults.
    pub fn present(&mut self) -> (frame: Vec<DrawRecord>)
        ensures
            list_model(frame@) == old(self).records(),
            final(self).records() == Seq::<RecordModel>::empty(),
            old(self).same_surface(*final(self)),
            final(self).line_width_state() == DEFAULT_LINE_WIDTH,
            final(self).color_state() == opaque_white(),
    {
        let mut frame: Vec<DrawRecord> = Vec::new();
        core::mem::swap(&mut frame, &mut self.draw_list);
        self.line_width = DEFAULT_LINE_WIDTH;
        self.color = opaque_white_color();
        proof {
            assert(self.records() =~= Seq::<RecordModel>::empty());
        }
        frame
    }

    /// Draw a single pixel. A coordinate off the drawable surface is a
    /// silent no-op by the clipping policy, not an error; an on-surface
    /// coordinate appends exactly one filled 1-by-1 rectangle record at
    /// that coordinate in the converted color.
    pub fn draw_pixel(&mut self, point: (i32, i32), color: Color) -> (res: Result<(), DrawError>)
        ensures
            res is Ok,
            old(self).covers(point) ==> final(self).records() == old(self).records().push(
                pixel_record(point, color),
            ),
            !old(self).covers(point) ==> *final(self) == *old(self),
            old(self).same_surface(*final(self)),
            final(self).line_width_state() == old(self).line_width_state(),
            final(self).color_state() == old(self).color_state(),
    {
        let (width, height) = self.get_size();
        if point.0 < 0 || point.1 < 0 || point.0 as u32 >= width || point.1 as u32 >= height {
            return Ok(());
        }
        let record = DrawRecord::FillRect {
            rect: RectGeom { x: point.0 as i64, y: point.1 as i64, width: 1, height: 1 },
            color: color_into(color),
        };
        let ghost before = self.records();
        self.draw_list.push(record);
        proof {
            assert(self.records() =~= before.push(pixel_record(point, color)));
        }
        Ok(())
    }

    /// Draw a straight line segment: appends one two-vertex line-strip
    /// record, both vertices carrying the style's width and converted
    /// color. No clipping here: off-surface endpoints pass through to the
    /// engine unchanged.
    pub fn draw_line(&mut self, from: (i32, i32), to: (i32, i32), style: &Style) -> (res: Result<
        (),
        DrawError,
    >)
        ensures
            res is Ok,
            final(self).records() == old(self).records().push(line_record(from, to, *style)),
            old(self).same_surface(*final(self)),
            final(self).line_width_state() == old(self).line_width_state(),
            final(self).color_state() == old(self).color_state(),
    {
        let color = color_into(style.color);
        let mut vertices: Vec<LineVertex> = Vec::new();
        vertices.push(
            LineVertex { x: from.0 as i64, y: from.1 as i64, width: style.stroke_width, color },
        );
        vertices.push(
            LineVertex { x: to.0 as i64, y: to.1 as i64, width: style.stroke_width, color },
        );
        let ghost strip = vertices@;
        let ghost before = self.records();
        self.draw_list.push(DrawRecord::Lines { vertices });
        proof {
            assert(strip =~= seq![vertex_of(from, *style), vertex_of(to, *style)]);
            assert(self.records() =~= before.push(line_record(from, to, *style)));
        }
        Ok(())
    }

    /// Draw a rectangle between two corners, filled or stroked. The
    /// engine's shared stroke width is set to the style's width before the
    /// record is emitted, for both variants. Extents are passed through
    /// signed: corners given in non-canonical order yield negative width
    /// or height.
    pub fn draw_rect(
        &mut self,
        upper_left: (i32, i32),
        bottom_right: (i32, i32),
        style: &Style,
        fill: bool,
    ) -> (res: Result<(), DrawError>)
        ensures
            res is Ok,
            final(self).records() == old(self).records().push(
                rect_record(upper_left, bottom_right, *style, fill),
            ),
            old(self).same_surface(*final(self)),
            final(self).line_width_state() == style.stroke_width,
            final(self).color_state() == old(self).color_state(),
    {
        let rect = RectGeom {
            x: upper_left.0 as i64,
            y: upper_left.1 as i64,
            width: bottom_right.0 as i64 - upper_left.0 as i64,
            height: bottom_right.1 as i64 - upper_left.1 as i64,
        };
        let color = color_into(style.color);
        self.line_width = style.stroke_width;
        let ghost before = self.records();
        let record = if fill {
            DrawRecord::FillRect { rect, color }
        } else {
            DrawRecord::StrokeRect { rect, line_width: style.stroke_width, color }
        };
        self.draw_list.push(record);
        proof {
            assert(self.records() =~= before.push(
                rect_record(upper_left, bottom_right, *style, fill),
            ));
        }
        Ok(())
    }

    /// Draw a polyline through the given points: appends one line-strip
    /// record with one vertex per point, in order, all carrying the
    /// style's width and converted color. An empty path appends an empty
    /// strip, which the engine treats as nothing to draw.
    pub fn draw_path(&mut self, path: &Vec<(i32, i32)>, style: &Style) -> (res: Result<
        (),
        DrawError,
    >)
        ensures
            res is Ok,
            final(self).records() == old(self).records().push(path_record(path@, *style)),
            old(self).same_surface(*final(self)),
            final(self).line_width_state() == old(self).line_width_state(),
            final(self).color_state() == old(self).color_state(),
    {
        let color = color_into(style.color);
        let mut vertices: Vec<LineVertex> = Vec::new();
        let mut i: usize = 0;
        while i < path.len()
            invariant
                i <= path.len(),
                color == convert_spec(style.color),
                vertices@.len() == i,
                forall|j: int| 0 <= j < i ==> vertices@[j] == vertex_of(path@[j], *style),
            decreases path.len() - i,
        {
            let point = path[i];
            vertices.push(
                LineVertex { x: point.0 as i64, y: point.1 as i64, width: style.stroke_width, color },
            );
            i = i + 1;
        }
        let ghost strip = vertices@;
        let ghost before = self.records();
        self.draw_list.push(DrawRecord::Lines { vertices });
        proof {
            assert(strip =~= path@.map_values(|p: (i32, i32)| vertex_of(p, *style)));
            assert(self.records() =~= before.push(path_record(path@, *style)));
        }
        Ok(())
    }

    /// Draw a circle, filled or stroked. The tessellation density scales
    /// with the radius and never falls below 10 segments. The engine's
    /// shared stroke width is set to the style's width before the record
    /// is emitted, for both variants.
    pub fn draw_circle(
        &mut self,
        center: (i32, i32),
        radius: u32,
        style: &Style,
        fill: bool,
    ) -> (res: Result<(), DrawError>)
        ensures
            res is Ok,
            final(self).records() == old(self).records().push(
                circle_record(center, radius, *style, fill),
            ),
            old(self).same_surface(*final(self)),
            final(self).line_width_state() == style.stroke_width,
            final(self).color_state() == old(self).color_state(),
    {
        let segments: u32 = if radius < 10 {
            10
        } else {
            radius
        };
        let circle = CircleGeom { x: center.0 as i64, y: center.1 as i64, radius, segments };
        let color = color_into(style.color);
        self.line_width = style.stroke_width;
        let ghost before = self.records();
        let record = if fill {
            DrawRecord::FillCircle { circle, color }
        } else {
            DrawRecord::StrokeCircle { circle, line_width: style.stroke_width, color }
        };
        self.draw_list.push(record);
        proof {
            assert(self.records() =~= before.push(circle_record(center, radius, *style, fill)));
        }
        Ok(())
    }

    /// Place a text run whose layout box has already been measured: apply
    /// the anchor offsets and the style's transform to the draw
    /// coordinate, and append one text record whose clipping box sits at
    /// the placed origin and spans the whole drawable surface. The
    /// engine's shared color is set for the record and reset to opaque
    /// white afterwards, since the engine carries text color as shared
    /// draw-list state.
    pub fn place_text(&mut self, text: &str, style: &TextStyle, pos: (i32, i32), layout: LayoutBox)
        ensures
            final(self).records() == old(self).records().push(
                text_record(old(self).size(), old(self).font(), text@, *style, pos, layout),
            ),
            old(self).same_surface(*final(self)),
            final(self).line_width_state() == old(self).line_width_state(),
            final(self).color_state() == opaque_white(),
    {
        let width: i64 = layout.max_x as i64 - layout.min_x as i64;
        let height: i64 = layout.max_y as i64 - layout.min_y as i64;
        let (dx, dy) = anchor_offsets(style, width, height);
        proof {
            lemma_anchor_offset_bounds(style.h_pos, width as int);
            lemma_anchor_offset_bounds_v(style.v_pos, height as int);
        }
        let anchored_x: i64 = pos.0 as i64 + dx - layout.min_x as i64;
        let anchored_y: i64 = pos.1 as i64 + dy - layout.min_y as i64;
        let (origin_x, origin_y): (i64, i64) = match style.transform {
            FontTransform::Identity => (anchored_x, anchored_y),
            FontTransform::Rotate90 => (-anchored_y, anchored_x),
            FontTransform::Rotate180 => (-anchored_x, -anchored_y),
            FontTransform::Rotate270 => (anchored_y, -anchored_x),
        };
        let bounds = RectGeom {
            x: origin_x,
            y: origin_y,
            width: self.width as i64,
            height: self.height as i64,
        };
        self.color = color_into(style.color);
        let ghost before = self.records();
        let record = DrawRecord::Text {
            content: text.to_owned(),
            font: self.font_id,
            scale: style.size,
            bounds,
            color: color_into(style.color),
        };
        self.draw_list.push(record);
        self.color = opaque_white_color();
        proof {
            assert(self.records() =~= before.push(
                text_record(old(self).size(), old(self).font(), text@, *style, pos, layout),
            ));
        }
    }

    /// Draw anchored text. A zero-alpha style short-circuits before any
    /// layout work: nothing is appended and the layout collaborator is
    /// never consulted, so invisible text can never surface a layout
    /// error. Otherwise the collaborator measures the text: a measurement
    /// failure is surfaced as a font-layout error with nothing appended,
    /// and a measured box is placed as exactly one text record (the exact
    /// placement, for each possible measurement, is [`Self::place_text`]'s
    /// contract).
    pub fn draw_text<L: LayoutService>(
        &mut self,
        text: &str,
        style: &TextStyle,
        pos: (i32, i32),
        layout: &L,
    ) -> (res: Result<(), DrawError>)
        ensures
            style.color.alpha == 0 ==> res is Ok && *final(self) == *old(self),
            style.color.alpha != 0 && res is Ok ==> ({
                &&& old(self).same_surface(*final(self))
                &&& final(self).line_width_state() == old(self).line_width_state()
                &&& final(self).color_state() == opaque_white()
                &&& exists|measured: LayoutBox|
                    final(self).records() == old(self).records().push(
                        text_record(old(self).size(), old(self).font(), text@, *style, pos, measured),
                    )
            }),
            style.color.alpha != 0 && res is Err ==> *final(self) == *old(self) && (res matches Err(
                DrawError::FontLayout(_),
            )),
    {
        if style.color.alpha == 0 {
            return Ok(());
        }
        match layout.layout_box(text, style) {
            Ok(measured) => {
                self.place_text(text, style, pos, measured);
                proof {
                    assert(self.records() == old(self).records().push(
                        text_record(old(self).size(), old(self).font(), text@, *style, pos, measured),
                    ));
                }
                Ok(())
            },
            Err(e) => Err(DrawError::FontLayout(e)),
        }
    }
}

/// The adapter state a resize leaves behind: the same adapter with the new
/// surface size.
pub closed spec fn resized(backend: SolsticeBackend, width: u32, height: u32) -> SolsticeBackend {
    SolsticeBackend { width, height, ..backend }
}

/// A resize followed by a size query reports exactly the size that was
/// set: whatever adapter state a resize leaves behind, `get_size` reads
/// the new width and height back from it.
pub proof fn lemma_resize_then_get_size(backend: SolsticeBackend, width: u32, height: u32)
    ensures
        resized(backend, width, height).size() == (width, height),
{
}

/// Two sequential line draws followed by a present submit exactly the two
/// line records, in call order: starting from an empty frame, the list a
/// present hands over after drawing `a`-`b` and then `c`-`d` has length
/// two, the first call's record first and the second call's record second.
pub proof fn lemma_two_lines_in_order(
    a: (i32, i32),
    b: (i32, i32),
    c: (i32, i32),
    d: (i32, i32),
    style: Style,
)
    ensures
        ({
            let submitted = Seq::<RecordModel>::empty().push(line_record(a, b, style)).push(
                line_record(c, d, style),
            );
            &&& submitted.len() == 2
            &&& submitted[0] == line_record(a, b, style)
            &&& submitted[1] == line_record(c, d, style)
        }),
{
}

/// Anchor offsets are bounded by the measured extent: the horizontal
/// offset lies between `-width` and `width` widened by zero.
proof fn lemma_anchor_offset_bounds(h: crate::style::HPos, width: int)
    ensures
        width >= 0 ==> -width <= anchor_dx(h, width) <= 0,
        width < 0 ==> 0 <= anchor_dx(h, width) <= -width,
{
    lemma_half_trunc_bounds(width);
}

/// Vertical counterpart of [`lemma_anchor_offset_bounds`].
proof fn lemma_anchor_offset_bounds_v(v: crate::style::VPos, height: int)
    ensures
        height >= 0 ==> -height <= anchor_dy(v, height) <= 0,
        height < 0 ==> 0 <= anchor_dy(v, height) <= -height,
{
    lemma_half_trunc_bounds(height);
}

/// Truncated halving never grows a value's magnitude.
proof fn lemma_half_trunc_bounds(v: int)
    ensures
        v >= 0 ==> 0 <= half_trunc(v) <= v,
        v < 0 ==> v <= half_trunc(v) <= 0,
{
}

} // verus!
