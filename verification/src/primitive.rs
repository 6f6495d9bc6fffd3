//! The primitives that can be drawn, and the properties they carry.

use vstd::prelude::*;
use crate::value::{Color, Point2, ZERO};

verus! {

/// Where a primitive stands.
#[derive(Clone, Copy, Debug, PartialEq, Eq, Structural)]
pub struct Position {
    pub x: u32,
    pub y: u32,
    pub z: u32,
}

/// The extent of a primitive along each axis, where one was given.
#[derive(Clone, Copy, Debug, PartialEq, Eq, Structural)]
pub struct Dimensions {
    pub x: Option<u32>,
    pub y: Option<u32>,
    pub z: Option<u32>,
}

/// What every polygon carries.
#[derive(Clone, Copy, Debug, PartialEq, Eq, Structural)]
pub struct PolygonInit {
    pub position: Position,
    pub color: Option<Color>,
    pub stroke_color: Option<Color>,
    pub no_fill: bool,
}

#[derive(Clone, Copy, Debug, PartialEq, Eq, Structural)]
pub struct Ellipse {
    pub dimensions: Dimensions,
    pub polygon: PolygonInit,
    pub resolution: Option<u32>,
}

#[derive(Clone, Copy, Debug, PartialEq, Eq, Structural)]
pub struct Rect {
    pub dimensions: Dimensions,
    pub polygon: PolygonInit,
}

#[derive(Clone, Copy, Debug, PartialEq, Eq, Structural)]
pub struct Quad {
    pub a: Point2,
    pub b: Point2,
    pub c: Point2,
    pub d: Point2,
    pub dimensions: Dimensions,
    pub polygon: PolygonInit,
}

/// Properties related to drawing a triangle.
#[derive(Clone, Copy, Debug, PartialEq, Eq, Structural)]
pub struct Tri {
    pub a: Point2,
    pub b: Point2,
    pub c: Point2,
    pub dimensions: Dimensions,
    pub polygon: PolygonInit,
}

#[derive(Clone, Copy, Debug, PartialEq, Eq, Structural)]
pub struct Line {
    pub start: Point2,
    pub end: Point2,
    pub position: Position,
    pub color: Option<Color>,
    pub weight: Option<u32>,
}

#[derive(Clone, Copy, Debug, PartialEq, Eq, Structural)]
pub struct Arrow {
    pub line: Line,
    pub head_length: Option<u32>,
    pub head_width: Option<u32>,
}

/// A path whose kind (fill or stroke) is not chosen yet.
#[derive(Clone, Copy, Debug, PartialEq, Eq, Structural)]
pub struct PathInit {
    pub position: Position,
    pub color: Option<Color>,
}

/// A stroked path.
#[derive(Clone, Copy, Debug, PartialEq, Eq, Structural)]
pub struct PathStroke {
    pub position: Position,
    pub color: Option<Color>,
    pub weight: Option<u32>,
}

/// A mesh that has no vertices yet.
#[derive(Clone, Copy, Debug, PartialEq, Eq, Structural)]
pub struct Vertexless {
    pub position: Position,
}

/// A run of text: the range of the session's text buffer that holds it.
#[derive(Clone, Copy, Debug, PartialEq, Eq, Structural)]
pub struct Text {
    pub start: usize,
    pub end: usize,
    pub position: Position,
    pub color: Option<Color>,
}

/// A textured rectangle, sized in pixels.
#[derive(Clone, Copy, Debug, PartialEq, Eq, Structural)]
pub struct Texture {
    pub handle: u128,
    pub width: u32,
    pub height: u32,
    pub position: Position,
}

/// Any primitive that a handle can draw.
#[derive(Clone, Copy, Debug, PartialEq, Eq, Structural)]
pub enum Primitive {
    Arrow(Arrow),
    Ellipse(Ellipse),
    Line(Line),
    MeshVertexless(Vertexless),
    PathInit(PathInit),
    PathStroke(PathStroke),
    PolygonInit(PolygonInit),
    Quad(Quad),
    Rect(Rect),
    Text(Text),
    Texture(Texture),
    Tri(Tri),
}

/// The bit pattern of `50.0`.
pub const FIFTY: u32 = 0x4248_0000;

/// The bit pattern of `-50.0`.
pub const MINUS_FIFTY: u32 = 0xC248_0000;

/// The bit pattern of `33.0`.
pub const THIRTY_THREE: u32 = 0x4204_0000;

/// The bit pattern of `-33.0`.
pub const MINUS_THIRTY_THREE: u32 = 0xC204_0000;

pub open spec fn spec_origin() -> Position {
    Position { x: ZERO, y: ZERO, z: ZERO }
}

pub open spec fn spec_no_dimensions() -> Dimensions {
    Dimensions { x: None, y: None, z: None }
}

pub open spec fn spec_plain_polygon() -> PolygonInit {
    PolygonInit { position: spec_origin(), color: None, stroke_color: None, no_fill: false }
}

pub open spec fn spec_point(x: u32, y: u32) -> Point2 {
    Point2 { x, y }
}

/// The triangle with the given corners and nothing else set.
pub open spec fn spec_tri_from(a: Point2, b: Point2, c: Point2) -> Tri {
    Tri { a, b, c, dimensions: spec_no_dimensions(), polygon: spec_plain_polygon() }
}

/// The triangle drawn when no corners are given: it points towards 0 radians.
pub open spec fn spec_default_tri() -> Tri {
    spec_tri_from(
        spec_point(MINUS_FIFTY, THIRTY_THREE),
        spec_point(FIFTY, ZERO),
        spec_point(MINUS_FIFTY, MINUS_THIRTY_THREE),
    )
}

impl Default for Position {
    fn default() -> (position: Position)
        ensures
            position == spec_origin(),
    {
        Position { x: ZERO, y: ZERO, z: ZERO }
    }
}

impl Default for Dimensions {
    fn default() -> (dimensions: Dimensions)
        ensures
            dimensions == spec_no_dimensions(),
    {
        Dimensions { x: None, y: None, z: None }
    }
}

impl Default for PolygonInit {
    fn default() -> (polygon: PolygonInit)
        ensures
            polygon == spec_plain_polygon(),
    {
        PolygonInit { position: Position::default(), color: None, stroke_color: None, no_fill: false }
    }
}

impl Tri {
    /// The triangle with the given corners and nothing else set.
    pub fn from(a: Point2, b: Point2, c: Point2) -> (tri: Tri)
        ensures
            tri == spec_tri_from(a, b, c),
    {
        Tri { a, b, c, dimensions: Dimensions::default(), polygon: PolygonInit::default() }
    }

    /// The triangle with its outline stroked in `color`.
    pub open spec fn spec_stroke(self, color: Color) -> Tri {
        Tri { polygon: PolygonInit { stroke_color: Some(color), ..self.polygon }, ..self }
    }

    /// The triangle with the corners `a`, `b` and `c`.
    pub open spec fn spec_points(self, a: Point2, b: Point2, c: Point2) -> Tri {
        Tri { a, b, c, ..self }
    }

    /// Stroke the outline with the given color.
    pub fn stroke(self, color: Color) -> (tri: Tri)
        ensures
            tri == self.spec_stroke(color),
    {
        let mut tri = self;
        tri.polygon.stroke_color = Some(color);
        tri
    }

    /// Use the given three points as the vertices (corners) of the triangle.
    pub fn points(self, a: Point2, b: Point2, c: Point2) -> (tri: Tri)
        ensures
            tri == self.spec_points(a, b, c),
    {
        let mut tri = self;
        tri.a = a;
        tri.b = b;
        tri.c = c;
        tri
    }
}

impl Default for Tri {
    fn default() -> (tri: Tri)
        ensures
            tri == spec_default_tri(),
    {
        let a = Point2 { x: MINUS_FIFTY, y: THIRTY_THREE };
        let b = Point2 { x: FIFTY, y: ZERO };
        let c = Point2 { x: MINUS_FIFTY, y: MINUS_THIRTY_THREE };
        Tri::from(a, b, c)
    }
}

pub open spec fn spec_plain_line() -> Line {
    Line {
        start: spec_point(ZERO, ZERO),
        end: spec_point(ZERO, ZERO),
        position: spec_origin(),
        color: None,
        weight: None,
    }
}

impl Primitive {
    /// The ellipse drawn when nothing is set.
    pub open spec fn spec_ellipse() -> Primitive {
        Primitive::Ellipse(
            Ellipse {
                dimensions: spec_no_dimensions(),
                polygon: spec_plain_polygon(),
                resolution: None,
            },
        )
    }

    /// The rectangle drawn when nothing is set.
    pub open spec fn spec_rect() -> Primitive {
        Primitive::Rect(Rect { dimensions: spec_no_dimensions(), polygon: spec_plain_polygon() })
    }

    /// The quad drawn when nothing is set.
    pub open spec fn spec_quad() -> Primitive {
        Primitive::Quad(
            Quad {
                a: spec_point(MINUS_FIFTY, FIFTY),
                b: spec_point(FIFTY, FIFTY),
                c: spec_point(FIFTY, MINUS_FIFTY),
                d: spec_point(MINUS_FIFTY, MINUS_FIFTY),
                dimensions: spec_no_dimensions(),
                polygon: spec_plain_polygon(),
            },
        )
    }

    /// The triangle drawn when nothing is set.
    pub open spec fn spec_tri() -> Primitive {
        Primitive::Tri(spec_default_tri())
    }

    /// The line drawn when nothing is set.
    pub open spec fn spec_line() -> Primitive {
        Primitive::Line(spec_plain_line())
    }

    /// The arrow drawn when nothing is set.
    pub open spec fn spec_arrow() -> Primitive {
        Primitive::Arrow(Arrow { line: spec_plain_line(), head_length: None, head_width: None })
    }

    /// The path drawn when nothing is set.
    pub open spec fn spec_path() -> Primitive {
        Primitive::PathInit(PathInit { position: spec_origin(), color: None })
    }

    /// The stroked path drawn when nothing is set.
    pub open spec fn spec_polyline() -> Primitive {
        Primitive::PathStroke(PathStroke { position: spec_origin(), color: None, weight: None })
    }

    /// The polygon drawn when nothing is set.
    pub open spec fn spec_polygon() -> Primitive {
        Primitive::PolygonInit(spec_plain_polygon())
    }

    /// The mesh drawn when nothing is set.
    pub open spec fn spec_mesh() -> Primitive {
        Primitive::MeshVertexless(Vertexless { position: spec_origin() })
    }

    /// The text that stands in the given range of the text buffer.
    pub open spec fn spec_text(start: usize, end: usize) -> Primitive {
        Primitive::Text(Text { start, end, position: spec_origin(), color: None })
    }

    /// The texture of the given size in pixels.
    pub open spec fn spec_texture(handle: u128, width: u32, height: u32) -> Primitive {
        Primitive::Texture(Texture { handle, width, height, position: spec_origin() })
    }

    pub fn ellipse() -> (primitive: Primitive)
        ensures
            primitive == Primitive::spec_ellipse(),
    {
        Primitive::Ellipse(
            Ellipse {
                dimensions: Dimensions::default(),
                polygon: PolygonInit::default(),
                resolution: None,
            },
        )
    }

    pub fn rect() -> (primitive: Primitive)
        ensures
            primitive == Primitive::spec_rect(),
    {
        Primitive::Rect(Rect { dimensions: Dimensions::default(), polygon: PolygonInit::default() })
    }

    pub fn quad() -> (primitive: Primitive)
        ensures
            primitive == Primitive::spec_quad(),
    {
        Primitive::Quad(
            Quad {
                a: Point2 { x: MINUS_FIFTY, y: FIFTY },
                b: Point2 { x: FIFTY, y: FIFTY },
                c: Point2 { x: FIFTY, y: MINUS_FIFTY },
                d: Point2 { x: MINUS_FIFTY, y: MINUS_FIFTY },
                dimensions: Dimensions::default(),
                polygon: PolygonInit::default(),
            },
        )
    }

    pub fn tri() -> (primitive: Primitive)
        ensures
            primitive == Primitive::spec_tri(),
    {
        Primitive::Tri(Tri::default())
    }

    pub fn line() -> (primitive: Primitive)
        ensures
            primitive == Primitive::spec_line(),
    {
        Primitive::Line(Primitive::plain_line())
    }

    pub fn arrow() -> (primitive: Primitive)
        ensures
            primitive == Primitive::spec_arrow(),
    {
        Primitive::Arrow(Arrow { line: Primitive::plain_line(), head_length: None, head_width: None })
    }

    pub fn path() -> (primitive: Primitive)
        ensures
            primitive == Primitive::spec_path(),
    {
        Primitive::PathInit(PathInit { position: Position::default(), color: None })
    }

    pub fn polyline() -> (primitive: Primitive)
        ensures
            primitive == Primitive::spec_polyline(),
    {
        Primitive::PathStroke(PathStroke { position: Position::default(), color: None, weight: None })
    }

    pub fn polygon() -> (primitive: Primitive)
        ensures
            primitive == Primitive::spec_polygon(),
    {
        Primitive::PolygonInit(PolygonInit::default())
    }

    pub fn mesh() -> (primitive: Primitive)
        ensures
            primitive == Primitive::spec_mesh(),
    {
        Primitive::MeshVertexless(Vertexless { position: Position::default() })
    }

    pub fn text(start: usize, end: usize) -> (primitive: Primitive)
        ensures
            primitive == Primitive::spec_text(start, end),
    {
        Primitive::Text(Text { start, end, position: Position::default(), color: None })
    }

    pub fn texture(handle: u128, width: u32, height: u32) -> (primitive: Primitive)
        ensures
            primitive == Primitive::spec_texture(handle, width, height),
    {
        Primitive::Texture(Texture { handle, width, height, position: Position::default() })
    }

    fn plain_line() -> (line: Line)
        ensures
            line == spec_plain_line(),
    {
        Line {
            start: Point2 { x: ZERO, y: ZERO },
            end: Point2 { x: ZERO, y: ZERO },
            position: Position::default(),
            color: None,
            weight: None,
        }
    }

    /// The triangle that this primitive is, if it is one.
    pub fn as_tri(self) -> (tri: Option<Tri>)
        ensures
            tri == (match self {
                Primitive::Tri(tri) => Some(tri),
                _ => None,
            }),
    {
        match self {
            Primitive::Tri(tri) => Some(tri),
            _ => None,
        }
    }

    /// Where the primitive stands.
    pub open spec fn spec_position(self) -> Position {
        match self {
            Primitive::Arrow(arrow) => arrow.line.position,
            Primitive::Ellipse(ellipse) => ellipse.polygon.position,
            Primitive::Line(line) => line.position,
            Primitive::MeshVertexless(mesh) => mesh.position,
            Primitive::PathInit(path) => path.position,
            Primitive::PathStroke(path) => path.position,
            Primitive::PolygonInit(polygon) => polygon.position,
            Primitive::Quad(quad) => quad.polygon.position,
            Primitive::Rect(rect) => rect.polygon.position,
            Primitive::Text(text) => text.position,
            Primitive::Texture(texture) => texture.position,
            Primitive::Tri(tri) => tri.polygon.position,
        }
    }

    /// The primitive moved to `position`, all else as it was.
    pub open spec fn spec_with_position(self, position: Position) -> Primitive {
        match self {
            Primitive::Arrow(arrow) => Primitive::Arrow(
                Arrow { line: Line { position, ..arrow.line }, ..arrow },
            ),
            Primitive::Ellipse(ellipse) => Primitive::Ellipse(
                Ellipse { polygon: PolygonInit { position, ..ellipse.polygon }, ..ellipse },
            ),
            Primitive::Line(line) => Primitive::Line(Line { position, ..line }),
            Primitive::MeshVertexless(mesh) => Primitive::MeshVertexless(Vertexless { position }),
            Primitive::PathInit(path) => Primitive::PathInit(PathInit { position, ..path }),
            Primitive::PathStroke(path) => Primitive::PathStroke(PathStroke { position, ..path }),
            Primitive::PolygonInit(polygon) => Primitive::PolygonInit(
                PolygonInit { position, ..polygon },
            ),
            Primitive::Quad(quad) => Primitive::Quad(
                Quad { polygon: PolygonInit { position, ..quad.polygon }, ..quad },
            ),
            Primitive::Rect(rect) => Primitive::Rect(
                Rect { polygon: PolygonInit { position, ..rect.polygon }, ..rect },
            ),
            Primitive::Text(text) => Primitive::Text(Text { position, ..text }),
            Primitive::Texture(texture) => Primitive::Texture(Texture { position, ..texture }),
            Primitive::Tri(tri) => Primitive::Tri(
                Tri { polygon: PolygonInit { position, ..tri.polygon }, ..tri },
            ),
        }
    }

    /// The fill colour that was set, if any. Meshes and textures carry none.
    pub open spec fn spec_color(self) -> Option<Color> {
        match self {
            Primitive::Arrow(arrow) => arrow.line.color,
            Primitive::Ellipse(ellipse) => ellipse.polygon.color,
            Primitive::Line(line) => line.color,
            Primitive::MeshVertexless(_) => None,
            Primitive::PathInit(path) => path.color,
            Primitive::PathStroke(path) => path.color,
            Primitive::PolygonInit(polygon) => polygon.color,
            Primitive::Quad(quad) => quad.polygon.color,
            Primitive::Rect(rect) => rect.polygon.color,
            Primitive::Text(text) => text.color,
            Primitive::Texture(_) => None,
            Primitive::Tri(tri) => tri.polygon.color,
        }
    }

    /// The primitive in the given colour, all else as it was. Meshes and
    /// textures carry no colour and stay as they are.
    pub open spec fn spec_with_color(self, color: Color) -> Primitive {
        let color = Some(color);
        match self {
            Primitive::Arrow(arrow) => Primitive::Arrow(
                Arrow { line: Line { color, ..arrow.line }, ..arrow },
            ),
            Primitive::Ellipse(ellipse) => Primitive::Ellipse(
                Ellipse { polygon: PolygonInit { color, ..ellipse.polygon }, ..ellipse },
            ),
            Primitive::Line(line) => Primitive::Line(Line { color, ..line }),
            Primitive::MeshVertexless(mesh) => self,
            Primitive::PathInit(path) => Primitive::PathInit(PathInit { color, ..path }),
            Primitive::PathStroke(path) => Primitive::PathStroke(PathStroke { color, ..path }),
            Primitive::PolygonInit(polygon) => Primitive::PolygonInit(
                PolygonInit { color, ..polygon },
            ),
            Primitive::Quad(quad) => Primitive::Quad(
                Quad { polygon: PolygonInit { color, ..quad.polygon }, ..quad },
            ),
            Primitive::Rect(rect) => Primitive::Rect(
                Rect { polygon: PolygonInit { color, ..rect.polygon }, ..rect },
            ),
            Primitive::Text(text) => Primitive::Text(Text { color, ..text }),
            Primitive::Texture(texture) => self,
            Primitive::Tri(tri) => Primitive::Tri(
                Tri { polygon: PolygonInit { color, ..tri.polygon }, ..tri },
            ),
        }
    }

    /// The extent that was set, for the primitives that have one.
    pub open spec fn spec_dimensions(self) -> Option<Dimensions> {
        match self {
            Primitive::Ellipse(ellipse) => Some(ellipse.dimensions),
            Primitive::Quad(quad) => Some(quad.dimensions),
            Primitive::Rect(rect) => Some(rect.dimensions),
            Primitive::Tri(tri) => Some(tri.dimensions),
            _ => None,
        }
    }

    /// The primitive with the given extent, all else as it was. A primitive
    /// that has no extent stays as it is.
    pub open spec fn spec_with_dimensions(self, dimensions: Dimensions) -> Primitive {
        match self {
            Primitive::Ellipse(ellipse) => Primitive::Ellipse(Ellipse { dimensions, ..ellipse }),
            Primitive::Quad(quad) => Primitive::Quad(Quad { dimensions, ..quad }),
            Primitive::Rect(rect) => Primitive::Rect(Rect { dimensions, ..rect }),
            Primitive::Tri(tri) => Primitive::Tri(Tri { dimensions, ..tri }),
            _ => self,
        }
    }

    /// Where the primitive stands.
    pub fn position(&self) -> (position: Position)
        ensures
            position == self.spec_position(),
    {
        match self {
            Primitive::Arrow(arrow) => arrow.line.position,
            Primitive::Ellipse(ellipse) => ellipse.polygon.position,
            Primitive::Line(line) => line.position,
            Primitive::MeshVertexless(mesh) => mesh.position,
            Primitive::PathInit(path) => path.position,
            Primitive::PathStroke(path) => path.position,
            Primitive::PolygonInit(polygon) => polygon.position,
            Primitive::Quad(quad) => quad.polygon.position,
            Primitive::Rect(rect) => rect.polygon.position,
            Primitive::Text(text) => text.position,
            Primitive::Texture(texture) => texture.position,
            Primitive::Tri(tri) => tri.polygon.position,
        }
    }

    /// Moves the primitive to `position`.
    pub fn with_position(self, position: Position) -> (primitive: Primitive)
        ensures
            primitive == self.spec_with_position(position),
    {
        match self {
            Primitive::Arrow(mut arrow) => {
                arrow.line.position = position;
                Primitive::Arrow(arrow)
            },
            Primitive::Ellipse(mut ellipse) => {
                ellipse.polygon.position = position;
                Primitive::Ellipse(ellipse)
            },
            Primitive::Line(mut line) => {
                line.position = position;
                Primitive::Line(line)
            },
            Primitive::MeshVertexless(mut mesh) => {
                mesh.position = position;
                Primitive::MeshVertexless(mesh)
            },
            Primitive::PathInit(mut path) => {
                path.position = position;
                Primitive::PathInit(path)
            },
            Primitive::PathStroke(mut path) => {
                path.position = position;
                Primitive::PathStroke(path)
            },
            Primitive::PolygonInit(mut polygon) => {
                polygon.position = position;
                Primitive::PolygonInit(polygon)
            },
            Primitive::Quad(mut quad) => {
                quad.polygon.position = position;
                Primitive::Quad(quad)
            },
            Primitive::Rect(mut rect) => {
                rect.polygon.position = position;
                Primitive::Rect(rect)
            },
            Primitive::Text(mut text) => {
                text.position = position;
                Primitive::Text(text)
            },
            Primitive::Texture(mut texture) => {
                texture.position = position;
                Primitive::Texture(texture)
            },
            Primitive::Tri(mut tri) => {
                tri.polygon.position = position;
                Primitive::Tri(tri)
            },
        }
    }

    /// The fill colour that was set, if any.
    pub fn color(&self) -> (color: Option<Color>)
        ensures
            color == self.spec_color(),
    {
        match self {
            Primitive::Arrow(arrow) => arrow.line.color,
            Primitive::Ellipse(ellipse) => ellipse.polygon.color,
            Primitive::Line(line) => line.color,
            Primitive::MeshVertexless(_) => None,
            Primitive::PathInit(path) => path.color,
            Primitive::PathStroke(path) => path.color,
            Primitive::PolygonInit(polygon) => polygon.color,
            Primitive::Quad(quad) => quad.polygon.color,
            Primitive::Rect(rect) => rect.polygon.color,
            Primitive::Text(text) => text.color,
            Primitive::Texture(_) => None,
            Primitive::Tri(tri) => tri.polygon.color,
        }
    }

    /// Gives the primitive the fill colour `color`.
    pub fn with_color(self, color: Color) -> (primitive: Primitive)
        ensures
            primitive == self.spec_with_color(color),
    {
        match self {
            Primitive::Arrow(mut arrow) => {
                arrow.line.color = Some(color);
                Primitive::Arrow(arrow)
            },
            Primitive::Ellipse(mut ellipse) => {
                ellipse.polygon.color = Some(color);
                Primitive::Ellipse(ellipse)
            },
            Primitive::Line(mut line) => {
                line.color = Some(color);
                Primitive::Line(line)
            },
            Primitive::PathInit(mut path) => {
                path.color = Some(color);
                Primitive::PathInit(path)
            },
            Primitive::PathStroke(mut path) => {
                path.color = Some(color);
                Primitive::PathStroke(path)
            },
            Primitive::PolygonInit(mut polygon) => {
                polygon.color = Some(color);
                Primitive::PolygonInit(polygon)
            },
            Primitive::Quad(mut quad) => {
                quad.polygon.color = Some(color);
                Primitive::Quad(quad)
            },
            Primitive::Rect(mut rect) => {
                rect.polygon.color = Some(color);
                Primitive::Rect(rect)
            },
            Primitive::Text(mut text) => {
                text.color = Some(color);
                Primitive::Text(text)
            },
            Primitive::Tri(mut tri) => {
                tri.polygon.color = Some(color);
                Primitive::Tri(tri)
            },
            Primitive::MeshVertexless(_) => self,
            Primitive::Texture(_) => self,
        }
    }

    /// The extent that was set, for the primitives that have one.
    pub fn dimensions(&self) -> (dimensions: Option<Dimensions>)
        ensures
            dimensions == self.spec_dimensions(),
    {
        match self {
            Primitive::Ellipse(ellipse) => Some(ellipse.dimensions),
            Primitive::Quad(quad) => Some(quad.dimensions),
            Primitive::Rect(rect) => Some(rect.dimensions),
            Primitive::Tri(tri) => Some(tri.dimensions),
            _ => None,
        }
    }

    /// Gives the primitive the extent `dimensions`.
    pub fn with_dimensions(self, dimensions: Dimensions) -> (primitive: Primitive)
        ensures
            primitive == self.spec_with_dimensions(dimensions),
    {
        match self {
            Primitive::Ellipse(mut ellipse) => {
                ellipse.dimensions = dimensions;
                Primitive::Ellipse(ellipse)
            },
            Primitive::Quad(mut quad) => {
                quad.dimensions = dimensions;
                Primitive::Quad(quad)
            },
            Primitive::Rect(mut rect) => {
                rect.dimensions = dimensions;
                Primitive::Rect(rect)
            },
            Primitive::Tri(mut tri) => {
                tri.dimensions = dimensions;
                Primitive::Tri(tri)
            },
            _ => self,
        }
    }
}

/// A kind of primitive: a value that a handle can start drawing, and that
/// stands in a `Primitive` as one of its variants.
pub trait Kind: Sized {
    /// The primitive that holds this value.
    spec fn spec_primitive(self) -> Primitive;

    /// The primitive that holds this value.
    fn into_primitive(self) -> (primitive: Primitive)
        ensures
            primitive == self.spec_primitive(),
    ;
}

impl Kind for Arrow {
    open spec fn spec_primitive(self) -> Primitive {
        Primitive::Arrow(self)
    }

    fn into_primitive(self) -> (primitive: Primitive) {
        Primitive::Arrow(self)
    }
}

impl Kind for Ellipse {
    open spec fn spec_primitive(self) -> Primitive {
        Primitive::Ellipse(self)
    }

    fn into_primitive(self) -> (primitive: Primitive) {
        Primitive::Ellipse(self)
    }
}

impl Kind for Line {
    open spec fn spec_primitive(self) -> Primitive {
        Primitive::Line(self)
    }

    fn into_primitive(self) -> (primitive: Primitive) {
        Primitive::Line(self)
    }
}

impl Kind for Vertexless {
    open spec fn spec_primitive(self) -> Primitive {
        Primitive::MeshVertexless(self)
    }

    fn into_primitive(self) -> (primitive: Primitive) {
        Primitive::MeshVertexless(self)
    }
}

impl Kind for PathInit {
    open spec fn spec_primitive(self) -> Primitive {
        Primitive::PathInit(self)
    }

    fn into_primitive(self) -> (primitive: Primitive) {
        Primitive::PathInit(self)
    }
}

impl Kind for PathStroke {
    open spec fn spec_primitive(self) -> Primitive {
        Primitive::PathStroke(self)
    }

    fn into_primitive(self) -> (primitive: Primitive) {
        Primitive::PathStroke(self)
    }
}

impl Kind for PolygonInit {
    open spec fn spec_primitive(self) -> Primitive {
        Primitive::PolygonInit(self)
    }

    fn into_primitive(self) -> (primitive: Primitive) {
        Primitive::PolygonInit(self)
    }
}

impl Kind for Quad {
    open spec fn spec_primitive(self) -> Primitive {
        Primitive::Quad(self)
    }

    fn into_primitive(self) -> (primitive: Primitive) {
        Primitive::Quad(self)
    }
}

impl Kind for Rect {
    open spec fn spec_primitive(self) -> Primitive {
        Primitive::Rect(self)
    }

    fn into_primitive(self) -> (primitive: Primitive) {
        Primitive::Rect(self)
    }
}

impl Kind for Text {
    open spec fn spec_primitive(self) -> Primitive {
        Primitive::Text(self)
    }

    fn into_primitive(self) -> (primitive: Primitive) {
        Primitive::Text(self)
    }
}

impl Kind for Texture {
    open spec fn spec_primitive(self) -> Primitive {
        Primitive::Texture(self)
    }

    fn into_primitive(self) -> (primitive: Primitive) {
        Primitive::Texture(self)
    }
}

impl Kind for Tri {
    open spec fn spec_primitive(self) -> Primitive {
        Primitive::Tri(self)
    }

    fn into_primitive(self) -> (primitive: Primitive) {
        Primitive::Tri(self)
    }
}

impl Default for Arrow {
    fn default() -> (value: Arrow)
        ensures
            Primitive::Arrow(value) == Primitive::spec_arrow(),
    {
        Arrow { line: Primitive::plain_line(), head_length: None, head_width: None }
    }
}

impl Default for Ellipse {
    fn default() -> (value: Ellipse)
        ensures
            Primitive::Ellipse(value) == Primitive::spec_ellipse(),
    {
        Ellipse {
            dimensions: Dimensions::default(),
            polygon: PolygonInit::default(),
            resolution: None,
        }
    }
}

impl Default for Line {
    fn default() -> (value: Line)
        ensures
            Primitive::Line(value) == Primitive::spec_line(),
    {
        Primitive::plain_line()
    }
}

impl Default for Vertexless {
    fn default() -> (value: Vertexless)
        ensures
            Primitive::MeshVertexless(value) == Primitive::spec_mesh(),
    {
        Vertexless { position: Position::default() }
    }
}

impl Default for PathInit {
    fn default() -> (value: PathInit)
        ensures
            Primitive::PathInit(value) == Primitive::spec_path(),
    {
        PathInit { position: Position::default(), color: None }
    }
}

impl Default for PathStroke {
    fn default() -> (value: PathStroke)
        ensures
            Primitive::PathStroke(value) == Primitive::spec_polyline(),
    {
        PathStroke { position: Position::default(), color: None, weight: None }
    }
}

impl Default for Quad {
    fn default() -> (value: Quad)
        ensures
            Primitive::Quad(value) == Primitive::spec_quad(),
    {
        Quad {
            a: Point2 { x: MINUS_FIFTY, y: FIFTY },
            b: Point2 { x: FIFTY, y: FIFTY },
            c: Point2 { x: FIFTY, y: MINUS_FIFTY },
            d: Point2 { x: MINUS_FIFTY, y: MINUS_FIFTY },
            dimensions: Dimensions::default(),
            polygon: PolygonInit::default(),
        }
    }
}

impl Default for Rect {
    fn default() -> (value: Rect)
        ensures
            Primitive::Rect(value) == Primitive::spec_rect(),
    {
        Rect { dimensions: Dimensions::default(), polygon: PolygonInit::default() }
    }
}

impl Text {
    /// The text that stands in the given range of the text buffer.
    pub fn new(start: usize, end: usize) -> (text: Text)
        ensures
            Primitive::Text(text) == Primitive::spec_text(start, end),
    {
        Text { start, end, position: Position::default(), color: None }
    }
}

impl Texture {
    /// The texture of the given size in pixels.
    pub fn new(handle: u128, width: u32, height: u32) -> (texture: Texture)
        ensures
            Primitive::Texture(texture) == Primitive::spec_texture(handle, width, height),
    {
        Texture { handle, width, height, position: Position::default() }
    }
}

} // verus!
