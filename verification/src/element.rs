//! The elements of a drawing as the editor core sees them: four kinds that
//! share an id, a transform, bounds and a few flags, and the plain data that
//! describes how each is drawn.
use crate::geometry::{BoundingBox, Point};
use crate::scalar::Scalar;
use crate::transform::Transform;
use vstd::prelude::*;

verus! {

#[derive(Debug, Clone, PartialEq)]
pub struct BezierCurve {
    pub start: Point,
    pub control1: Point,
    pub control2: Point,
    pub end: Point,
}

#[derive(Debug, Clone, PartialEq)]
pub enum PathSegment {
    Move { point: Point },
    Line { point: Point },
    Curve { curve: BezierCurve },
    Arc { center: Point, radius: Scalar, start_angle: Scalar, end_angle: Scalar, clockwise: bool },
    Close,
}

#[derive(Debug, Clone, PartialEq)]
pub struct VectorPath {
    pub id: String,
    pub segments: Vec<PathSegment>,
    pub closed: bool,
    pub fill_color: Option<String>,
    pub stroke_color: Option<String>,
    pub stroke_width: Option<Scalar>,
    pub opacity: Option<Scalar>,
}

/// Whether the character is a digit or one of the letters `a` to `f`.
pub open spec fn is_lower_hex(c: char) -> bool {
    ('0' as u32 <= c as u32 <= '9' as u32) || ('a' as u32 <= c as u32 <= 'f' as u32)
}

/// Whether the text is a random (version 4) UUID in its usual form: 32
/// lower-case hexadecimal digits in groups of 8, 4, 4, 4 and 12 with a hyphen
/// between them, of which the first digit of the third group is `4` and the
/// first of the fourth is one of `8`, `9`, `a` and `b`.
pub open spec fn is_uuid_v4_text(text: Seq<char>) -> bool {
    &&& text.len() == 36
    &&& forall|i: int|
        0 <= i < 36 ==> if i == 8 || i == 13 || i == 18 || i == 23 {
            #[trigger] text[i] == '-'
        } else {
            is_lower_hex(text[i])
        }
    &&& text[14] == '4'
    &&& (text[19] == '8' || text[19] == '9' || text[19] == 'a' || text[19] == 'b')
}

/// `uuid::Uuid::new_v4`, written out as text by the id's `Display`: a fresh
/// random identifier. Which one is left open, since every call draws new
/// random bits; its form is not: `new_v4` fixes the version and variant bits,
/// and `Display` writes the hyphenated lower-case form.
#[verifier::external_body]
fn fresh_id() -> (id: String)
    ensures
        is_uuid_v4_text(id@),
{
    uuid::Uuid::new_v4().to_string()
}

impl VectorPath {
    /// An open path without segments or paint, under a fresh random id.
    pub fn new() -> (path: VectorPath)
        ensures
            is_uuid_v4_text(path.id@),
            path.segments@.len() == 0,
            !path.closed,
            path.fill_color is None,
            path.stroke_color is None,
            path.stroke_width is None,
            path.opacity is None,
    {
        VectorPath {
            id: fresh_id(),
            segments: Vec::new(),
            closed: false,
            fill_color: None,
            stroke_color: None,
            stroke_width: None,
            opacity: None,
        }
    }
}

#[derive(Debug, Clone, PartialEq)]
pub enum GradientType {
    Linear,
    Radial,
}

#[derive(Debug, Clone, PartialEq)]
pub enum PatternRepeat {
    Repeat,
    NoRepeat,
    RepeatX,
    RepeatY,
}

#[derive(Debug, Clone, PartialEq)]
pub struct ColorStop {
    pub offset: Scalar,
    pub color: String,
}

#[derive(Debug, Clone, PartialEq)]
pub enum FillType {
    Solid { color: String },
    Gradient { gradient_type: GradientType, stops: Vec<ColorStop>, angle: Option<Scalar> },
    Pattern { url: String, repeat: PatternRepeat },
}

#[derive(Debug, Clone, PartialEq)]
pub enum LineCap {
    Butt,
    Round,
    Square,
}

#[derive(Debug, Clone, PartialEq)]
pub enum LineJoin {
    Miter,
    Round,
    Bevel,
}

#[derive(Debug, Clone, PartialEq)]
pub struct Stroke {
    pub color: String,
    pub width: Scalar,
    pub dash_array: Option<Vec<Scalar>>,
    pub line_cap: LineCap,
    pub line_join: LineJoin,
}

#[derive(Debug, Clone, PartialEq)]
pub struct Shadow {
    pub offset_x: Scalar,
    pub offset_y: Scalar,
    pub blur: Scalar,
    pub color: String,
}

#[derive(Debug, Clone, PartialEq)]
pub struct Style {
    pub fill: Option<FillType>,
    pub stroke: Option<Stroke>,
    pub shadow: Option<Shadow>,
    pub opacity: Option<Scalar>,
}

#[derive(Debug, Clone, PartialEq)]
pub enum VectorShape {
    Rectangle { width: Scalar, height: Scalar },
    Circle { radius: Scalar },
    Ellipse { radius_x: Scalar, radius_y: Scalar },
    Polygon { points: Vec<Point> },
    Star { sides: u32, outer_radius: Scalar, inner_radius: Scalar },
}

#[derive(Debug, Clone, PartialEq)]
pub enum FontWeight {
    Normal,
    Bold,
    W100,
    W200,
    W300,
    W400,
    W500,
    W600,
    W700,
    W800,
    W900,
}

#[derive(Debug, Clone, PartialEq)]
pub enum FontStyle {
    Normal,
    Italic,
}

#[derive(Debug, Clone, PartialEq)]
pub enum TextAlign {
    Left,
    Center,
    Right,
    Justify,
}

#[derive(Debug, Clone, PartialEq)]
pub struct VectorText {
    pub content: String,
    pub font_family: String,
    pub font_size: Scalar,
    pub font_weight: FontWeight,
    pub font_style: FontStyle,
    pub text_align: TextAlign,
    pub letter_spacing: Scalar,
    pub line_height: Scalar,
    pub path: Option<VectorPath>,
}

/// The elements that are selected, with the box around them.
#[derive(Debug, Clone, PartialEq)]
pub struct Selection {
    pub elements: Vec<String>,
    pub bounds: BoundingBox,
    pub transform: Transform,
}

/// The grid: whether it shows, how wide its cells are, how it is painted and
/// whether points snap to it.
#[derive(Debug, Clone, PartialEq)]
pub struct GridSettings {
    pub enabled: bool,
    pub size: Scalar,
    pub color: String,
    pub opacity: Scalar,
    pub snap: bool,
}

#[derive(Debug, Clone, PartialEq)]
pub struct CollaborationCursor {
    pub user_id: String,
    pub user_name: String,
    pub color: String,
    pub position: Point,
    pub tool: String,
}

/// An element of the drawing. Whatever its kind, it has an id, a transform,
/// a style, bounds, two flags, a stacking index and maybe a parent.
#[derive(Debug, Clone, PartialEq)]
pub enum VectorElement {
    Path {
        id: String,
        transform: Transform,
        style: Style,
        bounding_box: BoundingBox,
        visible: bool,
        locked: bool,
        z_index: i32,
        path: VectorPath,
        parent: Option<String>,
    },
    Shape {
        id: String,
        transform: Transform,
        style: Style,
        bounding_box: BoundingBox,
        visible: bool,
        locked: bool,
        z_index: i32,
        shape: VectorShape,
        parent: Option<String>,
    },
    Text {
        id: String,
        transform: Transform,
        style: Style,
        bounding_box: BoundingBox,
        visible: bool,
        locked: bool,
        z_index: i32,
        text: VectorText,
        parent: Option<String>,
    },
    Group {
        id: String,
        transform: Transform,
        style: Style,
        bounding_box: BoundingBox,
        visible: bool,
        locked: bool,
        z_index: i32,
        children: Vec<String>,
        parent: Option<String>,
    },
}

impl VectorElement {
    /// The id of the element.
    pub open spec fn id_of(self) -> String {
        match self {
            VectorElement::Path { id, .. } => id,
            VectorElement::Shape { id, .. } => id,
            VectorElement::Text { id, .. } => id,
            VectorElement::Group { id, .. } => id,
        }
    }

    /// The transform of the element.
    pub open spec fn transform_of(self) -> Transform {
        match self {
            VectorElement::Path { transform, .. } => transform,
            VectorElement::Shape { transform, .. } => transform,
            VectorElement::Text { transform, .. } => transform,
            VectorElement::Group { transform, .. } => transform,
        }
    }

    /// The bounds of the element.
    pub open spec fn bounds_of(self) -> BoundingBox {
        match self {
            VectorElement::Path { bounding_box, .. } => bounding_box,
            VectorElement::Shape { bounding_box, .. } => bounding_box,
            VectorElement::Text { bounding_box, .. } => bounding_box,
            VectorElement::Group { bounding_box, .. } => bounding_box,
        }
    }

    /// Whether the element is shown.
    pub open spec fn visible_of(self) -> bool {
        match self {
            VectorElement::Path { visible, .. } => visible,
            VectorElement::Shape { visible, .. } => visible,
            VectorElement::Text { visible, .. } => visible,
            VectorElement::Group { visible, .. } => visible,
        }
    }

    /// Whether the element is locked against editing.
    pub open spec fn locked_of(self) -> bool {
        match self {
            VectorElement::Path { locked, .. } => locked,
            VectorElement::Shape { locked, .. } => locked,
            VectorElement::Text { locked, .. } => locked,
            VectorElement::Group { locked, .. } => locked,
        }
    }

    /// The same element with another transform and other bounds.
    pub open spec fn placed(self, to: Transform, within: BoundingBox) -> VectorElement {
        match self {
            VectorElement::Path {
                id,
                transform,
                style,
                bounding_box,
                visible,
                locked,
                z_index,
                path,
                parent,
            } => VectorElement::Path {
                id,
                transform: to,
                style,
                bounding_box: within,
                visible,
                locked,
                z_index,
                path,
                parent,
            },
            VectorElement::Shape {
                id,
                transform,
                style,
                bounding_box,
                visible,
                locked,
                z_index,
                shape,
                parent,
            } => VectorElement::Shape {
                id,
                transform: to,
                style,
                bounding_box: within,
                visible,
                locked,
                z_index,
                shape,
                parent,
            },
            VectorElement::Text {
                id,
                transform,
                style,
                bounding_box,
                visible,
                locked,
                z_index,
                text,
                parent,
            } => VectorElement::Text {
                id,
                transform: to,
                style,
                bounding_box: within,
                visible,
                locked,
                z_index,
                text,
                parent,
            },
            VectorElement::Group {
                id,
                transform,
                style,
                bounding_box,
                visible,
                locked,
                z_index,
                children,
                parent,
            } => VectorElement::Group {
                id,
                transform: to,
                style,
                bounding_box: within,
                visible,
                locked,
                z_index,
                children,
                parent,
            },
        }
    }

    pub fn id(&self) -> (r: &str)
        ensures
            r@ == self.id_of()@,
    {
        match self {
            VectorElement::Path { id, .. } => id.as_str(),
            VectorElement::Shape { id, .. } => id.as_str(),
            VectorElement::Text { id, .. } => id.as_str(),
            VectorElement::Group { id, .. } => id.as_str(),
        }
    }

    pub fn transform(&self) -> (r: &Transform)
        ensures
            *r == self.transform_of(),
    {
        match self {
            VectorElement::Path { transform, .. } => transform,
            VectorElement::Shape { transform, .. } => transform,
            VectorElement::Text { transform, .. } => transform,
            VectorElement::Group { transform, .. } => transform,
        }
    }

    pub fn bounding_box(&self) -> (r: &BoundingBox)
        ensures
            *r == self.bounds_of(),
    {
        match self {
            VectorElement::Path { bounding_box, .. } => bounding_box,
            VectorElement::Shape { bounding_box, .. } => bounding_box,
            VectorElement::Text { bounding_box, .. } => bounding_box,
            VectorElement::Group { bounding_box, .. } => bounding_box,
        }
    }

    pub fn is_visible(&self) -> (r: bool)
        ensures
            r == self.visible_of(),
    {
        match self {
            VectorElement::Path { visible, .. } => *visible,
            VectorElement::Shape { visible, .. } => *visible,
            VectorElement::Text { visible, .. } => *visible,
            VectorElement::Group { visible, .. } => *visible,
        }
    }

    pub fn is_locked(&self) -> (r: bool)
        ensures
            r == self.locked_of(),
    {
        match self {
            VectorElement::Path { locked, .. } => *locked,
            VectorElement::Shape { locked, .. } => *locked,
            VectorElement::Text { locked, .. } => *locked,
            VectorElement::Group { locked, .. } => *locked,
        }
    }

    /// The same element with another transform and other bounds.
    pub fn with_placement(self, to: Transform, within: BoundingBox) -> (r: VectorElement)
        ensures
            r == self.placed(to, within),
    {
        match self {
            VectorElement::Path {
                id,
                transform: _,
                style,
                bounding_box: _,
                visible,
                locked,
                z_index,
                path,
                parent,
            } => VectorElement::Path {
                id,
                transform: to,
                style,
                bounding_box: within,
                visible,
                locked,
                z_index,
                path,
                parent,
            },
            VectorElement::Shape {
                id,
                transform: _,
                style,
                bounding_box: _,
                visible,
                locked,
                z_index,
                shape,
                parent,
            } => VectorElement::Shape {
                id,
                transform: to,
                style,
                bounding_box: within,
                visible,
                locked,
                z_index,
                shape,
                parent,
            },
            VectorElement::Text {
                id,
                transform: _,
                style,
                bounding_box: _,
                visible,
                locked,
                z_index,
                text,
                parent,
            } => VectorElement::Text {
                id,
                transform: to,
                style,
                bounding_box: within,
                visible,
                locked,
                z_index,
                text,
                parent,
            },
            VectorElement::Group {
                id,
                transform: _,
                style,
                bounding_box: _,
                visible,
                locked,
                z_index,
                children,
                parent,
            } => VectorElement::Group {
                id,
                transform: to,
                style,
                bounding_box: within,
                visible,
                locked,
                z_index,
                children,
                parent,
            },
        }
    }
}

} // verus!
