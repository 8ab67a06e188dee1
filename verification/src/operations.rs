use vstd::prelude::*;

use crate::colour::Colour;
use crate::geometry::{Ellipse, Point, Rectangle};
use crate::tool::Tool;

verus! {

/// An operation the user performed on the screenshot. `C` is the coordinate type and `F`
/// the font description used to lay out text.
#[derive(Debug)]
pub enum Operation<C, F> {
    Crop(Rectangle<C>),
    Blur { rect: Rectangle<C>, radius: C },
    Pixelate { rect: Rectangle<C>, seed: u64 },
    DrawLine { start: Point<C>, end: Point<C>, colour: Colour, line_width: C },
    DrawRectangle { rect: Rectangle<C>, border: Colour, fill: Colour, line_width: C },
    Text { top_left: Point<C>, text: String, colour: Colour, font_description: F },
    DrawArrow { start: Point<C>, end: Point<C>, colour: Colour, line_width: C },
    Highlight { rect: Rectangle<C> },
    DrawEllipse { ellipse: Ellipse<C>, border: Colour, fill: Colour, line_width: C },
    Bubble {
        centre: Point<C>,
        bubble_colour: Colour,
        text_colour: Colour,
        number: i32,
        font_description: F,
    },
    Pencil { start: Point<C>, points: Vec<Point<C>>, colour: Colour, line_width: C },
}

/// Text entered by the user, with the font and colour to draw it in.
#[derive(Debug)]
pub struct Text<F> {
    pub string: String,
    pub font_description: F,
    pub colour: Colour,
}

/// The sizes new operations start with. The editor uses a line width of 4, a one-pixel
/// extent for shapes, an empty extent for crop selections and a blur radius of 5.
#[derive(Clone, Copy, Debug)]
pub struct Measures<C> {
    pub line_width: C,
    pub unit_extent: C,
    pub empty_extent: C,
    pub blur_radius: C,
}

/// Whether `op` is what the `tool` starts with at `start`. Pixelation seeds are random,
/// so any seed qualifies.
pub open spec fn is_default_operation<C, F>(
    op: Operation<C, F>,
    tool: Tool,
    start: Point<C>,
    bubble_number: i32,
    primary: Colour,
    secondary: Colour,
    line_width: C,
    measures: Measures<C>,
    font: F,
) -> bool {
    let rect = Rectangle { x: start.x, y: start.y, w: measures.unit_extent, h: measures.unit_extent };
    match tool {
        Tool::CropAndSave | Tool::Crop => op == Operation::<C, F>::Crop(
            Rectangle { x: start.x, y: start.y, w: measures.empty_extent, h: measures.empty_extent },
        ),
        Tool::Line => op == Operation::<C, F>::DrawLine {
            start,
            end: start,
            colour: secondary,
            line_width,
        },
        Tool::Arrow => op == Operation::<C, F>::DrawArrow {
            start,
            end: start,
            colour: secondary,
            line_width,
        },
        Tool::Rectangle => op == Operation::<C, F>::DrawRectangle {
            rect,
            border: secondary,
            fill: primary,
            line_width,
        },
        Tool::Ellipse => op == Operation::<C, F>::DrawEllipse {
            ellipse: Ellipse {
                x: start.x,
                y: start.y,
                w: measures.unit_extent,
                h: measures.unit_extent,
            },
            border: secondary,
            fill: primary,
            line_width,
        },
        Tool::Highlight => op == Operation::<C, F>::Highlight { rect },
        Tool::Pixelate => op matches Operation::Pixelate { rect: r, .. } && r == rect,
        Tool::Blur => op == Operation::<C, F>::Blur { rect, radius: measures.blur_radius },
        Tool::AutoincrementBubble => op == Operation::<C, F>::Bubble {
            centre: start,
            bubble_colour: primary,
            text_colour: secondary,
            number: bubble_number,
            font_description: font,
        },
        // The secondary colour is used for text, as the primary one is more likely to be
        // transparent and is the one that fills rectangles and ellipses.
        Tool::Text => op matches Operation::Text { top_left, text, colour, font_description }
            && top_left == start && text@ == Seq::<char>::empty() && colour == secondary
            && font_description == font,
        Tool::Pencil => op matches Operation::Pencil { start: s, points, colour, line_width: lw }
            && s == start && points@ == Seq::<Point<C>>::empty() && colour == secondary && lw
            == line_width,
        Tool::Save => false,
    }
}

/// The text operation with `text` applied; any other operation unchanged.
pub open spec fn with_text<C, F>(op: Operation<C, F>, text: Text<F>) -> Operation<C, F> {
    match op {
        Operation::Text { top_left, .. } => Operation::Text {
            top_left,
            text: text.string,
            colour: text.colour,
            font_description: text.font_description,
        },
        _ => op,
    }
}

/// What drawing an operation puts on the image, shape by shape; the text of a text
/// operation and the points of a pencil stroke are drawn from the operation itself.
#[derive(Clone, Copy, Debug)]
pub enum Paint<C> {
    Nothing,
    /// The outline of a crop selection, two units wide, dashed or not.
    CropOutline { rect: Rectangle<C>, colour: Colour, dashed: bool },
    Blur { rect: Rectangle<C>, radius: C },
    Pixelate { rect: Rectangle<C>, seed: u64 },
    Line { start: Point<C>, end: Point<C>, colour: Colour, line_width: C },
    Arrow { start: Point<C>, end: Point<C>, colour: Colour, line_width: C },
    Rectangle { rect: Rectangle<C>, border: Colour, fill: Colour, line_width: C },
    Ellipse { ellipse: Ellipse<C>, border: Colour, fill: Colour, line_width: C },
    Text { top_left: Point<C>, colour: Colour },
    /// A numbered bubble: a disc around `centre` and its number, centred.
    Bubble { centre: Point<C>, border: Colour, fill: Colour, line_width: C, text_colour: Colour, number: i32 },
    Pencil { start: Point<C>, colour: Colour, line_width: C },
}

/// The colour that highlights a region: a translucent yellow.
pub open spec fn highlight_colour() -> Colour {
    Colour { red: 255, green: 255, blue: 0, alpha: 63 }
}

/// A fully transparent colour.
pub open spec fn invisible() -> Colour {
    Colour { red: 0, green: 0, blue: 0, alpha: 0 }
}

/// The colour of the outline of a crop selection.
pub open spec fn crop_outline_colour() -> Colour {
    Colour { red: 0, green: 127, blue: 190, alpha: 255 }
}

/// What drawing `op` paints. A crop only shows its outline while the editor draws for the
/// user (`is_in_draw_event`), as saving crops instead; a highlight is a rectangle filled
/// with the highlight colour and no visible border; a bubble has no visible border.
/// `unit` is the width of one pixel.
pub open spec fn paint_of<C, F>(op: Operation<C, F>, is_in_draw_event: bool, dashed: bool, unit: C) -> Paint<C> {
    match op {
        Operation::Crop(rect) => if is_in_draw_event {
            Paint::CropOutline { rect, colour: crop_outline_colour(), dashed }
        } else {
            Paint::Nothing
        },
        Operation::Blur { rect, radius } => Paint::Blur { rect, radius },
        Operation::Pixelate { rect, seed } => Paint::Pixelate { rect, seed },
        Operation::DrawLine { start, end, colour, line_width } => Paint::Line { start, end, colour, line_width },
        Operation::DrawArrow { start, end, colour, line_width } => Paint::Arrow { start, end, colour, line_width },
        Operation::DrawRectangle { rect, border, fill, line_width } => Paint::Rectangle { rect, border, fill, line_width },
        Operation::Highlight { rect } => Paint::Rectangle {
            rect,
            border: invisible(),
            fill: highlight_colour(),
            line_width: unit,
        },
        Operation::DrawEllipse { ellipse, border, fill, line_width } => Paint::Ellipse { ellipse, border, fill, line_width },
        Operation::Text { top_left, colour, .. } => Paint::Text { top_left, colour },
        Operation::Bubble { centre, bubble_colour, text_colour, number, .. } => Paint::Bubble {
            centre,
            border: invisible(),
            fill: bubble_colour,
            line_width: unit,
            text_colour,
            number,
        },
        Operation::Pencil { start, colour, line_width, .. } => Paint::Pencil { start, colour, line_width },
    }
}

/// `rand::Rng::gen` on `rand::thread_rng()`: a random seed for the pixelation of a new
/// operation. Nothing is stated of its value, which is random.
#[verifier::external_body]
fn random_seed() -> u64 {
    rand::Rng::gen(&mut rand::thread_rng())
}

impl<C: Copy, F> Operation<C, F> {
    /// The operation a `tool` starts with when the user presses at `start`. Bubbles take the
    /// next number, which is then advanced.
    pub(crate) fn create_default_for_tool(
        tool: Tool,
        start: Point<C>,
        bubble_index: &mut i32,
        primary_colour: Colour,
        secondary_colour: Colour,
        line_width: C,
        measures: Measures<C>,
        font_description: F,
    ) -> (op: Self)
        requires
            tool != Tool::Save,
            tool == Tool::AutoincrementBubble ==> *old(bubble_index) < i32::MAX,
        ensures
            is_default_operation(
                op,
                tool,
                start,
                *old(bubble_index),
                primary_colour,
                secondary_colour,
                line_width,
                measures,
                font_description,
            ),
            *final(bubble_index) == if tool == Tool::AutoincrementBubble {
                *old(bubble_index) + 1
            } else {
                *old(bubble_index) as int
            },
    {
        let rect = Rectangle { x: start.x, y: start.y, w: measures.unit_extent, h: measures.unit_extent };
        match tool {
            Tool::CropAndSave | Tool::Crop => Operation::Crop(
                Rectangle {
                    x: start.x,
                    y: start.y,
                    // An empty extent signals that no region was dragged out.
                    w: measures.empty_extent,
                    h: measures.empty_extent,
                },
            ),
            Tool::Line => Operation::DrawLine {
                start,
                end: start,
                colour: secondary_colour,
                line_width,
            },
            Tool::Arrow => Operation::DrawArrow {
                start,
                end: start,
                colour: secondary_colour,
                line_width,
            },
            Tool::Rectangle => Operation::DrawRectangle {
                rect,
                border: secondary_colour,
                fill: primary_colour,
                line_width,
            },
            Tool::Ellipse => Operation::DrawEllipse {
                ellipse: Ellipse {
                    x: start.x,
                    y: start.y,
                    w: measures.unit_extent,
                    h: measures.unit_extent,
                },
                border: secondary_colour,
                fill: primary_colour,
                line_width,
            },
            Tool::Highlight => Operation::Highlight { rect },
            Tool::Pixelate => Operation::Pixelate { rect, seed: random_seed() },
            Tool::Blur => Operation::Blur { rect, radius: measures.blur_radius },
            Tool::AutoincrementBubble => {
                let bubble = Operation::Bubble {
                    centre: start,
                    bubble_colour: primary_colour,
                    text_colour: secondary_colour,
                    number: *bubble_index,
                    font_description,
                };
                *bubble_index = *bubble_index + 1;
                bubble
            },
            Tool::Text => Operation::Text {
                top_left: start,
                text: String::new(),
                colour: secondary_colour,
                font_description,
            },
            Tool::Pencil => Operation::Pencil {
                start,
                points: Vec::new(),
                colour: secondary_colour,
                line_width,
            },
            // Saving never becomes an operation; `requires` rules this arm out.
            Tool::Save => Operation::Highlight { rect },
        }
    }

    /// What drawing the operation paints, with `unit` the width of one pixel; see
    /// [`paint_of`].
    pub fn paint(&self, is_in_draw_event: bool, dashed: bool, unit: C) -> (paint: Paint<C>)
        ensures
            paint == paint_of(*self, is_in_draw_event, dashed, unit),
    {
        match self {
            Operation::Crop(rect) => if is_in_draw_event {
                Paint::CropOutline {
                    rect: *rect,
                    colour: Colour { red: 0, green: 127, blue: 190, alpha: 255 },
                    dashed,
                }
            } else {
                Paint::Nothing
            },
            Operation::Blur { rect, radius } => Paint::Blur { rect: *rect, radius: *radius },
            Operation::Pixelate { rect, seed } => Paint::Pixelate { rect: *rect, seed: *seed },
            Operation::DrawLine { start, end, colour, line_width } => Paint::Line {
                start: *start,
                end: *end,
                colour: *colour,
                line_width: *line_width,
            },
            Operation::DrawArrow { start, end, colour, line_width } => Paint::Arrow {
                start: *start,
                end: *end,
                colour: *colour,
                line_width: *line_width,
            },
            Operation::DrawRectangle { rect, border, fill, line_width } => Paint::Rectangle {
                rect: *rect,
                border: *border,
                fill: *fill,
                line_width: *line_width,
            },
            Operation::Highlight { rect } => Paint::Rectangle {
                rect: *rect,
                border: Colour { red: 0, green: 0, blue: 0, alpha: 0 },
                fill: Colour { red: 255, green: 255, blue: 0, alpha: 63 },
                line_width: unit,
            },
            Operation::DrawEllipse { ellipse, border, fill, line_width } => Paint::Ellipse {
                ellipse: *ellipse,
                border: *border,
                fill: *fill,
                line_width: *line_width,
            },
            Operation::Text { top_left, colour, .. } => Paint::Text {
                top_left: *top_left,
                colour: *colour,
            },
            Operation::Bubble { centre, bubble_colour, text_colour, number, .. } => Paint::Bubble {
                centre: *centre,
                border: Colour { red: 0, green: 0, blue: 0, alpha: 0 },
                fill: *bubble_colour,
                line_width: unit,
                text_colour: *text_colour,
                number: *number,
            },
            Operation::Pencil { start, colour, line_width, .. } => Paint::Pencil {
                start: *start,
                colour: *colour,
                line_width: *line_width,
            },
        }
    }

    /// Replaces the text, font and colour of a text operation; other operations are left as
    /// they are.
    pub fn set_text(&mut self, input_text: Text<F>)
        ensures
            *final(self) == with_text(*old(self), input_text),
    {
        if let Operation::Text { text, colour, font_description, .. } = self {
            *text = input_text.string;
            *font_description = input_text.font_description;
            *colour = input_text.colour;
        }
    }
}

/// Painting keeps an operation's geometry and colours: a line or an arrow is painted from
/// its start to its end, a shape over its own rectangle or ellipse, text at its corner, a
/// bubble around its centre with its number, a pencil stroke from its start, and a crop
/// is outlined over its selection while the editor draws for the user, else not painted.
pub proof fn lemma_paint_keeps_geometry<C, F>(
    op: Operation<C, F>,
    is_in_draw_event: bool,
    dashed: bool,
    unit: C,
)
    ensures
        ({
            let paint = paint_of(op, is_in_draw_event, dashed, unit);
            &&& op matches Operation::DrawLine { start, end, colour, line_width } ==> paint matches Paint::Line {
                start: s,
                end: e,
                colour: c,
                line_width: l,
            } && s == start && e == end && c == colour && l == line_width
            &&& op matches Operation::DrawArrow { start, end, colour, line_width } ==> paint matches Paint::Arrow {
                start: s,
                end: e,
                colour: c,
                line_width: l,
            } && s == start && e == end && c == colour && l == line_width
            &&& op matches Operation::DrawRectangle { rect, border, fill, line_width } ==> paint matches Paint::Rectangle {
                rect: r,
                border: b,
                fill: f,
                line_width: l,
            } && r == rect && b == border && f == fill && l == line_width
            &&& op matches Operation::Highlight { rect } ==> paint matches Paint::Rectangle {
                rect: r,
                fill: f,
                ..
            } && r == rect && f == highlight_colour()
            &&& op matches Operation::DrawEllipse { ellipse, border, fill, line_width } ==> paint matches Paint::Ellipse {
                ellipse: e,
                border: b,
                fill: f,
                line_width: l,
            } && e == ellipse && b == border && f == fill && l == line_width
            &&& op matches Operation::Blur { rect, radius } ==> paint matches Paint::Blur {
                rect: r,
                radius: d,
            } && r == rect && d == radius
            &&& op matches Operation::Pixelate { rect, seed } ==> paint matches Paint::Pixelate {
                rect: r,
                seed: d,
            } && r == rect && d == seed
            &&& op matches Operation::Text { top_left, colour, .. } ==> paint matches Paint::Text {
                top_left: t,
                colour: c,
            } && t == top_left && c == colour
            &&& op matches Operation::Bubble { centre, bubble_colour, text_colour, number, .. } ==> paint matches Paint::Bubble {
                centre: p,
                fill: f,
                text_colour: t,
                number: n,
                ..
            } && p == centre && f == bubble_colour && t == text_colour && n == number
            &&& op matches Operation::Pencil { start, colour, line_width, .. } ==> paint matches Paint::Pencil {
                start: s,
                colour: c,
                line_width: l,
            } && s == start && c == colour && l == line_width
            &&& op matches Operation::Crop(rect) ==> if is_in_draw_event {
                paint matches Paint::CropOutline { rect: r, dashed: d, .. } && r == rect && d == dashed
            } else {
                paint is Nothing
            }
        }),
{
}

} // verus!
