use vstd::prelude::*;

use crate::colour::Colour;
use crate::geometry::{Point, Rectangle};
use crate::operations::{Measures, Operation, Text, is_default_operation, with_text};
use crate::screenshot::Window;
use crate::tool::{Tool, spec_is_cropping_tool};

verus! {

/// Which rectangle of a window a crop selects.
#[derive(Clone, Copy, Debug, PartialEq, Eq, Structural)]
pub enum SelectionMode {
    WindowsWithDecorations,
    WindowsWithoutDecorations,
}

/// The history of the editor's operations, the operation in progress and the state of the
/// crop selection.
#[derive(Debug)]
pub struct OperationStack<C, F> {
    // The stack itself
    operations: Vec<Operation<C, F>>,
    undone_operations: Vec<Operation<C, F>>,
    // State relating to the operation going on right now
    current_tool: Tool,
    current_operation: Option<Operation<C, F>>,
    autoincrement_bubble_number: i32,
    pub primary_colour: Colour,
    pub secondary_colour: Colour,
    pub line_width: C,
    // State relating to crop selection
    pub selection_mode: SelectionMode,
    is_in_crop_drag: bool,
    /// In stacking order
    windows: Vec<Window<C>>,
    current_window: Option<usize>,
    ignore_windows: bool,
    editing_started_with_cropping: bool,
    pub screen_dimensions: Rectangle<C>,
    measures: Measures<C>,
}

/// The abstract state of an [`OperationStack`].
#[verifier::ext_equal]
pub struct StackState<C, F> {
    pub operations: Seq<Operation<C, F>>,
    pub undone_operations: Seq<Operation<C, F>>,
    pub current_tool: Tool,
    pub current_operation: Option<Operation<C, F>>,
    pub autoincrement_bubble_number: i32,
    pub primary_colour: Colour,
    pub secondary_colour: Colour,
    pub line_width: C,
    pub selection_mode: SelectionMode,
    pub is_in_crop_drag: bool,
    pub windows: Seq<Window<C>>,
    pub current_window: Option<usize>,
    pub ignore_windows: bool,
    pub editing_started_with_cropping: bool,
    pub screen_dimensions: Rectangle<C>,
    pub measures: Measures<C>,
}

impl<C, F> View for OperationStack<C, F> {
    type V = StackState<C, F>;

    closed spec fn view(&self) -> StackState<C, F> {
        StackState {
            operations: self.operations@,
            undone_operations: self.undone_operations@,
            current_tool: self.current_tool,
            current_operation: self.current_operation,
            autoincrement_bubble_number: self.autoincrement_bubble_number,
            primary_colour: self.primary_colour,
            secondary_colour: self.secondary_colour,
            line_width: self.line_width,
            selection_mode: self.selection_mode,
            is_in_crop_drag: self.is_in_crop_drag,
            windows: self.windows@,
            current_window: self.current_window,
            ignore_windows: self.ignore_windows,
            editing_started_with_cropping: self.editing_started_with_cropping,
            screen_dimensions: self.screen_dimensions,
            measures: self.measures,
        }
    }
}

/// The selected window, if any, is one of the windows.
pub open spec fn state_wf<C, F>(s: StackState<C, F>) -> bool {
    s.current_window matches Some(idx) ==> idx < s.windows.len()
}

/// Undoing keeps the crop that starts a "crop-first" session: an only operation that is a
/// crop stays. Otherwise the last operation moves to the undone stack.
pub open spec fn undo_state<C, F>(s: StackState<C, F>) -> StackState<C, F> {
    if s.operations.len() == 1 && s.operations[0] is Crop {
        s
    } else if s.operations.len() > 0 {
        StackState {
            operations: s.operations.drop_last(),
            undone_operations: s.undone_operations.push(s.operations.last()),
            ..s
        }
    } else {
        s
    }
}

/// Redoing moves the last undone operation back onto the stack.
pub open spec fn redo_state<C, F>(s: StackState<C, F>) -> StackState<C, F> {
    if s.undone_operations.len() > 0 {
        StackState {
            operations: s.operations.push(s.undone_operations.last()),
            undone_operations: s.undone_operations.drop_last(),
            ..s
        }
    } else {
        s
    }
}

/// The operations with the one in progress, if any, pushed on top.
pub open spec fn with_current<C, F>(
    operations: Seq<Operation<C, F>>,
    current: Option<Operation<C, F>>,
) -> Seq<Operation<C, F>> {
    match current {
        Some(op) => operations.push(op),
        None => operations,
    }
}

/// The rectangle a save would crop to, before windows are considered: the last operation
/// if it is a crop ("crop-last" mode), else the first if it is a crop ("crop-first" mode).
pub open spec fn crop_candidate<C, F>(operations: Seq<Operation<C, F>>) -> Option<Rectangle<C>> {
    if operations.len() > 0 && operations.last() is Crop {
        Some(operations.last()->Crop_0)
    } else if operations.len() > 0 && operations[0] is Crop {
        Some(operations[0]->Crop_0)
    } else {
        None
    }
}

/// `idx` is the topmost window whose outer rectangle `contains` reports as holding `point`.
pub open spec fn topmost_hit<C>(
    windows: Seq<Window<C>>,
    point: Point<C>,
    contains: spec_fn(Rectangle<C>, Point<C>, bool) -> bool,
    idx: int,
) -> bool {
    &&& 0 <= idx < windows.len()
    &&& contains(windows[idx].outer_rect, point, true)
    &&& forall|j: int| idx < j < windows.len() ==> contains(windows[j].outer_rect, point, false)
}

/// No window's outer rectangle is reported as holding `point`.
pub open spec fn no_hit<C>(
    windows: Seq<Window<C>>,
    point: Point<C>,
    contains: spec_fn(Rectangle<C>, Point<C>, bool) -> bool,
) -> bool {
    forall|j: int| 0 <= j < windows.len() ==> contains(windows[j].outer_rect, point, false)
}

/// The rectangle of `window` that the selection mode picks.
pub open spec fn selected_rect<C>(window: Window<C>, mode: SelectionMode) -> Rectangle<C> {
    match mode {
        SelectionMode::WindowsWithDecorations => window.outer_rect,
        SelectionMode::WindowsWithoutDecorations => window.content_rect,
    }
}

/// `new_op` is `op` with its end moved by `(w, h)`: shapes take `(w, h)` as their extent,
/// lines and arrows end at their start plus `(w, h)` and a pencil stroke gains the point
/// at its start plus `(w, h)`, the sums being what `sum` gives. Bubbles and text stay.
pub open spec fn end_coordinate_updated<C, F>(
    op: Operation<C, F>,
    new_op: Operation<C, F>,
    w: C,
    h: C,
    sum: spec_fn(C, C, C) -> bool,
) -> bool {
    match op {
        Operation::Crop(rect) => new_op == Operation::<C, F>::Crop(Rectangle { w, h, ..rect }),
        Operation::Blur { rect, radius } => new_op == Operation::<C, F>::Blur {
            rect: Rectangle { w, h, ..rect },
            radius,
        },
        Operation::Pixelate { rect, seed } => new_op == Operation::<C, F>::Pixelate {
            rect: Rectangle { w, h, ..rect },
            seed,
        },
        Operation::DrawRectangle { rect, border, fill, line_width } => new_op
            == Operation::<C, F>::DrawRectangle {
            rect: Rectangle { w, h, ..rect },
            border,
            fill,
            line_width,
        },
        Operation::Highlight { rect } => new_op == Operation::<C, F>::Highlight {
            rect: Rectangle { w, h, ..rect },
        },
        Operation::DrawLine { start, end, colour, line_width } => new_op matches Operation::DrawLine {
            start: s2,
            end: e2,
            colour: c2,
            line_width: l2,
        } && s2 == start && c2 == colour && l2 == line_width && sum(start.x, w, e2.x) && sum(
            start.y,
            h,
            e2.y,
        ),
        Operation::DrawArrow { start, end, colour, line_width } => new_op matches Operation::DrawArrow {
            start: s2,
            end: e2,
            colour: c2,
            line_width: l2,
        } && s2 == start && c2 == colour && l2 == line_width && sum(start.x, w, e2.x) && sum(
            start.y,
            h,
            e2.y,
        ),
        Operation::DrawEllipse { ellipse, border, fill, line_width } => new_op
            == Operation::<C, F>::DrawEllipse {
            ellipse: crate::geometry::Ellipse { w, h, ..ellipse },
            border,
            fill,
            line_width,
        },
        Operation::Pencil { start, points, colour, line_width } => new_op matches Operation::Pencil {
            start: s2,
            points: p2,
            colour: c2,
            line_width: l2,
        } && s2 == start && c2 == colour && l2 == line_width && p2@.len() == points@.len() + 1
            && p2@.drop_last() == points@ && sum(w, start.x, p2@.last().x) && sum(
            h,
            start.y,
            p2@.last().y,
        ),
        Operation::Bubble { .. } | Operation::Text { .. } => new_op == op,
    }
}

/// What finishing turns the operation `op` into. When the plain crop tool finishes a crop
/// that `degenerate` judges too small while a window is selected, the crop becomes the
/// window's outer rectangle; every other operation is kept as it is.
pub open spec fn finished_as<C, F>(
    op: Operation<C, F>,
    new_op: Operation<C, F>,
    tool: Tool,
    windows: Seq<Window<C>>,
    current_window: Option<usize>,
    degenerate: spec_fn(Rectangle<C>, bool) -> bool,
) -> bool {
    if tool == Tool::Crop && op is Crop && current_window is Some {
        let rect = op->Crop_0;
        let window = windows[current_window->Some_0 as int];
        ||| degenerate(rect, true) && new_op == Operation::<C, F>::Crop(window.outer_rect)
        ||| degenerate(rect, false) && new_op == op
    } else {
        new_op == op
    }
}

/// `new` is `old` after the operation in progress had its end moved by `(w, h)`, as
/// [`end_coordinate_updated`] says; nothing else changes.
pub open spec fn end_moved<C, F>(
    old: StackState<C, F>,
    new: StackState<C, F>,
    w: C,
    h: C,
    sum: spec_fn(C, C, C) -> bool,
) -> bool {
    &&& new == (StackState { current_operation: new.current_operation, ..old })
    &&& match old.current_operation {
        None => new.current_operation is None,
        Some(op) => new.current_operation matches Some(new_op) && end_coordinate_updated(
            op,
            new_op,
            w,
            h,
            sum,
        ),
    }
}

/// `new` is `old` after the operation in progress was finished: it is pushed, as
/// [`finished_as`] says, and a plain crop makes the stack ignore windows from then on.
/// Without an operation in progress nothing changes.
pub open spec fn finished<C, F>(
    old: StackState<C, F>,
    new: StackState<C, F>,
    degenerate: spec_fn(Rectangle<C>, bool) -> bool,
) -> bool {
    match old.current_operation {
        None => new == old,
        Some(op) => {
            &&& new == (StackState {
                operations: new.operations,
                current_operation: None,
                ignore_windows: old.current_tool == Tool::Crop || old.ignore_windows,
                ..old
            })
            &&& new.operations.len() == old.operations.len() + 1
            &&& new.operations.drop_last() == old.operations
            &&& finished_as(
                op,
                new.operations.last(),
                old.current_tool,
                old.windows,
                old.current_window,
                degenerate,
            )
        },
    }
}

/// How the screen should be dimmed.
#[derive(Clone, Copy, Debug)]
pub enum Dimming<C> {
    Nothing,
    /// Dim everything around this selection, once normalised.
    AroundSelection(Rectangle<C>),
    /// Dim this rectangle, the whole screen.
    WholeScreen(Rectangle<C>),
}

/// The outline drawn around the window that a crop would select.
#[derive(Clone, Copy, Debug)]
pub struct WindowIndicator<C> {
    pub rect: Rectangle<C>,
    pub dashed: bool,
    pub dim_around: bool,
}

/// What drawing the stack calls for, besides its operations in order: whether their crop
/// indicators are dashed, how to dim the screen, then which window to outline.
#[derive(Clone, Copy, Debug)]
pub struct DrawPlan<C> {
    pub crop_indicators_dashed: bool,
    pub dimming: Dimming<C>,
    pub window_indicator: Option<WindowIndicator<C>>,
}

/// The windows are outlined only while the user is choosing what to crop: in a draw event,
/// with a cropping tool, outside a crop drag and without windows ignored.
pub open spec fn should_draw_windows<C, F>(s: StackState<C, F>, is_in_draw_event: bool) -> bool {
    is_in_draw_event && spec_is_cropping_tool(s.current_tool) && !s.is_in_crop_drag
        && !s.ignore_windows
}

/// Dimming of the manual selection or the whole screen happens only in "crop-first" mode,
/// and only when windows are not outlined (they dim around themselves).
pub open spec fn dimming_of<C, F>(s: StackState<C, F>, is_in_draw_event: bool) -> Dimming<C> {
    if (!should_draw_windows(s, is_in_draw_event) || s.windows.len() == 0)
        && s.editing_started_with_cropping {
        match s.current_operation {
            Some(Operation::Crop(rect)) => Dimming::AroundSelection(rect),
            _ => if s.operations.len() > 0 && s.operations[0] is Crop {
                Dimming::AroundSelection(s.operations[0]->Crop_0)
            } else if s.operations.len() == 0 {
                Dimming::WholeScreen(s.screen_dimensions)
            } else {
                Dimming::Nothing
            },
        }
    } else {
        Dimming::Nothing
    }
}

pub open spec fn draw_plan_of<C, F>(s: StackState<C, F>, is_in_draw_event: bool) -> DrawPlan<C> {
    DrawPlan {
        crop_indicators_dashed: !s.editing_started_with_cropping,
        dimming: dimming_of(s, is_in_draw_event),
        window_indicator: if should_draw_windows(s, is_in_draw_event) && s.current_window is Some {
            Some(
                WindowIndicator {
                    rect: selected_rect(
                        s.windows[s.current_window->Some_0 as int],
                        s.selection_mode,
                    ),
                    dashed: !s.editing_started_with_cropping,
                    dim_around: s.editing_started_with_cropping,
                },
            )
        } else {
            None
        },
    }
}

/// Moves the end of `op` by `(new_width, new_height)`; see [`end_coordinate_updated`].
fn with_end_coordinate<C: Copy, F>(
    op: Operation<C, F>,
    new_width: C,
    new_height: C,
    sum: &impl Fn(C, C) -> C,
) -> (new_op: Operation<C, F>)
    requires
        forall|a: C, b: C| call_requires(*sum, (a, b)),
    ensures
        end_coordinate_updated(
            op,
            new_op,
            new_width,
            new_height,
            |a: C, b: C, r: C| call_ensures(*sum, (a, b), r),
        ),
{
    match op {
        Operation::Crop(rect) => Operation::Crop(Rectangle { w: new_width, h: new_height, ..rect }),
        Operation::Blur { rect, radius } => Operation::Blur {
            rect: Rectangle { w: new_width, h: new_height, ..rect },
            radius,
        },
        Operation::Pixelate { rect, seed } => Operation::Pixelate {
            rect: Rectangle { w: new_width, h: new_height, ..rect },
            seed,
        },
        Operation::DrawRectangle { rect, border, fill, line_width } => Operation::DrawRectangle {
            rect: Rectangle { w: new_width, h: new_height, ..rect },
            border,
            fill,
            line_width,
        },
        Operation::Highlight { rect } => Operation::Highlight {
            rect: Rectangle { w: new_width, h: new_height, ..rect },
        },
        Operation::DrawLine { start, end: _, colour, line_width } => {
            let end = Point { x: sum(start.x, new_width), y: sum(start.y, new_height) };
            Operation::DrawLine { start, end, colour, line_width }
        },
        Operation::DrawArrow { start, end: _, colour, line_width } => {
            let end = Point { x: sum(start.x, new_width), y: sum(start.y, new_height) };
            Operation::DrawArrow { start, end, colour, line_width }
        },
        Operation::DrawEllipse { ellipse, border, fill, line_width } => Operation::DrawEllipse {
            ellipse: crate::geometry::Ellipse { w: new_width, h: new_height, ..ellipse },
            border,
            fill,
            line_width,
        },
        Operation::Pencil { start, mut points, colour, line_width } => {
            let point = Point { x: sum(new_width, start.x), y: sum(new_height, start.y) };
            let ghost before = points@;
            points.push(point);
            assert(points@.drop_last() =~= before);
            Operation::Pencil { start, points, colour, line_width }
        },
        op => op,
    }
}

impl<C: Copy, F> OperationStack<C, F> {
    pub closed spec fn wf(&self) -> bool {
        state_wf(self@)
    }

    /// A new, empty history. With `editing_started_with_cropping` the editor starts in
    /// "crop-first" mode, with the plain crop tool.
    pub fn new(
        windows: Vec<Window<C>>,
        screen_dimensions: Rectangle<C>,
        editing_started_with_cropping: bool,
        measures: Measures<C>,
    ) -> (stack: Self)
        ensures
            stack.wf(),
            stack@ == (StackState::<C, F> {
                operations: Seq::empty(),
                undone_operations: Seq::empty(),
                current_tool: if editing_started_with_cropping {
                    Tool::Crop
                } else {
                    Tool::CropAndSave
                },
                current_operation: None,
                autoincrement_bubble_number: 1,
                primary_colour: Colour { red: 127, green: 0, blue: 127, alpha: 255 },
                secondary_colour: Colour { red: 0, green: 127, blue: 127, alpha: 255 },
                line_width: measures.line_width,
                selection_mode: SelectionMode::WindowsWithDecorations,
                is_in_crop_drag: false,
                windows: windows@,
                current_window: None,
                ignore_windows: false,
                editing_started_with_cropping,
                screen_dimensions,
                measures,
            }),
    {
        OperationStack {
            operations: Vec::new(),
            undone_operations: Vec::new(),
            current_tool: if editing_started_with_cropping {
                Tool::Crop
            } else {
                Tool::CropAndSave
            },
            current_operation: None,
            autoincrement_bubble_number: 1,
            primary_colour: Colour { red: 127, green: 0, blue: 127, alpha: 255 },
            secondary_colour: Colour { red: 0, green: 127, blue: 127, alpha: 255 },
            windows,
            current_window: None,
            is_in_crop_drag: false,
            ignore_windows: false,
            selection_mode: SelectionMode::WindowsWithDecorations,
            line_width: measures.line_width,
            editing_started_with_cropping,
            screen_dimensions,
            measures,
        }
    }

    pub fn set_current_tool(&mut self, tool: Tool)
        requires
            old(self).wf(),
        ensures
            final(self).wf(),
            final(self)@ == (StackState { current_tool: tool, ..old(self)@ }),
    {
        self.current_tool = tool;
    }

    /// Sets which rectangle of a window a crop selects.
    pub fn set_selection_mode(&mut self, mode: SelectionMode)
        requires
            old(self).wf(),
        ensures
            final(self).wf(),
            final(self)@ == (StackState { selection_mode: mode, ..old(self)@ }),
    {
        self.selection_mode = mode;
    }

    /// The number the next bubble gets.
    pub fn next_bubble_number(&self) -> (number: i32)
        ensures
            number == self@.autoincrement_bubble_number,
    {
        self.autoincrement_bubble_number
    }

    /// Whether the session started by cropping.
    pub fn editing_started_with_cropping(&self) -> (cropping: bool)
        ensures
            cropping == self@.editing_started_with_cropping,
    {
        self.editing_started_with_cropping
    }

    pub fn current_tool(&self) -> (tool: Tool)
        ensures
            tool == self@.current_tool,
    {
        self.current_tool
    }

    pub fn set_ignore_windows(&mut self, b: bool)
        requires
            old(self).wf(),
        ensures
            final(self).wf(),
            final(self)@ == (StackState { ignore_windows: b, ..old(self)@ }),
    {
        self.ignore_windows = b;
    }

    pub fn set_is_in_crop_drag(&mut self, is_in_crop_drag: bool)
        requires
            old(self).wf(),
        ensures
            final(self).wf(),
            final(self)@ == (StackState { is_in_crop_drag, ..old(self)@ }),
    {
        self.is_in_crop_drag = is_in_crop_drag;
    }

    /// Moves the last operation to the undone stack, except for a crop that is the only
    /// operation.
    pub fn undo(&mut self)
        requires
            old(self).wf(),
        ensures
            final(self).wf(),
            final(self)@ == undo_state(old(self)@),
    {
        if self.operations.len() == 1 && matches!(self.operations[0], Operation::Crop(_)) {
            return;
        }
        if let Some(op) = self.operations.pop() {
            self.undone_operations.push(op);
        }
    }

    /// Moves the last undone operation back onto the stack.
    pub fn redo(&mut self)
        requires
            old(self).wf(),
        ensures
            final(self).wf(),
            final(self)@ == redo_state(old(self)@),
    {
        if let Some(op) = self.undone_operations.pop() {
            self.operations.push(op);
        }
    }

    /// Selects the topmost window under `point`, as `contains` judges the windows' outer
    /// rectangles; with windows ignored, selects none. If no window is under the point, the
    /// selection stays as it was.
    pub fn set_current_window(
        &mut self,
        point: Point<C>,
        contains: impl Fn(Rectangle<C>, Point<C>) -> bool,
    )
        requires
            old(self).wf(),
            forall|r: Rectangle<C>, p: Point<C>| call_requires(contains, (r, p)),
        ensures
            final(self).wf(),
            old(self)@.ignore_windows ==> final(self)@ == (StackState {
                current_window: None,
                ..old(self)@
            }),
            !old(self)@.ignore_windows ==> {
                ||| {
                    &&& final(self)@.current_window matches Some(idx) && topmost_hit(
                        old(self)@.windows,
                        point,
                        |r: Rectangle<C>, p: Point<C>, b: bool| call_ensures(contains, (r, p), b),
                        idx as int,
                    )
                    &&& final(self)@ == (StackState {
                        current_window: final(self)@.current_window,
                        ..old(self)@
                    })
                }
                ||| {
                    &&& no_hit(
                        old(self)@.windows,
                        point,
                        |r: Rectangle<C>, p: Point<C>, b: bool| call_ensures(contains, (r, p), b),
                    )
                    &&& final(self)@ == old(self)@
                }
            },
    {
        if self.ignore_windows {
            self.current_window = None;
            return;
        }
        let mut idx = self.windows.len();
        while idx > 0
            invariant
                idx <= self.windows.len(),
                self@ == old(self)@,
                !self.ignore_windows,
                forall|r: Rectangle<C>, p: Point<C>| call_requires(contains, (r, p)),
                forall|j: int|
                    idx <= j < self.windows@.len() ==> call_ensures(
                        contains,
                        (self.windows@[j].outer_rect, point),
                        false,
                    ),
            decreases idx,
        {
            idx = idx - 1;
            let hit = contains(self.windows[idx].outer_rect, point);
            if hit {
                self.current_window = Some(idx);
                assert(topmost_hit(
                    old(self)@.windows,
                    point,
                    |r: Rectangle<C>, p: Point<C>, b: bool| call_ensures(contains, (r, p), b),
                    idx as int,
                ));
                return;
            }
        }
    }

    /// Starts a new operation with the current tool at `point`. The operation in progress,
    /// if any, joins the history, and what was undone can no longer be redone.
    pub fn start_operation_at(&mut self, point: Point<C>, font_description: F)
        requires
            old(self).wf(),
            old(self)@.current_tool != Tool::Save,
            old(self)@.current_tool == Tool::AutoincrementBubble
                ==> old(self)@.autoincrement_bubble_number < i32::MAX,
        ensures
            final(self).wf(),
            final(self)@ == (StackState {
                operations: with_current(old(self)@.operations, old(self)@.current_operation),
                undone_operations: Seq::empty(),
                current_operation: final(self)@.current_operation,
                autoincrement_bubble_number: if old(self)@.current_tool
                    == Tool::AutoincrementBubble {
                    (old(self)@.autoincrement_bubble_number + 1) as i32
                } else {
                    old(self)@.autoincrement_bubble_number
                },
                ..old(self)@
            }),
            final(self)@.current_operation matches Some(op) && is_default_operation(
                op,
                old(self)@.current_tool,
                point,
                old(self)@.autoincrement_bubble_number,
                old(self)@.primary_colour,
                old(self)@.secondary_colour,
                old(self)@.line_width,
                old(self)@.measures,
                font_description,
            ),
    {
        self.undone_operations.clear();
        if let Some(old_operation) = self.current_operation.take() {
            self.operations.push(old_operation);
        }
        let mut bubble_number = self.autoincrement_bubble_number;
        let operation = Operation::create_default_for_tool(
            self.current_tool,
            point,
            &mut bubble_number,
            self.primary_colour,
            self.secondary_colour,
            self.line_width,
            self.measures,
            font_description,
        );
        self.autoincrement_bubble_number = bubble_number;
        self.current_operation = Some(operation);
    }

    pub fn operations(&self) -> (operations: &Vec<Operation<C, F>>)
        ensures
            operations@ == self@.operations,
    {
        &self.operations
    }

    pub fn current_operation(&self) -> (operation: &Option<Operation<C, F>>)
        ensures
            *operation == self@.current_operation,
    {
        &self.current_operation
    }

    pub fn windows(&self) -> (windows: &Vec<Window<C>>)
        ensures
            windows@ == self@.windows,
    {
        &self.windows
    }

    /// Moves the end of the operation in progress to `(new_width, new_height)` away from
    /// its start; `sum` adds coordinates.
    pub fn update_current_operation_end_coordinate(
        &mut self,
        new_width: C,
        new_height: C,
        sum: impl Fn(C, C) -> C,
    )
        requires
            old(self).wf(),
            forall|a: C, b: C| call_requires(sum, (a, b)),
        ensures
            final(self).wf(),
            end_moved(
                old(self)@,
                final(self)@,
                new_width,
                new_height,
                |a: C, b: C, r: C| call_ensures(sum, (a, b), r),
            ),
    {
        if let Some(op) = self.current_operation.take() {
            self.current_operation = Some(with_end_coordinate(op, new_width, new_height, &sum));
        }
    }

    /// Sets the text of the operation in progress. This only applies while the text tool is
    /// in use, and then an operation must be in progress.
    pub fn set_text(&mut self, text: Text<F>)
        requires
            old(self).wf(),
            old(self)@.current_tool == Tool::Text ==> old(self)@.current_operation is Some,
        ensures
            final(self).wf(),
            old(self)@.current_tool != Tool::Text ==> final(self)@ == old(self)@,
            old(self)@.current_tool == Tool::Text ==> final(self)@ == (StackState {
                current_operation: Some(with_text(old(self)@.current_operation->Some_0, text)),
                ..old(self)@
            }),
    {
        if self.current_tool != Tool::Text {
            return;
        }
        if let Some(mut operation) = self.current_operation.take() {
            operation.set_text(text);
            self.current_operation = Some(operation);
        }
    }

    /// Moves the operation in progress, if any, onto the history. Finishing with the plain
    /// crop tool stops window selection; a crop too small to be a selection then becomes
    /// the selected window, as `is_degenerate` judges the crop.
    pub fn finish_current_operation(&mut self, is_degenerate: impl Fn(Rectangle<C>) -> bool)
        requires
            old(self).wf(),
            forall|r: Rectangle<C>| call_requires(is_degenerate, (r,)),
        ensures
            final(self).wf(),
            finished(
                old(self)@,
                final(self)@,
                |r: Rectangle<C>, b: bool| call_ensures(is_degenerate, (r,), b),
            ),
    {
        if let Some(mut operation) = self.current_operation.take() {
            if self.current_tool == Tool::Crop {
                self.ignore_windows = true;
                if let Operation::Crop(rect) = operation {
                    if is_degenerate(rect) {
                        if let Some(current_window) = self.current_window {
                            operation = Operation::Crop(self.windows[current_window].outer_rect);
                        }
                    }
                }
            }
            self.operations.push(operation);
            assert(self.operations@.drop_last() =~= old(self)@.operations);
            assert(self@ =~= (StackState {
                operations: self@.operations,
                current_operation: None,
                ignore_windows: old(self)@.current_tool == Tool::Crop || old(self)@.ignore_windows,
                ..old(self)@
            }));
        }
    }

    /// Whether working out the crop region needs a point to pick a window at: windows are
    /// not ignored and the crop is one that `is_degenerate` judges too small to be a
    /// selection. Saving without a point is then not possible.
    pub fn crop_needs_point(&self, is_degenerate: impl Fn(Rectangle<C>) -> bool) -> (needs: bool)
        requires
            forall|r: Rectangle<C>| call_requires(is_degenerate, (r,)),
        ensures
            self@.ignore_windows || crop_candidate(self@.operations) is None ==> !needs,
            !self@.ignore_windows && crop_candidate(self@.operations) is Some ==> call_ensures(
                is_degenerate,
                (crop_candidate(self@.operations)->Some_0,),
                needs,
            ),
    {
        if self.ignore_windows {
            return false;
        }
        let n = self.operations.len();
        if n > 0 {
            if let Operation::Crop(rect) = &self.operations[n - 1] {
                return is_degenerate(*rect);
            }
            if let Operation::Crop(rect) = &self.operations[0] {
                return is_degenerate(*rect);
            }
        }
        false
    }

    /// The region a save crops to, if not the whole screen: the crop of the "crop-last" or
    /// "crop-first" mode, or, when that crop is too small to be a selection, the topmost
    /// window under `point`, unless windows are ignored.
    pub fn crop_region(
        &self,
        point: Option<Point<C>>,
        is_degenerate: impl Fn(Rectangle<C>) -> bool,
        contains: impl Fn(Rectangle<C>, Point<C>) -> bool,
    ) -> (region: Option<Rectangle<C>>)
        requires
            self.wf(),
            forall|r: Rectangle<C>| call_requires(is_degenerate, (r,)),
            forall|r: Rectangle<C>, p: Point<C>| call_requires(contains, (r, p)),
            // Windows can only be selected with a point to select them at.
            point is None && !self@.ignore_windows && crop_candidate(self@.operations) is Some
                ==> forall|b: bool|
                call_ensures(is_degenerate, (crop_candidate(self@.operations)->Some_0,), b) ==> !b,
        ensures
            match crop_candidate(self@.operations) {
                None => region is None,
                Some(rect) => {
                    ||| call_ensures(is_degenerate, (rect,), false) && region == Some(rect)
                    ||| call_ensures(is_degenerate, (rect,), true) && (self@.ignore_windows
                        ==> region is None) && (!self@.ignore_windows ==> {
                        &&& point is Some
                        &&& {
                            ||| region matches Some(r) && exists|idx: int|
                                #![trigger self@.windows[idx]]
                                topmost_hit(
                                    self@.windows,
                                    point->Some_0,
                                    |r: Rectangle<C>, p: Point<C>, b: bool|
                                        call_ensures(contains, (r, p), b),
                                    idx,
                                ) && r == selected_rect(self@.windows[idx], self@.selection_mode)
                            ||| region is None && no_hit(
                                self@.windows,
                                point->Some_0,
                                |r: Rectangle<C>, p: Point<C>, b: bool|
                                    call_ensures(contains, (r, p), b),
                            )
                        }
                    })
                },
            },
    {
        let len = self.operations.len();
        let crop_rect = if len > 0 && matches!(self.operations[len - 1], Operation::Crop(_)) {
            match &self.operations[len - 1] {
                Operation::Crop(rect) => Some(*rect),
                _ => None,
            }
        } else if len > 0 && matches!(self.operations[0], Operation::Crop(_)) {
            match &self.operations[0] {
                Operation::Crop(rect) => Some(*rect),
                _ => None,
            }
        } else {
            None
        };
        let rect = match crop_rect {
            Some(rect) => rect,
            None => return None,
        };
        if !is_degenerate(rect) {
            return Some(rect);
        }
        if self.ignore_windows {
            return None;
        }
        let at = match point {
            Some(at) => at,
            None => return None,
        };
        let mut idx = self.windows.len();
        while idx > 0
            invariant
                idx <= self.windows.len(),
                crop_candidate(self@.operations) == Some(rect),
                call_ensures(is_degenerate, (rect,), true),
                !self@.ignore_windows,
                point == Some(at),
                forall|r: Rectangle<C>, p: Point<C>| call_requires(contains, (r, p)),
                forall|j: int|
                    idx <= j < self.windows@.len() ==> call_ensures(
                        contains,
                        (self.windows@[j].outer_rect, at),
                        false,
                    ),
            decreases idx,
        {
            idx = idx - 1;
            let window = self.windows[idx];
            if contains(window.outer_rect, at) {
                let selected = match self.selection_mode {
                    SelectionMode::WindowsWithDecorations => window.outer_rect,
                    SelectionMode::WindowsWithoutDecorations => window.content_rect,
                };
                assert(topmost_hit(
                    self@.windows,
                    at,
                    |r: Rectangle<C>, p: Point<C>, b: bool| call_ensures(contains, (r, p), b),
                    idx as int,
                ) && selected == selected_rect(self@.windows[idx as int], self@.selection_mode));
                return Some(selected);
            }
        }
        None
    }

    /// Decides what the stack's state calls for drawing, besides its operations: the draw
    /// event shows the user the selection, while a save (`!is_in_draw_event`) draws no
    /// window outline.
    pub fn execute(&self, is_in_draw_event: bool) -> (plan: DrawPlan<C>)
        requires
            self.wf(),
        ensures
            plan == draw_plan_of(self@, is_in_draw_event),
    {
        let should_draw_windows = is_in_draw_event && self.current_tool.is_cropping_tool()
            && !self.is_in_crop_drag && !self.ignore_windows;
        let should_dim = (!should_draw_windows || self.windows.len() == 0)
            && self.editing_started_with_cropping;
        let dimming = if should_dim {
            match &self.current_operation {
                Some(Operation::Crop(rect)) => Dimming::AroundSelection(*rect),
                _ => {
                    if self.operations.len() > 0 && matches!(
                        self.operations[0],
                        Operation::Crop(_)
                    ) {
                        match &self.operations[0] {
                            Operation::Crop(rect) => Dimming::AroundSelection(*rect),
                            _ => Dimming::Nothing,
                        }
                    } else if self.operations.len() == 0 {
                        Dimming::WholeScreen(self.screen_dimensions)
                    } else {
                        Dimming::Nothing
                    }
                },
            }
        } else {
            Dimming::Nothing
        };
        let window_indicator = if should_draw_windows {
            match self.current_window {
                Some(idx) => {
                    let window = self.windows[idx];
                    let rect = match self.selection_mode {
                        SelectionMode::WindowsWithDecorations => window.outer_rect,
                        SelectionMode::WindowsWithoutDecorations => window.content_rect,
                    };
                    Some(
                        WindowIndicator {
                            rect,
                            dashed: !self.editing_started_with_cropping,
                            dim_around: self.editing_started_with_cropping,
                        },
                    )
                },
                None => None,
            }
        } else {
            None
        };
        DrawPlan {
            crop_indicators_dashed: !self.editing_started_with_cropping,
            dimming,
            window_indicator,
        }
    }
}

} // verus!

verus! {

/// Every operation ever done and not discarded: the history, then the undone operations
/// from the most recently undone back.
pub open spec fn timeline<C, F>(s: StackState<C, F>) -> Seq<Operation<C, F>> {
    s.operations + s.undone_operations.reverse()
}

/// Redoing right after an undo that moved an operation restores the stack.
pub proof fn lemma_redo_after_undo<C, F>(s: StackState<C, F>)
    requires
        s.operations.len() > 0,
        !(s.operations.len() == 1 && s.operations[0] is Crop),
    ensures
        redo_state(undo_state(s)) == s,
{
    assert(undo_state(s).operations.push(undo_state(s).undone_operations.last()) =~= s.operations);
    assert(undo_state(s).undone_operations.drop_last() =~= s.undone_operations);
}

/// Undoing right after a redo restores the stack, unless the redone operation is a crop
/// that became the only operation, which undo keeps.
pub proof fn lemma_undo_after_redo<C, F>(s: StackState<C, F>)
    requires
        s.undone_operations.len() > 0,
        !(s.operations.len() == 0 && s.undone_operations.last() is Crop),
    ensures
        undo_state(redo_state(s)) == s,
{
    let r = redo_state(s);
    assert(r.operations[r.operations.len() - 1] == s.undone_operations.last());
    if s.operations.len() == 0 {
        assert(r.operations[0] == s.undone_operations.last());
    }
    assert(r.operations.drop_last() =~= s.operations);
    assert(r.undone_operations.push(r.operations.last()) =~= s.undone_operations);
}

/// A crop that is the only operation cannot be undone.
pub proof fn lemma_only_crop_is_kept<C, F>(s: StackState<C, F>)
    requires
        s.operations.len() == 1,
        s.operations[0] is Crop,
    ensures
        undo_state(s) == s,
{
}

/// Undo and redo only move operations between the history and the undone stack: the
/// timeline of operations stays the same.
#[verifier::spinoff_prover]
pub proof fn lemma_undo_redo_keep_timeline<C, F>(s: StackState<C, F>)
    ensures
        timeline(undo_state(s)) == timeline(s),
        timeline(redo_state(s)) == timeline(s),
{
    if s.operations.len() > 0 && !(s.operations.len() == 1 && s.operations[0] is Crop) {
        let u = undo_state(s);
        assert(u.undone_operations.reverse() =~= seq![s.operations.last()]
            + s.undone_operations.reverse());
        assert(timeline(u) =~= timeline(s));
    }
    if s.undone_operations.len() > 0 {
        let r = redo_state(s);
        assert(s.undone_operations.reverse() =~= seq![s.undone_operations.last()]
            + r.undone_operations.reverse());
        assert(timeline(r) =~= timeline(s));
    }
}

/// Nothing can be redone once an operation has been started, as starting one empties the
/// undone stack.
pub proof fn lemma_redo_after_start_does_nothing<C, F>(s: StackState<C, F>)
    requires
        s.undone_operations.len() == 0,
    ensures
        redo_state(s) == s,
{
}

/// Both crop modes are supported: a crop drawn last ("crop-last") decides the region, and
/// otherwise the crop a "crop-first" session started with does, whatever was drawn after it.
pub proof fn lemma_crop_modes<C, F>(operations: Seq<Operation<C, F>>)
    requires
        operations.len() > 0,
    ensures
        operations.last() is Crop ==> crop_candidate(operations) == Some(operations.last()->Crop_0),
        !(operations.last() is Crop) && operations[0] is Crop ==> crop_candidate(operations)
            == Some(operations[0]->Crop_0),
        !(operations.last() is Crop) && !(operations[0] is Crop) ==> crop_candidate(operations)
            is None,
{
}

/// Moving the end of an operation that spans a rectangle (a crop, blur, pixelation,
/// rectangle, highlight or ellipse) by `(w, h)` gives it exactly the extent `(w, h)`: the
/// new width is `w`, the new height is `h`, and its corner and kind stay.
pub proof fn lemma_moving_the_end_sets_the_extent<C, F>(
    op: Operation<C, F>,
    new_op: Operation<C, F>,
    w: C,
    h: C,
    sum: spec_fn(C, C, C) -> bool,
)
    requires
        end_coordinate_updated(op, new_op, w, h, sum),
    ensures
        op matches Operation::Crop(rect) ==> new_op matches Operation::Crop(r) && r.x == rect.x
            && r.y == rect.y && r.w == w && r.h == h,
        op matches Operation::Blur { rect, radius } ==> new_op matches Operation::Blur {
            rect: r,
            radius: r2,
        } && r.x == rect.x && r.y == rect.y && r.w == w && r.h == h && r2 == radius,
        op matches Operation::Pixelate { rect, seed } ==> new_op matches Operation::Pixelate {
            rect: r,
            seed: s2,
        } && r.x == rect.x && r.y == rect.y && r.w == w && r.h == h && s2 == seed,
        op matches Operation::DrawRectangle { rect, border, fill, line_width }
            ==> new_op matches Operation::DrawRectangle {
            rect: r,
            border: b2,
            fill: f2,
            line_width: l2,
        } && r.x == rect.x && r.y == rect.y && r.w == w && r.h == h && b2 == border && f2 == fill
            && l2 == line_width,
        op matches Operation::Highlight { rect } ==> new_op matches Operation::Highlight { rect: r }
            && r.x == rect.x && r.y == rect.y && r.w == w && r.h == h,
        op matches Operation::DrawEllipse { ellipse, border, fill, line_width }
            ==> new_op matches Operation::DrawEllipse {
            ellipse: e,
            border: b2,
            fill: f2,
            line_width: l2,
        } && e.x == ellipse.x && e.y == ellipse.y && e.w == w && e.h == h && b2 == border && f2
            == fill && l2 == line_width,
{
}

/// In a "crop-first" session, while no windows are outlined and no crop is being dragged,
/// the screen is dimmed around the crop that the session started with.
pub proof fn lemma_crop_first_dims_around_the_selection<C, F>(
    s: StackState<C, F>,
    is_in_draw_event: bool,
    selection: Rectangle<C>,
)
    requires
        s.editing_started_with_cropping,
        !should_draw_windows(s, is_in_draw_event) || s.windows.len() == 0,
        !(s.current_operation matches Some(Operation::Crop(_))),
        s.operations.len() > 0,
        s.operations[0] == Operation::<C, F>::Crop(selection),
    ensures
        draw_plan_of(s, is_in_draw_event).dimming == Dimming::AroundSelection(selection),
{
}

/// In a "crop-first" session, while no windows are outlined, a crop being dragged is what
/// the screen is dimmed around.
pub proof fn lemma_crop_first_dims_around_the_drag<C, F>(
    s: StackState<C, F>,
    is_in_draw_event: bool,
    selection: Rectangle<C>,
)
    requires
        s.editing_started_with_cropping,
        !should_draw_windows(s, is_in_draw_event) || s.windows.len() == 0,
        s.current_operation == Some(Operation::<C, F>::Crop(selection)),
    ensures
        draw_plan_of(s, is_in_draw_event).dimming == Dimming::AroundSelection(selection),
{
}

/// The whole screen is dimmed only in a "crop-first" session before any operation exists
/// or is under way, and then it is the screen's own rectangle that is dimmed.
pub proof fn lemma_whole_screen_dimmed_only_before_any_operation<C, F>(
    s: StackState<C, F>,
    is_in_draw_event: bool,
)
    ensures
        draw_plan_of(s, is_in_draw_event).dimming is WholeScreen ==> {
            &&& s.editing_started_with_cropping
            &&& s.operations.len() == 0
            &&& !(s.current_operation matches Some(Operation::Crop(_)))
            &&& draw_plan_of(s, is_in_draw_event).dimming == Dimming::WholeScreen(
                s.screen_dimensions,
            )
        },
        s.editing_started_with_cropping && s.operations.len() == 0 && s.current_operation is None
            && !should_draw_windows(s, is_in_draw_event) ==> draw_plan_of(
            s,
            is_in_draw_event,
        ).dimming == Dimming::WholeScreen(s.screen_dimensions),
{
}

/// Outside a "crop-first" session the screen is never dimmed.
pub proof fn lemma_no_dimming_without_crop_first<C, F>(s: StackState<C, F>, is_in_draw_event: bool)
    requires
        !s.editing_started_with_cropping,
    ensures
        draw_plan_of(s, is_in_draw_event).dimming is Nothing,
{
}

} // verus!
