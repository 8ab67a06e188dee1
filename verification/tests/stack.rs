use kcshot::colour::Colour;
use kcshot::editor::{
    on_drag_end, on_drag_update, on_key_pressed, on_key_released, on_mouse_button_released,
    ButtonRelease, EditorKey, KeyPress,
};
use kcshot::geometry::{Point, Rectangle};
use kcshot::operations::{Measures, Operation, Paint, Text};
use kcshot::screenshot::Window;
use kcshot::stack::{Dimming, OperationStack, SelectionMode};
use kcshot::tool::Tool;

const MEASURES: Measures<f64> =
    Measures { line_width: 4.0, unit_extent: 1.0, empty_extent: 0.0, blur_radius: 5.0 };

fn screen() -> Rectangle<f64> {
    Rectangle { x: 0.0, y: 0.0, w: 100.0, h: 100.0 }
}

fn sum(a: f64, b: f64) -> f64 {
    a + b
}

fn degenerate(r: Rectangle<f64>) -> bool {
    r.w * r.h < 4.0
}

fn contains(r: Rectangle<f64>, p: Point<f64>) -> bool {
    r.x <= p.x && p.x < r.x + r.w && r.y <= p.y && p.y < r.y + r.h
}

fn window(x: f64, y: f64, w: f64, h: f64) -> Window<f64> {
    Window {
        outer_rect: Rectangle { x, y, w, h },
        content_rect: Rectangle { x: x + 1.0, y: y + 1.0, w: w - 2.0, h: h - 2.0 },
    }
}

fn stack(windows: Vec<Window<f64>>, cropping_first: bool) -> OperationStack<f64, ()> {
    OperationStack::new(windows, screen(), cropping_first, MEASURES)
}

#[test]
fn new_stack_starts_with_the_crop_tool() {
    let s = stack(vec![], false);
    assert_eq!(s.current_tool(), Tool::CropAndSave);
    assert!(s.operations().is_empty());
    assert!(s.current_operation().is_none());
    assert_eq!(s.primary_colour, Colour { red: 127, green: 0, blue: 127, alpha: 255 });
    assert_eq!(s.secondary_colour, Colour { red: 0, green: 127, blue: 127, alpha: 255 });
    assert_eq!(s.line_width, 4.0);
    assert_eq!(s.selection_mode, SelectionMode::WindowsWithDecorations);
    let crop_first = stack(vec![], true);
    assert_eq!(crop_first.current_tool(), Tool::Crop);
    assert!(crop_first.editing_started_with_cropping());
}

#[test]
fn a_drawn_line_can_be_undone_and_redone() {
    let mut s = stack(vec![], false);
    s.set_current_tool(Tool::Line);
    s.start_operation_at(Point { x: 1.0, y: 2.0 }, ());
    s.update_current_operation_end_coordinate(3.0, 4.0, sum);
    s.finish_current_operation(degenerate);
    assert_eq!(s.operations().len(), 1);
    match &s.operations()[0] {
        Operation::DrawLine { start, end, colour, line_width } => {
            assert_eq!(*start, Point { x: 1.0, y: 2.0 });
            assert_eq!(*end, Point { x: 4.0, y: 6.0 });
            assert_eq!(*colour, s.secondary_colour);
            assert_eq!(*line_width, 4.0);
        }
        other => panic!("expected a line, got {other:?}"),
    }
    s.undo();
    assert!(s.operations().is_empty());
    s.redo();
    assert_eq!(s.operations().len(), 1);
    s.redo();
    assert_eq!(s.operations().len(), 1);
}

#[test]
fn starting_an_operation_forgets_what_was_undone() {
    let mut s = stack(vec![], false);
    s.set_current_tool(Tool::Rectangle);
    s.start_operation_at(Point { x: 0.0, y: 0.0 }, ());
    s.finish_current_operation(degenerate);
    s.undo();
    s.start_operation_at(Point { x: 5.0, y: 5.0 }, ());
    s.finish_current_operation(degenerate);
    s.redo();
    assert_eq!(s.operations().len(), 1);
}

#[test]
fn bubbles_count_up() {
    let mut s = stack(vec![], false);
    s.set_current_tool(Tool::AutoincrementBubble);
    for _ in 0..3 {
        s.start_operation_at(Point { x: 0.0, y: 0.0 }, ());
        s.finish_current_operation(degenerate);
    }
    let numbers: Vec<i32> = s
        .operations()
        .iter()
        .map(|op| match op {
            Operation::Bubble { number, .. } => *number,
            other => panic!("expected a bubble, got {other:?}"),
        })
        .collect();
    assert_eq!(numbers, vec![1, 2, 3]);
}

#[test]
fn text_is_set_on_the_text_operation() {
    let mut s = stack(vec![], false);
    s.set_current_tool(Tool::Text);
    s.start_operation_at(Point { x: 3.0, y: 3.0 }, ());
    let red = Colour { red: 255, green: 0, blue: 0, alpha: 255 };
    s.set_text(Text { string: "hello".to_string(), font_description: (), colour: red });
    match s.current_operation() {
        Some(Operation::Text { text, colour, top_left, .. }) => {
            assert_eq!(text, "hello");
            assert_eq!(*colour, red);
            assert_eq!(*top_left, Point { x: 3.0, y: 3.0 });
        }
        other => panic!("expected text, got {other:?}"),
    }
}

#[test]
fn the_crop_of_a_crop_first_session_cannot_be_undone() {
    let mut s = stack(vec![], true);
    s.start_operation_at(Point { x: 10.0, y: 10.0 }, ());
    s.update_current_operation_end_coordinate(20.0, 30.0, sum);
    s.finish_current_operation(degenerate);
    s.undo();
    assert_eq!(s.operations().len(), 1);
    let region = s.crop_region(None, degenerate, contains);
    assert_eq!(region, Some(Rectangle { x: 10.0, y: 10.0, w: 20.0, h: 30.0 }));
}

#[test]
fn a_click_without_drag_crops_the_window_under_it() {
    let windows = vec![window(0.0, 0.0, 50.0, 50.0), window(10.0, 10.0, 20.0, 20.0)];
    let mut s = stack(windows, false);
    s.start_operation_at(Point { x: 15.0, y: 15.0 }, ());
    s.finish_current_operation(degenerate);
    let region = s.crop_region(Some(Point { x: 15.0, y: 15.0 }), degenerate, contains);
    assert_eq!(region, Some(Rectangle { x: 10.0, y: 10.0, w: 20.0, h: 20.0 }));
    s.set_selection_mode(SelectionMode::WindowsWithoutDecorations);
    let region = s.crop_region(Some(Point { x: 40.0, y: 40.0 }), degenerate, contains);
    assert_eq!(region, Some(Rectangle { x: 1.0, y: 1.0, w: 48.0, h: 48.0 }));
    let region = s.crop_region(Some(Point { x: 60.0, y: 60.0 }), degenerate, contains);
    assert_eq!(region, None);
}

#[test]
fn no_crop_means_no_region() {
    let mut s = stack(vec![], false);
    s.set_current_tool(Tool::Line);
    s.start_operation_at(Point { x: 0.0, y: 0.0 }, ());
    s.finish_current_operation(degenerate);
    assert_eq!(s.crop_region(None, degenerate, contains), None);
}

#[test]
fn hovering_selects_the_topmost_window() {
    let windows = vec![window(0.0, 0.0, 50.0, 50.0), window(10.0, 10.0, 20.0, 20.0)];
    let mut s = stack(windows, false);
    s.set_current_window(Point { x: 15.0, y: 15.0 }, contains);
    let plan = s.execute(true);
    let indicator = plan.window_indicator.expect("the window under the cursor is outlined");
    assert_eq!(indicator.rect, Rectangle { x: 10.0, y: 10.0, w: 20.0, h: 20.0 });
    assert!(indicator.dashed);
    assert!(!indicator.dim_around);
    assert!(plan.crop_indicators_dashed);
    assert!(matches!(plan.dimming, Dimming::Nothing));
    assert!(s.execute(false).window_indicator.is_none());
    s.set_ignore_windows(true);
    assert!(s.execute(true).window_indicator.is_none());
}

#[test]
fn crop_first_sessions_dim_the_screen() {
    let s = stack(vec![], true);
    let plan = s.execute(true);
    assert!(!plan.crop_indicators_dashed);
    match plan.dimming {
        Dimming::WholeScreen(rect) => assert_eq!(rect, screen()),
        other => panic!("expected the whole screen dimmed, got {other:?}"),
    }
}

#[test]
fn keys_toggle_window_selection() {
    let mut s = stack(vec![window(0.0, 0.0, 50.0, 50.0)], false);
    assert_eq!(on_key_pressed(&mut s, EditorKey::Control), KeyPress::Handled);
    s.set_current_window(Point { x: 1.0, y: 1.0 }, contains);
    assert!(s.execute(true).window_indicator.is_none());
    assert!(!on_key_released(&mut s, EditorKey::Control));
    s.set_current_window(Point { x: 1.0, y: 1.0 }, contains);
    assert!(s.execute(true).window_indicator.is_some());
    assert_eq!(on_key_pressed(&mut s, EditorKey::Shift), KeyPress::Handled);
    assert_eq!(s.selection_mode, SelectionMode::WindowsWithoutDecorations);
    assert!(!on_key_released(&mut s, EditorKey::Shift));
    assert_eq!(s.selection_mode, SelectionMode::WindowsWithDecorations);
    assert_eq!(on_key_pressed(&mut s, EditorKey::Return), KeyPress::NotHandled);
    assert_eq!(on_key_pressed(&mut s, EditorKey::Other), KeyPress::NotHandled);
    assert!(on_key_released(&mut s, EditorKey::Escape));
    let mut crop_first = stack(vec![], true);
    assert_eq!(on_key_pressed(&mut crop_first, EditorKey::Return), KeyPress::Save);
}

#[test]
fn releasing_the_button_finishes_or_asks_for_text() {
    let mut s = stack(vec![], false);
    s.set_current_tool(Tool::Text);
    s.start_operation_at(Point { x: 0.0, y: 0.0 }, ());
    assert_eq!(on_mouse_button_released(&mut s, degenerate), ButtonRelease::AskForText);
    assert!(s.current_operation().is_some());
    s.set_current_tool(Tool::Ellipse);
    s.start_operation_at(Point { x: 0.0, y: 0.0 }, ());
    assert_eq!(on_mouse_button_released(&mut s, degenerate), ButtonRelease::Redraw);
    assert!(s.current_operation().is_none());
    s.set_current_tool(Tool::CropAndSave);
    s.start_operation_at(Point { x: 0.0, y: 0.0 }, ());
    assert_eq!(on_mouse_button_released(&mut s, degenerate), ButtonRelease::Save);
    assert_eq!(s.operations().len(), 3);
}

#[test]
fn dragging_a_crop_first_selection_hands_over_to_the_pencil() {
    let mut s = stack(vec![], true);
    s.start_operation_at(Point { x: 5.0, y: 5.0 }, ());
    on_drag_update(&mut s, 10.0, 10.0, sum);
    assert!(s.execute(true).window_indicator.is_none());
    assert!(on_drag_end(&mut s, 12.0, 8.0, sum, degenerate));
    assert_eq!(s.current_tool(), Tool::Pencil);
    match &s.operations()[0] {
        Operation::Crop(rect) => assert_eq!(*rect, Rectangle { x: 5.0, y: 5.0, w: 12.0, h: 8.0 }),
        other => panic!("expected a crop, got {other:?}"),
    }
    let mut s = stack(vec![], false);
    s.set_current_tool(Tool::Pencil);
    s.start_operation_at(Point { x: 1.0, y: 1.0 }, ());
    assert!(!on_drag_end(&mut s, 2.0, 3.0, sum, degenerate));
    match s.current_operation() {
        Some(Operation::Pencil { points, .. }) => assert_eq!(points, &vec![Point { x: 3.0, y: 4.0 }]),
        other => panic!("expected a pencil stroke, got {other:?}"),
    }
}

#[test]
fn operations_paint_what_they_hold() {
    let highlight: Operation<f64, ()> =
        Operation::Highlight { rect: Rectangle { x: 1.0, y: 2.0, w: 3.0, h: 4.0 } };
    match highlight.paint(true, false, 1.0) {
        Paint::Rectangle { border, fill, line_width, .. } => {
            assert_eq!(border.alpha, 0);
            assert_eq!(fill, Colour { red: 255, green: 255, blue: 0, alpha: 63 });
            assert_eq!(line_width, 1.0);
        }
        other => panic!("expected a rectangle, got {other:?}"),
    }
    let crop: Operation<f64, ()> = Operation::Crop(Rectangle { x: 0.0, y: 0.0, w: 3.0, h: 3.0 });
    assert!(matches!(crop.paint(false, true, 1.0), Paint::Nothing));
    match crop.paint(true, true, 1.0) {
        Paint::CropOutline { colour, dashed, .. } => {
            assert_eq!(colour, Colour { red: 0, green: 127, blue: 190, alpha: 255 });
            assert!(dashed);
        }
        other => panic!("expected a crop outline, got {other:?}"),
    }
}

#[test]
fn saving_without_a_point_needs_a_real_selection() {
    let mut s = stack(vec![window(0.0, 0.0, 50.0, 50.0)], false);
    assert!(!s.crop_needs_point(degenerate));
    s.start_operation_at(Point { x: 15.0, y: 15.0 }, ());
    s.finish_current_operation(degenerate);
    assert!(s.crop_needs_point(degenerate));
    s.set_ignore_windows(true);
    assert!(!s.crop_needs_point(degenerate));
}

#[test]
fn the_next_bubble_number_is_known() {
    let mut s = stack(vec![], false);
    assert_eq!(s.next_bubble_number(), 1);
    s.set_current_tool(Tool::AutoincrementBubble);
    s.start_operation_at(Point { x: 0.0, y: 0.0 }, ());
    assert_eq!(s.next_bubble_number(), 2);
}
