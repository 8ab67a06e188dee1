use vstd::prelude::*;

use crate::colour::Colour;
use crate::geometry::Rectangle;
use crate::stack::{end_moved, finished, OperationStack, SelectionMode, StackState};
use crate::tool::{spec_is_cropping_tool, spec_is_saving_tool, tool_for_key, Tool};

verus! {

/// A key the editor window reacts to on its own.
#[derive(Clone, Copy, Debug, PartialEq, Eq, Structural)]
pub enum EditorKey {
    /// Either Control key.
    Control,
    /// Either Shift key.
    Shift,
    Return,
    Escape,
    /// Any other key.
    Other,
}

/// What a key press asks of the editor window.
#[derive(Clone, Copy, Debug, PartialEq, Eq, Structural)]
pub enum KeyPress {
    /// The key was handled; the window redraws where the stack changed.
    Handled,
    /// Save the screenshot; only "crop-first" sessions save on Return.
    Save,
    /// The key is left to the toolbar, which may pick a tool with it.
    NotHandled,
}

/// What releasing the primary mouse button asks of the editor window.
#[derive(Clone, Copy, Debug, PartialEq, Eq, Structural)]
pub enum ButtonRelease {
    /// Ask for text; the text tool finishes its operation once it has it.
    AskForText,
    /// The operation was finished; redraw.
    Redraw,
    /// The operation was finished by a saving tool; save the screenshot.
    Save,
}

/// The stack after `key` was pressed: Control makes the crop selection ignore windows,
/// Shift selects windows without their decorations.
pub open spec fn after_key_press<C, F>(s: StackState<C, F>, key: EditorKey) -> StackState<C, F> {
    match key {
        EditorKey::Control => StackState { ignore_windows: true, ..s },
        EditorKey::Shift => StackState {
            selection_mode: SelectionMode::WindowsWithoutDecorations,
            ..s
        },
        _ => s,
    }
}

/// What pressing `key` asks of the editor window; Return saves only a "crop-first" session.
pub open spec fn key_press_outcome<C, F>(s: StackState<C, F>, key: EditorKey) -> KeyPress {
    match key {
        EditorKey::Control | EditorKey::Shift => KeyPress::Handled,
        EditorKey::Return => if s.editing_started_with_cropping {
            KeyPress::Save
        } else {
            KeyPress::NotHandled
        },
        _ => KeyPress::NotHandled,
    }
}

/// The stack after `key` was released: releasing Control lets the crop selection see
/// windows again, releasing Shift selects windows with their decorations again.
pub open spec fn after_key_release<C, F>(s: StackState<C, F>, key: EditorKey) -> StackState<
    C,
    F,
> {
    match key {
        EditorKey::Control => StackState { ignore_windows: false, ..s },
        EditorKey::Shift => StackState {
            selection_mode: SelectionMode::WindowsWithDecorations,
            ..s
        },
        _ => s,
    }
}

/// Reacts to a key press; see [`after_key_press`] and [`key_press_outcome`].
pub fn on_key_pressed<C: Copy, F>(stack: &mut OperationStack<C, F>, key: EditorKey) -> (press: KeyPress)
    requires
        old(stack).wf(),
    ensures
        final(stack).wf(),
        final(stack)@ == after_key_press(old(stack)@, key),
        press == key_press_outcome(old(stack)@, key),
{
    match key {
        EditorKey::Control => {
            stack.set_ignore_windows(true);
            KeyPress::Handled
        },
        EditorKey::Return => {
            if stack.editing_started_with_cropping() {
                KeyPress::Save
            } else {
                KeyPress::NotHandled
            }
        },
        EditorKey::Shift => {
            stack.set_selection_mode(SelectionMode::WindowsWithoutDecorations);
            KeyPress::Handled
        },
        EditorKey::Escape | EditorKey::Other => KeyPress::NotHandled,
    }
}

/// Reacts to a key release; see [`after_key_release`]. Gives whether the window should
/// close, which Escape asks for.
pub fn on_key_released<C: Copy, F>(stack: &mut OperationStack<C, F>, key: EditorKey) -> (close: bool)
    requires
        old(stack).wf(),
    ensures
        final(stack).wf(),
        final(stack)@ == after_key_release(old(stack)@, key),
        close == (key == EditorKey::Escape),
{
    match key {
        EditorKey::Control => {
            stack.set_ignore_windows(false);
            false
        },
        EditorKey::Escape => true,
        EditorKey::Shift => {
            stack.set_selection_mode(SelectionMode::WindowsWithDecorations);
            false
        },
        EditorKey::Return | EditorKey::Other => false,
    }
}

/// Holding Control ignores windows only while it is held: pressing and releasing it
/// leaves the stack as it was, but for seeing windows.
pub proof fn lemma_control_press_release<C, F>(s: StackState<C, F>)
    ensures
        after_key_release(after_key_press(s, EditorKey::Control), EditorKey::Control) == (
        StackState { ignore_windows: false, ..s }),
{
}

/// Holding Shift selects windows without decorations only while it is held: pressing and
/// releasing it leaves the stack as it was, but for selecting decorations again.
pub proof fn lemma_shift_press_release<C, F>(s: StackState<C, F>)
    ensures
        after_key_release(after_key_press(s, EditorKey::Shift), EditorKey::Shift) == (StackState {
            selection_mode: SelectionMode::WindowsWithDecorations,
            ..s
        }),
{
}

/// Reacts to the release of the primary button. The text tool waits for its text; every
/// other tool finishes its operation, and a saving tool then saves.
pub fn on_mouse_button_released<C: Copy, F>(
    stack: &mut OperationStack<C, F>,
    is_degenerate: impl Fn(Rectangle<C>) -> bool,
) -> (release: ButtonRelease)
    requires
        old(stack).wf(),
        forall|r: Rectangle<C>| call_requires(is_degenerate, (r,)),
    ensures
        final(stack).wf(),
        old(stack)@.current_tool == Tool::Text ==> release == ButtonRelease::AskForText
            && final(stack)@ == old(stack)@,
        old(stack)@.current_tool != Tool::Text ==> {
            &&& finished(
                old(stack)@,
                final(stack)@,
                |r: Rectangle<C>, b: bool| call_ensures(is_degenerate, (r,), b),
            )
            &&& release == if spec_is_saving_tool(old(stack)@.current_tool) {
                ButtonRelease::Save
            } else {
                ButtonRelease::Redraw
            }
        },
{
    let tool = stack.current_tool();
    if tool == Tool::Text {
        ButtonRelease::AskForText
    } else if !tool.is_saving_tool() {
        stack.finish_current_operation(is_degenerate);
        ButtonRelease::Redraw
    } else {
        stack.finish_current_operation(is_degenerate);
        ButtonRelease::Save
    }
}

/// Reacts to a drag moving on: the operation in progress ends at `(w, h)` from its
/// start, and the cropping tools note that a crop is being dragged out.
pub fn on_drag_update<C: Copy, F>(
    stack: &mut OperationStack<C, F>,
    w: C,
    h: C,
    sum: impl Fn(C, C) -> C,
)
    requires
        old(stack).wf(),
        forall|a: C, b: C| call_requires(sum, (a, b)),
    ensures
        final(stack).wf(),
        end_moved(
            old(stack)@,
            StackState { is_in_crop_drag: old(stack)@.is_in_crop_drag, ..final(stack)@ },
            w,
            h,
            |a: C, b: C, r: C| call_ensures(sum, (a, b), r),
        ),
        final(stack)@.is_in_crop_drag == (spec_is_cropping_tool(old(stack)@.current_tool)
            || old(stack)@.is_in_crop_drag),
{
    stack.update_current_operation_end_coordinate(w, h, sum);
    if stack.current_tool().is_cropping_tool() {
        stack.set_is_in_crop_drag(true);
    }
}

/// `new` is `old` after a drag ended at `(w, h)`: the operation in progress had its end
/// moved and, for the plain crop tool, was then finished, the pencil taking over.
pub open spec fn drag_ended<C, F>(
    old: StackState<C, F>,
    new: StackState<C, F>,
    w: C,
    h: C,
    sum: spec_fn(C, C, C) -> bool,
    degenerate: spec_fn(Rectangle<C>, bool) -> bool,
) -> bool {
    exists|moved: StackState<C, F>|
        {
            &&& #[trigger] end_moved(old, moved, w, h, sum)
            &&& if old.current_tool == Tool::Crop {
                &&& new.current_tool == Tool::Pencil
                &&& finished(moved, StackState { current_tool: Tool::Crop, ..new }, degenerate)
            } else {
                new == moved
            }
        }
}

/// Reacts to the end of a drag: the operation in progress ends at `(w, h)` from its
/// start. The plain crop tool of a "crop-first" session then finishes the crop and hands
/// over to the pencil; the result says whether that happened, so that the toolbar shows.
pub fn on_drag_end<C: Copy, F>(
    stack: &mut OperationStack<C, F>,
    w: C,
    h: C,
    sum: impl Fn(C, C) -> C,
    is_degenerate: impl Fn(Rectangle<C>) -> bool,
) -> (cropped: bool)
    requires
        old(stack).wf(),
        forall|a: C, b: C| call_requires(sum, (a, b)),
        forall|r: Rectangle<C>| call_requires(is_degenerate, (r,)),
    ensures
        final(stack).wf(),
        cropped == (old(stack)@.current_tool == Tool::Crop),
        drag_ended(
            old(stack)@,
            final(stack)@,
            w,
            h,
            |a: C, b: C, r: C| call_ensures(sum, (a, b), r),
            |r: Rectangle<C>, b: bool| call_ensures(is_degenerate, (r,), b),
        ),
{
    stack.update_current_operation_end_coordinate(w, h, sum);
    let ghost moved = stack@;
    if stack.current_tool() == Tool::Crop {
        stack.finish_current_operation(is_degenerate);
        let ghost done = stack@;
        stack.set_current_tool(Tool::Pencil);
        assert(done == (StackState { current_tool: Tool::Crop, ..stack@ }));
        true
    } else {
        false
    }
}

/// The colour of the pixel at `(x, y)` of an image whose rows are `stride` bytes apart
/// and whose pixels are 4 bytes each, blue first, then green and red.
pub fn colour_at(data: &[u8], stride: usize, x: usize, y: usize) -> (colour: Colour)
    requires
        x * 4 + y * stride + 2 < data.len(),
    ensures
        ({
            let idx = x * 4 + y * stride;
            colour == Colour {
                red: data@[idx + 2],
                green: data@[idx + 1],
                blue: data@[idx],
                alpha: 255,
            }
        }),
{
    assert(0 <= y * stride) by (nonlinear_arith);
    let idx = x * 4 + y * stride;
    Colour { red: data[idx + 2], green: data[idx + 1], blue: data[idx], alpha: 255 }
}

/// Where a child widget of the editor window goes, as `(x, y, width, height)`.
#[derive(Clone, Copy, Debug, PartialEq, Eq, Structural)]
pub struct Allocation {
    pub x: i32,
    pub y: i32,
    pub width: i32,
    pub height: i32,
}

/// Half of `n`, rounded towards zero.
pub open spec fn halved(n: int) -> int {
    if n >= 0 {
        n / 2
    } else {
        -((-n) / 2)
    }
}

/// A fifth of `n`, rounded towards zero.
pub open spec fn fifth(n: int) -> int {
    if n >= 0 {
        n / 5
    } else {
        -((-n) / 5)
    }
}

/// Where the toolbar goes over an image of `width` by `height`: centred horizontally, a
/// fifth of the way down, at its own width and at least 32 pixels high.
pub fn toolbar_allocation(
    width: i32,
    height: i32,
    toolbar_width: i32,
    toolbar_height: i32,
) -> (allocation: Allocation)
    ensures
        allocation == (Allocation {
            x: (halved(width as int) - halved(toolbar_width as int)) as i32,
            y: fifth(height as int) as i32,
            width: toolbar_width,
            height: if toolbar_height > 32 {
                toolbar_height
            } else {
                32
            },
        }),
{
    Allocation {
        x: width / 2 - toolbar_width / 2,
        y: height / 5,
        width: toolbar_width,
        height: if toolbar_height > 32 {
            toolbar_height
        } else {
            32
        },
    }
}

/// Whether clicking a tool's button starts saving at once, as the save button of a
/// "crop-first" session does.
pub fn should_start_saving_immediately(tool: Tool) -> (immediately: bool)
    ensures
        immediately == (tool == Tool::Save),
{
    tool == Tool::Save
}

/// The tool of the first toolbar button, and whether it starts active. A "crop-first"
/// session has the save button there, active; other sessions have the crop button.
pub fn toolbar_group_source(editing_started_with_cropping: bool) -> (source: (Tool, bool))
    ensures
        source.0 == if editing_started_with_cropping {
            Tool::Save
        } else {
            Tool::CropAndSave
        },
        source.1 == (source.0 != Tool::Save || editing_started_with_cropping),
        source.1,
{
    let tool = if editing_started_with_cropping {
        Tool::Save
    } else {
        Tool::CropAndSave
    };
    let active = !should_start_saving_immediately(tool) || editing_started_with_cropping;
    (tool, active)
}

/// The tool a key picks and the first toolbar button, in order, that holds it. The key's
/// character picks the tool whether or not a button holds it.
pub fn key_activates_tool(
    key: Option<char>,
    buttons: &Vec<Tool>,
) -> (picked: (Option<Tool>, Option<usize>))
    ensures
        picked.0 == match key {
            Some(c) => tool_for_key(c),
            None => None,
        },
        picked.0 is None ==> picked.1 is None,
        picked.1 matches Some(i) ==> i < buttons@.len() && picked.0 == Some(buttons@[i as int])
            && forall|j: int| 0 <= j < i ==> buttons@[j] != buttons@[i as int],
        picked.0 is Some && picked.1 is None ==> forall|j: int|
            0 <= j < buttons@.len() ==> Some(buttons@[j]) != picked.0,
{
    let tool = match key {
        Some(c) => Tool::from_unicode(c),
        None => None,
    };
    match tool {
        None => (None, None),
        Some(t) => {
            let mut i: usize = 0;
            while i < buttons.len()
                invariant
                    i <= buttons@.len(),
                    Some(t) == match key {
                        Some(c) => tool_for_key(c),
                        None => None,
                    },
                    forall|j: int| 0 <= j < i ==> buttons@[j] != t,
                decreases buttons.len() - i,
            {
                if buttons[i] == t {
                    return (Some(t), Some(i));
                }
                i = i + 1;
            }
            (Some(t), None)
        },
    }
}

} // verus!
