use kcshot::colour::Colour;
use kcshot::editor::{
    colour_at, key_activates_tool, should_start_saving_immediately, toolbar_allocation,
    toolbar_group_source, Allocation,
};
use kcshot::tool::Tool;

#[test]
fn colours_are_read_blue_green_red() {
    // Two rows of two pixels, rows 8 bytes apart.
    let data = vec![1u8, 2, 3, 0, 4, 5, 6, 0, 7, 8, 9, 0, 10, 11, 12, 0];
    assert_eq!(colour_at(&data, 8, 1, 1), Colour { red: 12, green: 11, blue: 10, alpha: 255 });
    assert_eq!(colour_at(&data, 8, 0, 0), Colour { red: 3, green: 2, blue: 1, alpha: 255 });
}

#[test]
fn the_toolbar_is_centred_a_fifth_down() {
    assert_eq!(
        toolbar_allocation(1920, 1080, 601, 20),
        Allocation { x: 660, y: 216, width: 601, height: 32 }
    );
    assert_eq!(toolbar_allocation(100, 100, 50, 40), Allocation { x: 25, y: 20, width: 50, height: 40 });
    assert_eq!(toolbar_allocation(-3, -6, 0, 0), Allocation { x: -1, y: -1, width: 0, height: 32 });
}

#[test]
fn only_the_save_button_saves_at_once() {
    assert!(should_start_saving_immediately(Tool::Save));
    assert!(!should_start_saving_immediately(Tool::CropAndSave));
    assert_eq!(toolbar_group_source(true), (Tool::Save, true));
    assert_eq!(toolbar_group_source(false), (Tool::CropAndSave, true));
}

#[test]
fn keys_pick_tools_and_their_buttons() {
    let buttons = vec![Tool::CropAndSave, Tool::Line, Tool::Arrow, Tool::Line];
    assert_eq!(key_activates_tool(Some('l'), &buttons), (Some(Tool::Line), Some(1)));
    assert_eq!(key_activates_tool(Some('P'), &buttons), (Some(Tool::Pencil), None));
    assert_eq!(key_activates_tool(Some('?'), &buttons), (None, None));
    assert_eq!(key_activates_tool(None, &buttons), (None, None));
}
