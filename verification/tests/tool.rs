use kcshot::tool::Tool;

#[test]
fn shortcuts_pick_tools_in_either_case() {
    assert_eq!(Tool::from_unicode('c'), Some(Tool::CropAndSave));
    assert_eq!(Tool::from_unicode('C'), Some(Tool::CropAndSave));
    assert_eq!(Tool::from_unicode('x'), Some(Tool::Pixelate));
    assert_eq!(Tool::from_unicode('I'), Some(Tool::AutoincrementBubble));
    assert_eq!(Tool::from_unicode('p'), Some(Tool::Pencil));
    assert_eq!(Tool::from_unicode('z'), None);
    assert_eq!(Tool::from_unicode('1'), None);
}

#[test]
fn tools_have_icons_and_tooltips() {
    assert_eq!(Tool::CropAndSave.path(), "/kc/kcshot/editor/tool-rectanglecrop.png");
    assert_eq!(Tool::Save.path(), "/kc/kcshot/editor/tool-checkmark.png");
    assert_eq!(Tool::Pixelate.tooltip(), "Pi<u>x</u>elate tool");
    assert_eq!(Tool::Save.tooltip(), "Save current screenshot");
}

#[test]
fn saving_and_cropping_tools() {
    assert!(Tool::CropAndSave.is_saving_tool());
    assert!(Tool::Save.is_saving_tool());
    assert!(!Tool::Crop.is_saving_tool());
    assert!(Tool::CropAndSave.is_cropping_tool());
    assert!(Tool::Crop.is_cropping_tool());
    assert!(!Tool::Save.is_cropping_tool());
    assert!(!Tool::Line.is_cropping_tool());
}

#[test]
fn tooltips_underline_the_shortcut() {
    for tool in [
        Tool::CropAndSave,
        Tool::Line,
        Tool::Arrow,
        Tool::Rectangle,
        Tool::Ellipse,
        Tool::Highlight,
        Tool::Pixelate,
        Tool::Blur,
        Tool::AutoincrementBubble,
        Tool::Text,
    ] {
        let tooltip = tool.tooltip();
        assert_eq!(tooltip.matches("<u>").count(), 1, "{tooltip}");
        let at = tooltip.find("<u>").unwrap();
        let letter = tooltip[at + 3..].chars().next().unwrap();
        assert_eq!(&tooltip[at + 4..at + 8], "</u>");
        assert_eq!(Tool::from_unicode(letter), Some(tool), "{tooltip}");
    }
    assert_eq!(Tool::Pencil.tooltip(), "Pe<u>n</u>cil tool");
    assert_eq!(Tool::from_unicode('n'), None);
}
