use kcshot::postcapture::{get_actions_from_settings, get_postcapture_actions, PostCaptureAction};

#[test]
fn actions_are_described() {
    let save = PostCaptureAction::SaveToDisk;
    let copy = PostCaptureAction::CopyToClipboard;
    assert_eq!(save.id(), "save-to-disk");
    assert_eq!(save.name(), "Save to disk");
    assert_eq!(save.description(), "Saves the screenshot to the disk");
    assert_eq!(copy.id(), "copy-to-clipboard");
    assert_eq!(copy.name(), "Copy to clipboard");
    assert_eq!(copy.description(), "Copies the picture to the clipboard");
    assert_eq!(get_postcapture_actions(), vec![save, copy]);
}

#[test]
fn settings_name_actions_in_order() {
    let names: Vec<String> = ["copy-to-clipboard", "unknown", "save-to-disk", "copy-to-clipboard"]
        .iter()
        .map(|n| n.to_string())
        .collect();
    assert_eq!(
        get_actions_from_settings(&names),
        vec![
            PostCaptureAction::CopyToClipboard,
            PostCaptureAction::SaveToDisk,
            PostCaptureAction::CopyToClipboard
        ]
    );
    assert!(get_actions_from_settings(&vec![]).is_empty());
}
