use kcshot::geometry::{PixelRect, Point};
use kcshot::screenshot::{
    bounds_of_monitor_under_cursor, can_retrieve_windows, check_atoms_of_interest,
    get_window_outer_rect, is_wayland_session, wayland_wm_features,
    will_make_use_of_desktop_portals, windows_on_active_workspace, with_forced_portals,
    xorg_wm_features,
    AtomsOfInterest, DisplayServerKind, HyprWindow, WmFeatures, XorgError, ATOM_NONE,
};

fn x11(can_retrieve_windows: bool) -> WmFeatures {
    WmFeatures {
        display_server_kind: DisplayServerKind::X11 { can_retrieve_windows },
        should_use_portals: false,
    }
}

#[test]
fn wayland_sessions_are_recognised() {
    assert!(is_wayland_session("wayland-0", ""));
    assert!(is_wayland_session("WAYLAND-1", "x11"));
    assert!(is_wayland_session("", "WayLand"));
    assert!(!is_wayland_session("", "x11"));
    assert!(!is_wayland_session(":0", ""));
}

#[test]
fn portals_are_forced_by_one() {
    assert!(with_forced_portals(x11(true), "1").should_use_portals);
    assert!(!with_forced_portals(x11(true), "0").should_use_portals);
    assert!(!with_forced_portals(x11(true), "11").should_use_portals);
    assert!(!with_forced_portals(x11(true), "").should_use_portals);
}

#[test]
fn hyprland_is_recognised_in_any_case() {
    assert_eq!(wayland_wm_features(Some("HYPRLAND")).display_server_kind, DisplayServerKind::Hyprland);
    assert_eq!(wayland_wm_features(Some("GNOME")).display_server_kind, DisplayServerKind::GenericWayland);
    assert_eq!(wayland_wm_features(None).display_server_kind, DisplayServerKind::GenericWayland);
    assert!(!wayland_wm_features(Some("Hyprland")).should_use_portals);
}

#[test]
fn windows_and_portals_depend_on_the_display_server() {
    assert!(can_retrieve_windows(Some(x11(true))));
    assert!(!can_retrieve_windows(Some(x11(false))));
    assert!(!can_retrieve_windows(None));
    let hyprland =
        WmFeatures { display_server_kind: DisplayServerKind::Hyprland, should_use_portals: false };
    let generic = WmFeatures {
        display_server_kind: DisplayServerKind::GenericWayland,
        should_use_portals: false,
    };
    assert!(can_retrieve_windows(Some(hyprland)));
    assert!(!can_retrieve_windows(Some(generic)));
    assert!(will_make_use_of_desktop_portals(Some(hyprland)));
    assert!(will_make_use_of_desktop_portals(Some(generic)));
    assert!(!will_make_use_of_desktop_portals(Some(x11(true))));
    assert!(will_make_use_of_desktop_portals(Some(with_forced_portals(x11(true), "1"))));
    assert!(!will_make_use_of_desktop_portals(None));
    assert!(hyprland.is_wayland());
    assert!(!x11(false).is_wayland());
}

#[test]
fn atoms_must_all_exist() {
    let atoms =
        AtomsOfInterest { wm_client_list: 1, frame_extents: 2, window_state: 3, window_is_fullscreen: 4 };
    assert_eq!(check_atoms_of_interest(atoms), Ok(atoms));
    assert_eq!(
        check_atoms_of_interest(AtomsOfInterest { wm_client_list: ATOM_NONE, ..atoms }),
        Err(XorgError::WmDoesNotSupportWindowList)
    );
    assert_eq!(
        check_atoms_of_interest(AtomsOfInterest { window_state: ATOM_NONE, ..atoms }),
        Err(XorgError::WmDoesNotSupportFrameExtents)
    );
}

#[test]
fn x11_window_support_needs_both_atoms() {
    let atoms =
        AtomsOfInterest { wm_client_list: 10, frame_extents: 20, window_state: 30, window_is_fullscreen: 40 };
    assert_eq!(xorg_wm_features(5, &vec![7, 20, 10], atoms), x11(true));
    assert_eq!(xorg_wm_features(5, &vec![10], atoms), x11(false));
    assert_eq!(xorg_wm_features(ATOM_NONE, &vec![10, 20], atoms), x11(false));
}

#[test]
fn outer_rects_add_the_frame() {
    let content = PixelRect { x: 100, y: 50, w: 300, h: 200 };
    let outer = get_window_outer_rect(content, &vec![1, 2, 30, 4], &vec![9], 7);
    assert_eq!(outer, PixelRect { x: 99, y: 20, w: 303, h: 234 });
    let fullscreen = get_window_outer_rect(content, &vec![1, 2, 30, 4], &vec![9, 7], 7);
    assert_eq!(fullscreen, content);
    let without_extents = get_window_outer_rect(content, &vec![], &vec![9], 7);
    assert_eq!(without_extents, content);
    let too_few = get_window_outer_rect(content, &vec![1, 2, 3], &vec![], 7);
    assert_eq!(too_few, content);
}

#[test]
fn the_monitor_under_the_cursor_is_found() {
    let monitors = vec![
        PixelRect { x: 0, y: 0, w: 1920, h: 1080 },
        PixelRect { x: 1920, y: 0, w: 1280, h: 1024 },
    ];
    assert_eq!(bounds_of_monitor_under_cursor(&monitors, 2000, 10), Some(monitors[1]));
    assert_eq!(bounds_of_monitor_under_cursor(&monitors, 1919, 1079), Some(monitors[0]));
    assert_eq!(bounds_of_monitor_under_cursor(&monitors, 1000, 1080), None);
}

#[test]
fn hyprland_windows_of_the_active_workspace() {
    let window = |workspace: i32, monitor: i32, x: f64| HyprWindow {
        at: Point { x, y: 0.0 },
        size: Point { x: 10.0, y: 10.0 },
        workspace,
        monitor,
    };
    let clients = vec![window(1, 0, 1.0), window(2, 0, 2.0), window(1, 1, 3.0), window(1, 0, 4.0)];
    let on_workspace = windows_on_active_workspace(&clients, window(1, 0, 0.0));
    let xs: Vec<f64> = on_workspace.iter().map(|w| w.at.x).collect();
    assert_eq!(xs, vec![1.0, 4.0]);
}
