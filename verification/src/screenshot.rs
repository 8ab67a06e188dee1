use vstd::prelude::*;

use crate::geometry::{PixelRect, Point, Rectangle, pixel_rect_contains};
use crate::text::{contains_str, eq_ignore_ascii_case, eq_ignoring_ascii_case, occurs_in};

verus! {

/// A window on the screen.
#[derive(Clone, Copy, Debug)]
pub struct Window<C> {
    /// The rectangle of the window that also encompasses its decorations
    pub outer_rect: Rectangle<C>,
    /// The rectangle of the window that **only** encompasses its content
    pub content_rect: Rectangle<C>,
}

/// The display server kcshot runs under.
#[derive(Clone, Copy, Debug, PartialEq, Eq, Structural)]
pub enum DisplayServerKind {
    X11 { can_retrieve_windows: bool },
    GenericWayland,
    Hyprland,
}

/// What the window manager lets kcshot do.
#[derive(Clone, Copy, Debug, PartialEq, Eq, Structural)]
pub struct WmFeatures {
    pub display_server_kind: DisplayServerKind,
    pub should_use_portals: bool,
}

pub open spec fn spec_can_retrieve_windows(features: WmFeatures) -> bool {
    features.display_server_kind == DisplayServerKind::X11 { can_retrieve_windows: true }
        || features.display_server_kind == DisplayServerKind::Hyprland
}

pub open spec fn spec_is_wayland(features: WmFeatures) -> bool {
    !(features.display_server_kind is X11)
}

impl WmFeatures {
    /// Whether the list of windows can be retrieved: from an X11 window manager that
    /// supports it, or from Hyprland.
    pub fn can_retrieve_windows(self) -> (can: bool)
        ensures
            can == spec_can_retrieve_windows(self),
    {
        match self.display_server_kind {
            DisplayServerKind::X11 { can_retrieve_windows } => can_retrieve_windows,
            DisplayServerKind::Hyprland => true,
            DisplayServerKind::GenericWayland => false,
        }
    }

    /// Whether kcshot runs as a Wayland client.
    pub fn is_wayland(self) -> (wayland: bool)
        ensures
            wayland == spec_is_wayland(self),
    {
        match self.display_server_kind {
            DisplayServerKind::X11 { .. } => false,
            _ => true,
        }
    }
}

/// Whether windows can be retrieved, given the window manager's features or `None` when
/// they could not be determined.
pub fn can_retrieve_windows(features: Option<WmFeatures>) -> (can: bool)
    ensures
        can == (features matches Some(f) && spec_can_retrieve_windows(f)),
{
    match features {
        Some(features) => features.can_retrieve_windows(),
        None => false,
    }
}

/// Whether screenshots go through the desktop portals: when forced to, or under Wayland.
/// Nothing goes through them when the features could not be determined (`None`).
pub fn will_make_use_of_desktop_portals(features: Option<WmFeatures>) -> (portals: bool)
    ensures
        portals == (features matches Some(f) && (f.should_use_portals || spec_is_wayland(f))),
{
    let wm_features = match features {
        Some(f) => f,
        None => return false,
    };
    if wm_features.should_use_portals {
        return true;
    }
    match wm_features.display_server_kind {
        DisplayServerKind::GenericWayland | DisplayServerKind::Hyprland => true,
        DisplayServerKind::X11 { .. } => false,
    }
}

/// The lowercase form of a string, as `str::to_lowercase` computes it from Unicode's tables.
pub uninterp spec fn unicode_lowercase(s: Seq<char>) -> Seq<char>;

/// `str::to_lowercase`: the string with every character mapped to its Unicode lowercase.
#[verifier::external_body]
fn to_lowercase(s: &str) -> (lower: String)
    ensures
        lower@ == unicode_lowercase(s@),
{
    s.to_lowercase()
}

/// Whether the session is a Wayland one: `$WAYLAND_DISPLAY` mentions "wayland" in any case,
/// or `$XDG_SESSION_TYPE` is "wayland" up to ASCII case. Unset variables count as empty.
pub fn is_wayland_session(wayland_display: &str, xdg_session_type: &str) -> (wayland: bool)
    ensures
        wayland == (occurs_in(unicode_lowercase(wayland_display@), "wayland"@)
            || eq_ignoring_ascii_case(xdg_session_type@, "wayland"@)),
{
    let lower = to_lowercase(wayland_display);
    contains_str(lower.as_str(), "wayland") || eq_ignore_ascii_case(xdg_session_type, "wayland")
}

/// The features with portals forced on exactly when `$KCSHOT_FORCE_USE_PORTALS` is "1".
pub fn with_forced_portals(features: WmFeatures, force_use_portals: &str) -> (result: WmFeatures)
    ensures
        result == (WmFeatures {
            should_use_portals: force_use_portals@ == "1"@,
            ..features
        }),
{
    let forced = force_use_portals.unicode_len() == 1 && force_use_portals.get_char(0) == '1';
    proof {
        reveal_strlit("1");
        if force_use_portals@ == "1"@ {
            assert(force_use_portals@[0] == '1');
        }
        if forced {
            assert(force_use_portals@ =~= "1"@);
        }
    }
    WmFeatures { should_use_portals: forced, ..features }
}

/// The features of a Wayland session, from `$XDG_CURRENT_DESKTOP` (`None` when unset):
/// Hyprland is recognised up to ASCII case, any other compositor is a generic one.
pub fn wayland_wm_features(xdg_current_desktop: Option<&str>) -> (features: WmFeatures)
    ensures
        features.should_use_portals == false,
        features.display_server_kind == if xdg_current_desktop matches Some(desktop)
            && eq_ignoring_ascii_case(desktop@, "hyprland"@) {
            DisplayServerKind::Hyprland
        } else {
            DisplayServerKind::GenericWayland
        },
{
    let display_server_kind = match xdg_current_desktop {
        Some(desktop) => {
            if eq_ignore_ascii_case(desktop, "hyprland") {
                DisplayServerKind::Hyprland
            } else {
                DisplayServerKind::GenericWayland
            }
        },
        None => DisplayServerKind::GenericWayland,
    };
    WmFeatures { display_server_kind, should_use_portals: false }
}

/// A client window as Hyprland reports it: its position, its size, its workspace and
/// its monitor.
#[derive(Clone, Copy, Debug)]
pub struct HyprWindow<C> {
    pub at: Point<C>,
    pub size: Point<C>,
    pub workspace: i32,
    pub monitor: i32,
}

/// The windows of `clients`, in order, on the workspace and monitor of `active`.
pub open spec fn on_workspace_of<C>(clients: Seq<HyprWindow<C>>, active: HyprWindow<C>) -> Seq<
    HyprWindow<C>,
>
    decreases clients.len(),
{
    if clients.len() == 0 {
        Seq::empty()
    } else {
        let before = on_workspace_of(clients.drop_last(), active);
        let last = clients.last();
        if last.workspace == active.workspace && last.monitor == active.monitor {
            before.push(last)
        } else {
            before
        }
    }
}

/// The windows Hyprland can offer for selection: those on the active window's workspace
/// and monitor, in the order Hyprland lists them.
pub fn windows_on_active_workspace<C: Copy>(
    clients: &Vec<HyprWindow<C>>,
    active: HyprWindow<C>,
) -> (windows: Vec<HyprWindow<C>>)
    ensures
        windows@ == on_workspace_of(clients@, active),
{
    let mut windows: Vec<HyprWindow<C>> = Vec::new();
    let mut i: usize = 0;
    while i < clients.len()
        invariant
            i <= clients@.len(),
            windows@ == on_workspace_of(clients@.subrange(0, i as int), active),
        decreases clients.len() - i,
    {
        proof {
            assert(clients@.subrange(0, i + 1).drop_last() =~= clients@.subrange(0, i as int));
        }
        let window = clients[i];
        if window.workspace == active.workspace && window.monitor == active.monitor {
            windows.push(window);
        }
        i = i + 1;
    }
    assert(clients@.subrange(0, clients@.len() as int) =~= clients@);
    windows
}

proof fn lemma_contains_push<A>(s: Seq<A>, x: A, y: A)
    ensures
        s.push(x).contains(y) <==> (s.contains(y) || x == y),
{
    if s.contains(y) {
        let i = choose|i: int| 0 <= i < s.len() && s[i] == y;
        assert(s.push(x)[i] == y);
    }
    if x == y {
        assert(s.push(x)[s.len() as int] == y);
    }
    if s.push(x).contains(y) {
        let i = choose|i: int| 0 <= i < s.push(x).len() && s.push(x)[i] == y;
        if i < s.len() {
            assert(s[i] == y);
        }
    }
}

/// The X atom that stands for no atom.
pub const ATOM_NONE: u32 = 0;

/// The atoms kcshot interns from the X server; none of them is [`ATOM_NONE`].
#[derive(Clone, Copy, Debug, PartialEq, Eq, Structural)]
pub struct AtomsOfInterest {
    /// `_NET_CLIENT_LIST_STACKING`: the windows in stacking order.
    pub wm_client_list: u32,
    /// `_NET_FRAME_EXTENTS`: the borders a window manager adds around a window.
    pub frame_extents: u32,
    /// `_NET_WM_STATE`: the state of a window.
    pub window_state: u32,
    /// `_NET_WM_STATE_FULLSCREEN`: the state of a fullscreen window.
    pub window_is_fullscreen: u32,
}

/// Why the X server's window manager cannot be used as kcshot needs.
#[derive(Clone, Copy, Debug, PartialEq, Eq, Structural)]
pub enum XorgError {
    WmDoesNotSupportWindowList,
    WmDoesNotSupportFrameExtents,
}

/// Checks the interned atoms: the window list one must exist, and so must the three that
/// describe frames and states.
pub fn check_atoms_of_interest(atoms: AtomsOfInterest) -> (checked: Result<AtomsOfInterest, XorgError>)
    ensures
        atoms.wm_client_list == ATOM_NONE ==> checked == Err::<AtomsOfInterest, XorgError>(
            XorgError::WmDoesNotSupportWindowList,
        ),
        atoms.wm_client_list != ATOM_NONE && (atoms.frame_extents == ATOM_NONE
            || atoms.window_state == ATOM_NONE || atoms.window_is_fullscreen == ATOM_NONE)
            ==> checked == Err::<AtomsOfInterest, XorgError>(
            XorgError::WmDoesNotSupportFrameExtents,
        ),
        atoms.wm_client_list != ATOM_NONE && atoms.frame_extents != ATOM_NONE
            && atoms.window_state != ATOM_NONE && atoms.window_is_fullscreen != ATOM_NONE
            ==> checked == Ok::<AtomsOfInterest, XorgError>(atoms),
{
    if atoms.wm_client_list == ATOM_NONE {
        return Err(XorgError::WmDoesNotSupportWindowList);
    }
    if atoms.frame_extents == ATOM_NONE || atoms.window_state == ATOM_NONE
        || atoms.window_is_fullscreen == ATOM_NONE {
        return Err(XorgError::WmDoesNotSupportFrameExtents);
    }
    Ok(atoms)
}

/// The features of an X11 window manager. Without EWMH (`_NET_SUPPORTED` is
/// [`ATOM_NONE`]) windows cannot be retrieved; with it, they can when the supported atoms
/// list both the window list and the frame extents.
pub fn xorg_wm_features(net_supported: u32, supported_atoms: &Vec<u32>, atoms: AtomsOfInterest) -> (features: WmFeatures)
    ensures
        features.should_use_portals == false,
        features.display_server_kind == (DisplayServerKind::X11 {
            can_retrieve_windows: net_supported != ATOM_NONE && supported_atoms@.contains(
                atoms.wm_client_list,
            ) && supported_atoms@.contains(atoms.frame_extents) && atoms.frame_extents
                != atoms.wm_client_list,
        }),
{
    if net_supported == ATOM_NONE {
        return WmFeatures {
            display_server_kind: DisplayServerKind::X11 { can_retrieve_windows: false },
            should_use_portals: false,
        };
    }
    let mut client_list = false;
    let mut frame_extents = false;
    let mut i: usize = 0;
    while i < supported_atoms.len()
        invariant
            i <= supported_atoms@.len(),
            client_list == supported_atoms@.subrange(0, i as int).contains(atoms.wm_client_list),
            frame_extents == (supported_atoms@.subrange(0, i as int).contains(atoms.frame_extents)
                && atoms.frame_extents != atoms.wm_client_list),
        decreases supported_atoms@.len() - i,
    {
        let atom = supported_atoms[i];
        proof {
            let before = supported_atoms@.subrange(0, i as int);
            let after = supported_atoms@.subrange(0, i + 1);
            assert(after =~= before.push(atom));
            lemma_contains_push(before, atom, atoms.wm_client_list);
            lemma_contains_push(before, atom, atoms.frame_extents);
        }
        if atom == atoms.wm_client_list {
            client_list = true;
        } else if atom == atoms.frame_extents {
            frame_extents = true;
        }
        i = i + 1;
    }
    assert(supported_atoms@.subrange(0, supported_atoms@.len() as int) =~= supported_atoms@);
    WmFeatures {
        display_server_kind: DisplayServerKind::X11 {
            can_retrieve_windows: client_list && frame_extents,
        },
        should_use_portals: false,
    }
}

/// Whether the window states list the fullscreen state.
pub open spec fn spec_is_fullscreen(window_states: Seq<u32>, window_is_fullscreen: u32) -> bool {
    window_states.contains(window_is_fullscreen)
}

/// The outer rectangle of a window: its content rectangle grown by the frame extents (left,
/// right, top, bottom) the window manager reports, or the content rectangle itself for a
/// fullscreen window or where the window manager reports no frame extents.
pub open spec fn spec_outer_rect(content: PixelRect, extents: Seq<u32>, fullscreen: bool) -> PixelRect {
    if fullscreen || extents.len() < 4 {
        content
    } else {
        PixelRect {
            x: (content.x - extents[0]) as i64,
            y: (content.y - extents[2]) as i64,
            w: (content.w + (extents[1] + extents[0])) as i64,
            h: (content.h + (extents[2] + extents[3])) as i64,
        }
    }
}

/// The outer rectangle of a window, from its content rectangle, its `_NET_FRAME_EXTENTS`
/// and its `_NET_WM_STATE` list. It is the content rectangle when the window manager gives
/// no frame extents for the window (fewer than four values) or the window is fullscreen.
pub fn get_window_outer_rect(
    content_rect: PixelRect,
    frame_extents: &Vec<u32>,
    window_states: &Vec<u32>,
    window_is_fullscreen: u32,
) -> (outer: PixelRect)
    requires
        -0x1_0000_0000 <= content_rect.x <= 0x1_0000_0000,
        -0x1_0000_0000 <= content_rect.y <= 0x1_0000_0000,
        -0x1_0000_0000 <= content_rect.w <= 0x1_0000_0000,
        -0x1_0000_0000 <= content_rect.h <= 0x1_0000_0000,
    ensures
        outer == spec_outer_rect(
            content_rect,
            frame_extents@,
            spec_is_fullscreen(window_states@, window_is_fullscreen),
        ),
{
    let mut fullscreen = false;
    let mut i: usize = 0;
    while i < window_states.len()
        invariant
            i <= window_states@.len(),
            fullscreen == window_states@.subrange(0, i as int).contains(window_is_fullscreen),
        decreases window_states@.len() - i,
    {
        proof {
            assert(window_states@.subrange(0, i + 1) =~= window_states@.subrange(0, i as int).push(
                window_states@[i as int],
            ));
            lemma_contains_push(
                window_states@.subrange(0, i as int),
                window_states@[i as int],
                window_is_fullscreen,
            );
        }
        if window_states[i] == window_is_fullscreen {
            fullscreen = true;
        }
        i = i + 1;
    }
    assert(window_states@.subrange(0, window_states@.len() as int) =~= window_states@);
    if fullscreen || frame_extents.len() < 4 {
        return content_rect;
    }
    let left = frame_extents[0] as i64;
    let right = frame_extents[1] as i64;
    let top = frame_extents[2] as i64;
    let bottom = frame_extents[3] as i64;
    PixelRect {
        x: content_rect.x - left,
        y: content_rect.y - top,
        w: content_rect.w + (right + left),
        h: content_rect.h + (top + bottom),
    }
}

/// The first monitor, in the X server's order, that holds the cursor.
pub fn bounds_of_monitor_under_cursor(monitors: &Vec<PixelRect>, cursor_x: i64, cursor_y: i64) -> (bounds: Option<PixelRect>)
    requires
        forall|i: int|
            0 <= i < monitors@.len() ==> {
                &&& -0x1_0000_0000 <= #[trigger] monitors@[i].x <= 0x1_0000_0000
                &&& -0x1_0000_0000 <= monitors@[i].y <= 0x1_0000_0000
                &&& -0x1_0000_0000 <= monitors@[i].w <= 0x1_0000_0000
                &&& -0x1_0000_0000 <= monitors@[i].h <= 0x1_0000_0000
            },
    ensures
        bounds matches Some(b) ==> exists|i: int|
            0 <= i < monitors@.len() && monitors@[i] == b && pixel_rect_contains(
                b,
                cursor_x as int,
                cursor_y as int,
            ) && forall|j: int|
                0 <= j < i ==> !pixel_rect_contains(
                    #[trigger] monitors@[j],
                    cursor_x as int,
                    cursor_y as int,
                ),
        bounds is None ==> forall|j: int|
            0 <= j < monitors@.len() ==> !pixel_rect_contains(
                #[trigger] monitors@[j],
                cursor_x as int,
                cursor_y as int,
            ),
{
    let mut i: usize = 0;
    while i < monitors.len()
        invariant
            i <= monitors@.len(),
            forall|i: int|
                0 <= i < monitors@.len() ==> {
                    &&& -0x1_0000_0000 <= #[trigger] monitors@[i].x <= 0x1_0000_0000
                    &&& -0x1_0000_0000 <= monitors@[i].y <= 0x1_0000_0000
                    &&& -0x1_0000_0000 <= monitors@[i].w <= 0x1_0000_0000
                    &&& -0x1_0000_0000 <= monitors@[i].h <= 0x1_0000_0000
                },
            forall|j: int|
                0 <= j < i ==> !pixel_rect_contains(
                    #[trigger] monitors@[j],
                    cursor_x as int,
                    cursor_y as int,
                ),
        decreases monitors@.len() - i,
    {
        let monitor = monitors[i];
        if monitor.contains(cursor_x, cursor_y) {
            return Some(monitor);
        }
        i = i + 1;
    }
    None
}

} // verus!
