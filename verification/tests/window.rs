use whisrs::window::dbus::DbusTracker;
use whisrs::window::sway::{class_from_node, find_focused, SwayNode, SwayTracker, SwayWindowProperties};
use whisrs::window::x11::{active_window_id, focused_window_class, parse_wm_class, parse_window_id, wm_class_name, ActiveWindowError};
use whisrs::window::{choose_tracker, desktop_tracker, NoopTracker, SessionEnv, TrackerKind, WindowTracker};
use x11rb::properties::WmClass;
use x11rb::protocol::xproto::{AtomEnum, GetPropertyReply};

#[test]
fn noop_tracker_always_succeeds() {
    let tracker = NoopTracker;
    let id = tracker.get_focused_window().unwrap();
    assert_eq!(id, "noop");
    tracker.focus_window("anything").unwrap();
    assert_eq!(tracker.get_focused_window_class(), None);
}

#[test]
fn dbus_tracker_answers_with_its_stub() {
    let tracker = DbusTracker::new("GNOME");
    assert_eq!(tracker.get_focused_window().unwrap(), "dbus-stub");
    tracker.focus_window("dbus-stub").unwrap();
    assert_eq!(tracker.get_focused_window_class(), None);
}

fn env(hyprland: bool, niri: bool, sway: bool, session: Option<&str>, desktop: Option<&str>) -> SessionEnv {
    SessionEnv {
        hyprland,
        niri,
        sway,
        session_type: session.map(|s| s.to_string()),
        desktop: desktop.map(|s| s.to_string()),
    }
}

#[test]
fn tracker_detection_order() {
    assert_eq!(choose_tracker(&env(true, true, true, Some("x11"), None)), TrackerKind::Hyprland);
    assert_eq!(choose_tracker(&env(false, true, true, None, None)), TrackerKind::Niri);
    assert_eq!(choose_tracker(&env(false, false, true, Some("x11"), None)), TrackerKind::Sway);
    assert_eq!(choose_tracker(&env(false, false, false, Some("x11"), Some("KDE"))), TrackerKind::X11);
    assert_eq!(choose_tracker(&env(false, false, false, Some("wayland"), Some("ubuntu:GNOME"))), TrackerKind::Dbus);
    assert_eq!(choose_tracker(&env(false, false, false, Some("wayland"), Some("KDE"))), TrackerKind::Dbus);
    assert_eq!(choose_tracker(&env(false, false, false, Some("wayland"), Some("XFCE"))), TrackerKind::Noop);
    assert_eq!(choose_tracker(&env(false, false, false, None, None)), TrackerKind::Noop);
    assert_eq!(desktop_tracker(Some("Gnome-Classic")), TrackerKind::Dbus);
    assert_eq!(desktop_tracker(None), TrackerKind::Noop);
}

// -- sway ---------------------------------------------------------------

fn props(instance: Option<&str>, class: Option<&str>) -> Option<SwayWindowProperties> {
    Some(SwayWindowProperties {
        class: class.map(|s| s.to_string()),
        instance: instance.map(|s| s.to_string()),
    })
}

fn node(
    id: i64,
    focused: bool,
    nodes: Vec<SwayNode>,
    floating_nodes: Vec<SwayNode>,
    app_id: Option<&str>,
    window_properties: Option<SwayWindowProperties>,
) -> SwayNode {
    SwayNode {
        id,
        focused,
        nodes,
        floating_nodes,
        app_id: app_id.map(|s| s.to_string()),
        window_properties,
    }
}

/// A focused leaf view carrying only the class-bearing fields.
fn view(app_id: Option<&str>, window_properties: Option<SwayWindowProperties>) -> SwayNode {
    node(1, true, vec![], vec![], app_id, window_properties)
}

#[test]
fn class_from_node_uses_app_id_for_wayland_views() {
    let node = view(Some("Alacritty"), None);
    assert_eq!(class_from_node(&node).as_deref(), Some("Alacritty"));
}

#[test]
fn class_from_node_prefers_class_over_instance_for_xwayland_views() {
    let node = view(None, props(Some("xterm"), Some("XTerm")));
    assert_eq!(class_from_node(&node).as_deref(), Some("XTerm"));
}

#[test]
fn class_from_node_falls_back_to_instance_when_class_is_null() {
    let node = view(None, props(Some("xterm"), None));
    assert_eq!(class_from_node(&node).as_deref(), Some("xterm"));
}

#[test]
fn class_from_node_skips_empty_app_id() {
    let node = view(Some(""), props(Some("xterm"), Some("XTerm")));
    assert_eq!(class_from_node(&node).as_deref(), Some("XTerm"));
}

#[test]
fn class_from_node_skips_whitespace_only_candidates() {
    let node = view(Some("  "), props(Some("xterm"), Some("   ")));
    assert_eq!(class_from_node(&node).as_deref(), Some("xterm"));
}

#[test]
fn class_from_node_returns_none_when_nothing_is_reported() {
    let bare = view(None, None);
    assert_eq!(class_from_node(&bare), None);

    let all_null = view(None, props(None, None));
    assert_eq!(class_from_node(&all_null), None);
}

#[test]
fn find_focused_walks_into_tiling_children() {
    let leaf = node(3, true, vec![], vec![], Some("Alacritty"), None);
    let workspace = node(2, false, vec![leaf], vec![], None, None);
    let root = node(1, false, vec![workspace], vec![], None, None);

    let focused = find_focused(&root).expect("nested tiling leaf should be found");

    assert_eq!(focused.id, 3);
    assert_eq!(class_from_node(focused).as_deref(), Some("Alacritty"));
}

#[test]
fn find_focused_walks_into_floating_children() {
    let floating_leaf = node(4, true, vec![], vec![], Some("org.gnome.Nautilus"), None);
    let workspace = node(2, false, vec![], vec![floating_leaf], None, None);
    let root = node(1, false, vec![workspace], vec![], None, None);

    let focused = find_focused(&root).expect("nested floating leaf should be found");

    assert_eq!(focused.id, 4);
    assert_eq!(
        class_from_node(focused).as_deref(),
        Some("org.gnome.Nautilus")
    );
}

#[test]
fn find_focused_returns_none_when_nothing_is_focused() {
    let leaf = node(3, false, vec![], vec![], Some("Alacritty"), None);
    let floating_leaf = node(4, false, vec![], vec![], Some("firefox"), None);
    let workspace = node(2, false, vec![leaf], vec![floating_leaf], None, None);
    let root = node(1, false, vec![workspace], vec![], None, None);

    assert!(find_focused(&root).is_none());
}

#[test]
fn find_focused_prefers_tiling_before_floating_and_first_match() {
    let tiled = node(5, true, vec![], vec![], Some("kitty"), None);
    let floating = node(6, true, vec![], vec![], Some("mpv"), None);
    let root = node(1, false, vec![tiled], vec![floating], None, None);
    assert_eq!(find_focused(&root).unwrap().id, 5);

    let focused_root = node(7, true, vec![node(8, true, vec![], vec![], None, None)], vec![], None, None);
    assert_eq!(find_focused(&focused_root).unwrap().id, 7);
}

#[test]
fn sway_tracker_answers_from_the_tree() {
    let tracker = SwayTracker::new();
    let leaf = node(42, true, vec![], vec![], None, props(Some("footclient"), Some(" foot-server ")));
    let root = node(1, false, vec![leaf], vec![], None, None);
    assert_eq!(tracker.focused_window_id(&root), Some(42));
    assert_eq!(tracker.focused_window_class(&root).as_deref(), Some("foot-server"));

    let idle = node(1, false, vec![], vec![], None, None);
    assert_eq!(tracker.focused_window_id(&idle), None);
    assert_eq!(tracker.focused_window_class(&idle), None);
}

#[test]
fn sway_focus_command_parses_the_con_id() {
    let tracker = SwayTracker::new();
    assert_eq!(tracker.focus_command("42").as_deref(), Some("[con_id=42] focus"));
    assert_eq!(tracker.focus_command("+7").as_deref(), Some("[con_id=7] focus"));
    assert_eq!(tracker.focus_command("-3").as_deref(), Some("[con_id=-3] focus"));
    assert_eq!(tracker.focus_command("abc"), None);
    assert_eq!(tracker.focus_command(" 4"), None);
    assert_eq!(tracker.focus_command("9223372036854775808"), None);
}

// -- x11 ----------------------------------------------------------------

/// Build the `WM_CLASS` reply an X server would send.
fn wm_class_reply(value: &[u8]) -> GetPropertyReply {
    GetPropertyReply {
        format: 8,
        type_: AtomEnum::STRING.into(),
        value_len: value.len() as u32,
        value: value.to_vec(),
        ..GetPropertyReply::default()
    }
}

#[test]
fn parses_a_plain_class() {
    assert_eq!(parse_wm_class(b"Alacritty"), Some("Alacritty".to_string()));
}

#[test]
fn trailing_nul_and_no_trailing_nul_agree() {
    assert_eq!(parse_wm_class(b"World"), Some("World".to_string()));
    assert_eq!(parse_wm_class(b"World\0"), Some("World".to_string()));
}

#[test]
fn truncates_at_the_first_interior_nul() {
    assert_eq!(
        parse_wm_class(b"World\0Good\0Day"),
        Some("World".to_string())
    );
}

#[test]
fn empty_input_is_none() {
    assert_eq!(parse_wm_class(b""), None);
}

#[test]
fn whitespace_only_input_is_none() {
    assert_eq!(parse_wm_class(b"   \t \n "), None);
    // A lone NUL truncates to nothing, which is also nothing usable.
    assert_eq!(parse_wm_class(b"\0"), None);
}

#[test]
fn surrounding_whitespace_is_trimmed() {
    assert_eq!(parse_wm_class(b"  XTerm  "), Some("XTerm".to_string()));
}

#[test]
fn non_utf8_bytes_do_not_panic() {
    let class = parse_wm_class(b"Alac\xffritty").expect("lossy decode should yield a class");
    assert!(class.starts_with("Alac"));
    assert!(class.ends_with("ritty"));
}

#[test]
fn reports_the_class_field_not_the_instance() {
    // xterm's real WM_CLASS: instance "xterm", class "XTerm".
    let wm_class = WmClass::from_reply(wm_class_reply(b"xterm\0XTerm\0"))
        .expect("well-formed WM_CLASS reply should parse")
        .expect("STRING-typed reply should yield a WmClass");

    assert_eq!(
        parse_wm_class(wm_class.class()),
        Some("XTerm".to_string()),
        "the class half must win"
    );
    assert_eq!(
        parse_wm_class(wm_class.instance()),
        Some("xterm".to_string())
    );
    assert_eq!(
        wm_class_name(wm_class.class(), wm_class.instance()),
        Some("XTerm".to_string())
    );
}

#[test]
fn falls_back_to_the_instance_when_the_class_half_is_absent() {
    let wm_class = WmClass::from_reply(wm_class_reply(b"Hello World"))
        .expect("well-formed WM_CLASS reply should parse")
        .expect("STRING-typed reply should yield a WmClass");

    assert_eq!(parse_wm_class(wm_class.class()), None);
    assert_eq!(
        parse_wm_class(wm_class.instance()),
        Some("Hello World".to_string())
    );
    assert_eq!(
        wm_class_name(wm_class.class(), wm_class.instance()),
        Some("Hello World".to_string())
    );
}

#[test]
fn an_empty_wm_class_property_yields_nothing() {
    let wm_class = WmClass::from_reply(wm_class_reply(b""))
        .expect("empty WM_CLASS reply should parse")
        .expect("STRING-typed reply should yield a WmClass");

    assert_eq!(parse_wm_class(wm_class.class()), None);
    assert_eq!(parse_wm_class(wm_class.instance()), None);
    assert_eq!(wm_class_name(wm_class.class(), wm_class.instance()), None);
}

#[test]
fn active_window_reads_the_property_value() {
    assert_eq!(active_window_id(0, &[]), Err(ActiveWindowError::EmptyValue));
    assert_eq!(active_window_id(1, &[0, 0, 0, 0]), Err(ActiveWindowError::RootFocused));
    let id = 0x0120_0003u32;
    assert_eq!(active_window_id(1, &id.to_ne_bytes()), Ok(id));
}

#[test]
fn x11_window_ids_parse_as_u32() {
    assert_eq!(parse_window_id("18874371"), Some(18874371));
    assert_eq!(parse_window_id("+5"), Some(5));
    assert_eq!(parse_window_id("-5"), None);
    assert_eq!(parse_window_id("4294967296"), None);
    assert_eq!(parse_window_id(""), None);
}

#[test]
fn focused_class_prefers_the_class_half_of_a_reply() {
    let instance: &[u8] = b"xterm";
    let class: &[u8] = b"XTerm";
    assert_eq!(focused_window_class(Some((instance, class))), Some("XTerm".to_string()));
    let blank: &[u8] = b"  ";
    assert_eq!(focused_window_class(Some((instance, blank))), Some("xterm".to_string()));
    assert_eq!(focused_window_class(Some((blank, blank))), None);
    assert_eq!(focused_window_class(None), None);
}
