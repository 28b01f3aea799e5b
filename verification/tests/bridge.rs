//! End-to-end exercises of the bridge core: the window lifecycle, the
//! per-command effects, and the completion protocol.

use window_bridge::bridge::Bridge;
use window_bridge::envelope::{
    window_id_eq, BridgeError, Command, CompletionSink, Effect, Event, FlagKind, NativeEvent,
    WindowId, WindowOptions,
};

fn sink(token: u64) -> CompletionSink {
    CompletionSink { token }
}

fn options(title: &str, width: u32, height: u32) -> WindowOptions {
    WindowOptions {
        title: title.to_owned(),
        devtools: false,
        transparent: false,
        frameless: false,
        width,
        height,
        visible: true,
        resizable: true,
        initialization_script: String::new(),
    }
}

/// Create a window and return its identifier.
fn create(bridge: &mut Bridge, token: u64) -> WindowId {
    let effects = bridge.step(Event::Host(Command::CreateWindow(
        options("w", 320, 240),
        sink(token),
    )));
    assert_eq!(effects.len(), 2);
    match &effects[1] {
        Effect::ReturnWindowId(s, id) => {
            assert_eq!(s.token, token);
            *id
        }
        _ => panic!("expected a window identifier completion"),
    }
}

#[test]
fn create_returns_the_new_identifier_and_builds_first() {
    let mut bridge = Bridge::new();
    let effects = bridge.step(Event::Host(Command::CreateWindow(
        options("hello", 640, 480),
        sink(7),
    )));
    assert_eq!(effects.len(), 2);
    match &effects[0] {
        Effect::CreateNative(id, opts) => {
            assert_eq!(id.raw, 0);
            assert_eq!(opts.title, "hello");
            assert_eq!(opts.width, 640);
            assert_eq!(opts.height, 480);
            assert!(opts.visible);
        }
        _ => panic!("expected the native build to come first"),
    }
    match &effects[1] {
        Effect::ReturnWindowId(s, id) => {
            assert_eq!(s.token, 7);
            assert_eq!(id.raw, 0);
        }
        _ => panic!("expected the identifier completion to come last"),
    }
}

#[test]
fn two_creates_yield_unequal_identifiers() {
    let mut bridge = Bridge::new();
    let first = create(&mut bridge, 1);
    let second = create(&mut bridge, 2);
    assert!(!window_id_eq(first, second));
    assert!(!window_id_eq(second, first));
    assert!(window_id_eq(first, first));
    let copy = first;
    assert!(window_id_eq(first, copy));
}

#[test]
fn identifier_of_a_closed_window_is_never_reissued() {
    let mut bridge = Bridge::new();
    let first = create(&mut bridge, 1);
    bridge.step(Event::Host(Command::CloseWindow(first, sink(2))));
    let second = create(&mut bridge, 3);
    assert!(!window_id_eq(first, second));
}

#[test]
fn get_size_after_set_size_returns_exactly_what_was_set() {
    let mut bridge = Bridge::new();
    let id = create(&mut bridge, 1);
    let effects = bridge.step(Event::Host(Command::SetSize(id, 640, 480, sink(2))));
    assert!(matches!(
        effects[0],
        Effect::SetSizeNative(w, 640, 480) if w.raw == id.raw
    ));
    assert!(matches!(&effects[1], Effect::Ack(s) if s.token == 2));
    let effects = bridge.step(Event::Host(Command::GetSize(id, sink(3))));
    assert_eq!(effects.len(), 1);
    assert!(matches!(
        &effects[0],
        Effect::ReturnSize(s, 640, 480) if s.token == 3
    ));
}

#[test]
fn get_size_reflects_a_native_resize() {
    let mut bridge = Bridge::new();
    let id = create(&mut bridge, 1);
    let effects = bridge.step(Event::Native(NativeEvent::Resized(id, 300, 200)));
    assert_eq!(effects.len(), 1);
    assert!(matches!(effects[0], Effect::ResizeSurface(w) if w.raw == id.raw));
    let effects = bridge.step(Event::Host(Command::GetSize(id, sink(2))));
    assert!(matches!(&effects[0], Effect::ReturnSize(_, 300, 200)));
}

#[test]
fn every_command_to_a_closed_window_is_not_found() {
    let mut bridge = Bridge::new();
    let id = create(&mut bridge, 1);
    let effects = bridge.step(Event::Host(Command::CloseWindow(id, sink(2))));
    assert_eq!(effects.len(), 2);
    assert!(matches!(effects[0], Effect::DestroyNative(w) if w.raw == id.raw));
    assert!(matches!(&effects[1], Effect::Ack(s) if s.token == 2));

    let rejected: Vec<Command> = vec![
        Command::CloseWindow(id, sink(10)),
        Command::Center(id, sink(11)),
        Command::SetTitle(id, "t".to_owned(), sink(12)),
        Command::SetFlag(id, FlagKind::Visible, true, sink(13)),
        Command::SetSize(id, 1, 1, sink(14)),
        Command::GetSize(id, sink(15)),
        Command::EvaluateScript(id, "1".to_owned(), sink(16)),
        Command::OpenDevtools(id, sink(17)),
        Command::CloseDevtools(id, sink(18)),
        Command::SetIcon(id, vec![0u8; 4], 1, 1, sink(19)),
        Command::Focus(id, sink(20)),
    ];
    let mut expected_token = 10u64;
    for cmd in rejected {
        let effects = bridge.step(Event::Host(cmd));
        assert_eq!(effects.len(), 1);
        assert!(matches!(
            &effects[0],
            Effect::Fail(s, BridgeError::NotFound) if s.token == expected_token
        ));
        expected_token += 1;
    }
}

#[test]
fn commands_to_a_never_issued_identifier_are_not_found() {
    let mut bridge = Bridge::new();
    let ghost_window = WindowId { raw: 42 };
    let effects = bridge.step(Event::Host(Command::Focus(ghost_window, sink(1))));
    assert!(matches!(&effects[0], Effect::Fail(s, BridgeError::NotFound) if s.token == 1));
}

#[test]
fn mutations_are_handed_to_the_toolkit_before_their_ack() {
    let mut bridge = Bridge::new();
    let id = create(&mut bridge, 1);
    let effects = bridge.step(Event::Host(Command::SetTitle(id, "new".to_owned(), sink(2))));
    assert_eq!(effects.len(), 2);
    assert!(matches!(&effects[0], Effect::SetTitleNative(_, t) if t == "new"));
    assert!(matches!(&effects[1], Effect::Ack(s) if s.token == 2));

    let effects = bridge.step(Event::Host(Command::Center(id, sink(3))));
    assert!(matches!(effects[0], Effect::CenterNative(_)));
    assert!(matches!(&effects[1], Effect::Ack(s) if s.token == 3));

    let effects = bridge.step(Event::Host(Command::EvaluateScript(
        id,
        "x + 1".to_owned(),
        sink(4),
    )));
    assert!(matches!(&effects[0], Effect::EvalScriptNative(_, s) if s == "x + 1"));
    assert!(matches!(&effects[1], Effect::Ack(s) if s.token == 4));
}

#[test]
fn each_flag_kind_reaches_the_toolkit() {
    let mut bridge = Bridge::new();
    let id = create(&mut bridge, 1);
    let kinds = vec![
        FlagKind::Visible,
        FlagKind::Resizable,
        FlagKind::Minimized,
        FlagKind::AlwaysOnTop,
        FlagKind::IgnoreCursorEvents,
        FlagKind::Frameless,
    ];
    let mut token = 2u64;
    for kind in kinds {
        let effects = bridge.step(Event::Host(Command::SetFlag(id, kind, true, sink(token))));
        assert_eq!(effects.len(), 2);
        assert!(matches!(effects[0], Effect::SetFlagNative(_, k, true) if k == kind));
        assert!(matches!(&effects[1], Effect::Ack(s) if s.token == token));
        token += 1;
    }
}

#[test]
fn devtools_commands_reach_the_toolkit() {
    let mut bridge = Bridge::new();
    let id = create(&mut bridge, 1);
    let effects = bridge.step(Event::Host(Command::OpenDevtools(id, sink(2))));
    assert!(matches!(effects[0], Effect::OpenDevtoolsNative(_)));
    assert!(matches!(&effects[1], Effect::Ack(s) if s.token == 2));
    let effects = bridge.step(Event::Host(Command::CloseDevtools(id, sink(3))));
    assert!(matches!(effects[0], Effect::CloseDevtoolsNative(_)));
    assert!(matches!(&effects[1], Effect::Ack(s) if s.token == 3));
    let effects = bridge.step(Event::Host(Command::Focus(id, sink(4))));
    assert!(matches!(effects[0], Effect::FocusNative(_)));
    assert!(matches!(&effects[1], Effect::Ack(s) if s.token == 4));
}

#[test]
fn a_well_formed_icon_is_accepted() {
    let mut bridge = Bridge::new();
    let id = create(&mut bridge, 1);
    let rgba = vec![0u8; 2 * 3 * 4];
    let effects = bridge.step(Event::Host(Command::SetIcon(id, rgba, 2, 3, sink(2))));
    assert_eq!(effects.len(), 2);
    assert!(matches!(
        &effects[0],
        Effect::SetIconNative(_, bytes, 2, 3) if bytes.len() == 24
    ));
    assert!(matches!(&effects[1], Effect::Ack(s) if s.token == 2));
}

#[test]
fn a_malformed_icon_fails_only_its_own_sink() {
    let mut bridge = Bridge::new();
    let id = create(&mut bridge, 1);
    let rgba = vec![0u8; 23];
    let effects = bridge.step(Event::Host(Command::SetIcon(id, rgba, 2, 3, sink(2))));
    assert_eq!(effects.len(), 1);
    assert!(matches!(
        &effects[0],
        Effect::Fail(s, BridgeError::BadIconData) if s.token == 2
    ));
    // The window is still alive and usable.
    let effects = bridge.step(Event::Host(Command::GetSize(id, sink(3))));
    assert!(matches!(&effects[0], Effect::ReturnSize(_, 320, 240)));
}

#[test]
fn quit_acknowledges_then_processes_nothing_more() {
    let mut bridge = Bridge::new();
    let first = create(&mut bridge, 1);
    let _second = create(&mut bridge, 2);
    let effects = bridge.step(Event::Host(Command::Quit(sink(3))));
    assert_eq!(effects.len(), 2);
    assert!(matches!(&effects[0], Effect::Ack(s) if s.token == 3));
    assert!(matches!(effects[1], Effect::StopLoop));

    // After quit, no envelope of any kind produces any effect.
    let effects = bridge.step(Event::Host(Command::CreateWindow(
        options("late", 100, 100),
        sink(4),
    )));
    assert!(effects.is_empty());
    let effects = bridge.step(Event::Host(Command::SetTitle(first, "late".to_owned(), sink(5))));
    assert!(effects.is_empty());
    let effects = bridge.step(Event::Native(NativeEvent::Message(first, "ignored".to_owned())));
    assert!(effects.is_empty());
}

#[test]
fn native_notifications_are_forwarded() {
    let mut bridge = Bridge::new();
    let id = create(&mut bridge, 1);
    let effects = bridge.step(Event::Native(NativeEvent::Message(id, "hello".to_owned())));
    assert_eq!(effects.len(), 1);
    assert!(matches!(
        &effects[0],
        Effect::NotifyIpc(w, text) if w.raw == id.raw && text == "hello"
    ));
    let effects = bridge.step(Event::Native(NativeEvent::CloseRequested(id)));
    assert_eq!(effects.len(), 1);
    assert!(matches!(effects[0], Effect::NotifyCloseRequested(w) if w.raw == id.raw));
}

#[test]
fn drag_runs_only_for_a_live_window() {
    let mut bridge = Bridge::new();
    let id = create(&mut bridge, 1);
    let effects = bridge.step(Event::Native(NativeEvent::Drag(id)));
    assert_eq!(effects.len(), 1);
    assert!(matches!(effects[0], Effect::DragNative(w) if w.raw == id.raw));

    bridge.step(Event::Host(Command::CloseWindow(id, sink(2))));
    let effects = bridge.step(Event::Native(NativeEvent::Drag(id)));
    assert!(effects.is_empty());
    let effects = bridge.step(Event::Native(NativeEvent::Resized(id, 9, 9)));
    assert!(effects.is_empty());
}
