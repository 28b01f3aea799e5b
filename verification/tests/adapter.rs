//! The native callback adapter and the placement arithmetic, exercised on
//! concrete payloads.

use window_bridge::adapter::classify_native_message;
use window_bridge::bridge::Bridge;
use window_bridge::center_position;
use window_bridge::envelope::{Command, CompletionSink, Effect, Event, NativeEvent, WindowId};

fn wid(raw: usize) -> WindowId {
    WindowId { raw }
}

#[test]
fn ipc_prefix_is_stripped_and_nothing_else() {
    let event = classify_native_message(wid(0), "ipc:hello");
    match event {
        Some(Event::Native(NativeEvent::Message(w, text))) => {
            assert_eq!(w.raw, 0);
            assert_eq!(text, "hello");
        }
        _ => panic!("expected an in-page message event"),
    }
}

#[test]
fn an_empty_ipc_body_is_still_a_message() {
    match classify_native_message(wid(3), "ipc:") {
        Some(Event::Native(NativeEvent::Message(w, text))) => {
            assert_eq!(w.raw, 3);
            assert_eq!(text, "");
        }
        _ => panic!("expected an in-page message event"),
    }
}

#[test]
fn the_prefix_is_stripped_once_only() {
    match classify_native_message(wid(0), "ipc:ipc:x") {
        Some(Event::Native(NativeEvent::Message(_, text))) => {
            assert_eq!(text, "ipc:x");
        }
        _ => panic!("expected an in-page message event"),
    }
}

#[test]
fn the_drag_token_becomes_a_drag_event() {
    match classify_native_message(wid(5), "drag-window") {
        Some(Event::Native(NativeEvent::Drag(w))) => assert_eq!(w.raw, 5),
        _ => panic!("expected a drag event"),
    }
}

#[test]
fn unrecognized_payloads_are_silently_discarded() {
    assert!(classify_native_message(wid(0), "").is_none());
    assert!(classify_native_message(wid(0), "hello").is_none());
    assert!(classify_native_message(wid(0), "ipc").is_none());
    assert!(classify_native_message(wid(0), "IPC:x").is_none());
    assert!(classify_native_message(wid(0), "xipc:y").is_none());
    assert!(classify_native_message(wid(0), "drag-window ").is_none());
    assert!(classify_native_message(wid(0), "drag-windo").is_none());
}

#[test]
fn an_ipc_message_reaches_the_host_with_its_exact_body() {
    let mut bridge = Bridge::new();
    let effects = bridge.step(Event::Host(Command::CreateWindow(
        window_bridge::envelope::WindowOptions {
            title: "w".to_owned(),
            devtools: false,
            transparent: false,
            frameless: false,
            width: 100,
            height: 100,
            visible: true,
            resizable: true,
            initialization_script: String::new(),
        },
        CompletionSink { token: 1 },
    )));
    let id = match &effects[1] {
        Effect::ReturnWindowId(_, id) => *id,
        _ => panic!("expected a window identifier completion"),
    };
    let event = classify_native_message(id, "ipc:hello").expect("a recognized payload");
    let effects = bridge.step(event);
    assert_eq!(effects.len(), 1);
    assert!(matches!(
        &effects[0],
        Effect::NotifyIpc(w, text) if w.raw == id.raw && text == "hello"
    ));
}

#[test]
fn centering_truncates_the_sub_pixel_remainder() {
    assert_eq!(center_position(1920, 1080, 800, 600), (560, 240));
    assert_eq!(center_position(1921, 1081, 800, 600), (560, 240));
    assert_eq!(center_position(101, 101, 100, 100), (0, 0));
    assert_eq!(center_position(800, 600, 800, 600), (0, 0));
}
