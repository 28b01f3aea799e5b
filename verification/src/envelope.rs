//! Envelopes on the inbound queue, and the effects a step hands back.
//!
//! A host request and a native notification are two tagged cases of one
//! [`Event`] sum type, so all window mutation is serialized through the one
//! queue the loop thread drains. Each step of the loop answers with a
//! sequence of [`Effect`]s: native operations to perform, completions to
//! deliver, notifications to raise.

use vstd::prelude::*;

verus! {

/// Identifier of one window/surface pair.
///
/// The registry assigns identifiers arena-style when a window is created
/// and never hands the same identifier out twice for the lifetime of the
/// loop; the registry, not any host-held copy, is the single source of
/// truth for whether an identifier is still valid.
#[derive(Clone, Copy, PartialEq, Eq, Structural, Debug)]
pub struct WindowId {
    pub raw: usize,
}

/// Whether two window identifiers name the same window.
///
/// Equality of identifiers is pure and carries no thread affinity.
pub fn window_id_eq(a: WindowId, b: WindowId) -> (r: bool)
    ensures
        r == (a == b),
{
    a.raw == b.raw
}

/// One-shot handle through which a result returns to the host's own
/// execution context.
///
/// The type is deliberately not cloneable: an envelope's sink can be moved
/// into exactly one completion effect, which makes "exactly one completion
/// per sink" a property of ownership rather than of convention.
pub struct CompletionSink {
    pub token: u64,
}

/// A failure delivered to the requesting sink instead of tearing the whole
/// loop down.
#[derive(Clone, Copy, PartialEq, Eq, Structural, Debug)]
pub enum BridgeError {
    /// The target window was never created or has already been closed.
    NotFound,
    /// An icon buffer whose length is not `width * height * 4`.
    BadIconData,
}

/// The boolean window properties the host can toggle.
#[derive(Clone, Copy, PartialEq, Eq, Structural, Debug)]
pub enum FlagKind {
    Visible,
    Resizable,
    Minimized,
    AlwaysOnTop,
    IgnoreCursorEvents,
    Frameless,
}

/// Everything a new window is built with.
pub struct WindowOptions {
    pub title: String,
    pub devtools: bool,
    pub transparent: bool,
    pub frameless: bool,
    pub width: u32,
    pub height: u32,
    pub visible: bool,
    pub resizable: bool,
    pub initialization_script: String,
}

/// A host-initiated request. Every request carries the sink its result
/// must come back on; every request except `CreateWindow` and `Quit` is
/// addressed to one window.
pub enum Command {
    CreateWindow(WindowOptions, CompletionSink),
    CloseWindow(WindowId, CompletionSink),
    Center(WindowId, CompletionSink),
    SetTitle(WindowId, String, CompletionSink),
    SetFlag(WindowId, FlagKind, bool, CompletionSink),
    SetSize(WindowId, u32, u32, CompletionSink),
    GetSize(WindowId, CompletionSink),
    EvaluateScript(WindowId, String, CompletionSink),
    OpenDevtools(WindowId, CompletionSink),
    CloseDevtools(WindowId, CompletionSink),
    SetIcon(WindowId, Vec<u8>, u32, u32, CompletionSink),
    Focus(WindowId, CompletionSink),
    Quit(CompletionSink),
}

/// An event originated by the native toolkit rather than by the host.
/// None carries a sink: nobody awaits a notification.
pub enum NativeEvent {
    /// The page asked to start dragging its window.
    Drag(WindowId),
    /// An in-page message, already stripped of its control prefix.
    Message(WindowId, String),
    /// The user asked to close the window.
    CloseRequested(WindowId),
    /// The toolkit resized the window.
    Resized(WindowId, u32, u32),
}

/// One unit on the inbound queue.
pub enum Event {
    Host(Command),
    Native(NativeEvent),
}

/// What the loop thread must do after a step, in order.
pub enum Effect {
    /// Build the native window and surface under the given identifier.
    CreateNative(WindowId, WindowOptions),
    /// Drop the native window and surface.
    DestroyNative(WindowId),
    /// Center the window on its current monitor.
    CenterNative(WindowId),
    SetTitleNative(WindowId, String),
    SetFlagNative(WindowId, FlagKind, bool),
    SetSizeNative(WindowId, u32, u32),
    EvalScriptNative(WindowId, String),
    OpenDevtoolsNative(WindowId),
    CloseDevtoolsNative(WindowId),
    SetIconNative(WindowId, Vec<u8>, u32, u32),
    FocusNative(WindowId),
    /// Begin an interactive window drag.
    DragNative(WindowId),
    /// Re-fit the rendering surface to the window's new bounds.
    ResizeSurface(WindowId),
    /// Zero-argument completion: the operation is done.
    Ack(CompletionSink),
    /// Value-carrying completion: the identifier of a new window.
    ReturnWindowId(CompletionSink, WindowId),
    /// Value-carrying completion: the window's current size.
    ReturnSize(CompletionSink, u32, u32),
    /// The request failed; nothing was done.
    Fail(CompletionSink, BridgeError),
    /// Unsolicited notification: an in-page message for the host.
    NotifyIpc(WindowId, String),
    /// Unsolicited notification: the user asked to close this window.
    NotifyCloseRequested(WindowId),
    /// Terminate the loop thread.
    StopLoop,
}

/// The window a command is addressed to, if any.
pub open spec fn target_of(cmd: Command) -> Option<WindowId> {
    match cmd {
        Command::CreateWindow(_, _) => None,
        Command::CloseWindow(id, _) => Some(id),
        Command::Center(id, _) => Some(id),
        Command::SetTitle(id, _, _) => Some(id),
        Command::SetFlag(id, _, _, _) => Some(id),
        Command::SetSize(id, _, _, _) => Some(id),
        Command::GetSize(id, _) => Some(id),
        Command::EvaluateScript(id, _, _) => Some(id),
        Command::OpenDevtools(id, _) => Some(id),
        Command::CloseDevtools(id, _) => Some(id),
        Command::SetIcon(id, _, _, _, _) => Some(id),
        Command::Focus(id, _) => Some(id),
        Command::Quit(_) => None,
    }
}

/// The sink a command's result must come back on.
pub open spec fn sink_of(cmd: Command) -> CompletionSink {
    match cmd {
        Command::CreateWindow(_, s) => s,
        Command::CloseWindow(_, s) => s,
        Command::Center(_, s) => s,
        Command::SetTitle(_, _, s) => s,
        Command::SetFlag(_, _, _, s) => s,
        Command::SetSize(_, _, _, s) => s,
        Command::GetSize(_, s) => s,
        Command::EvaluateScript(_, _, s) => s,
        Command::OpenDevtools(_, s) => s,
        Command::CloseDevtools(_, s) => s,
        Command::SetIcon(_, _, _, _, s) => s,
        Command::Focus(_, s) => s,
        Command::Quit(s) => s,
    }
}

/// Effects that touch a native window or its surface.
pub open spec fn is_window_operation(e: Effect) -> bool {
    match e {
        Effect::CreateNative(_, _) => true,
        Effect::DestroyNative(_) => true,
        Effect::CenterNative(_) => true,
        Effect::SetTitleNative(_, _) => true,
        Effect::SetFlagNative(_, _, _) => true,
        Effect::SetSizeNative(_, _, _) => true,
        Effect::EvalScriptNative(_, _) => true,
        Effect::OpenDevtoolsNative(_) => true,
        Effect::CloseDevtoolsNative(_) => true,
        Effect::SetIconNative(_, _, _, _) => true,
        Effect::FocusNative(_) => true,
        Effect::DragNative(_) => true,
        Effect::ResizeSurface(_) => true,
        _ => false,
    }
}

/// Effects that deliver a result on a sink.
pub open spec fn is_completion(e: Effect) -> bool {
    match e {
        Effect::Ack(_) => true,
        Effect::ReturnWindowId(_, _) => true,
        Effect::ReturnSize(_, _, _) => true,
        Effect::Fail(_, _) => true,
        _ => false,
    }
}

/// The sink a completion effect fires, if it is one.
pub open spec fn completion_sink_of(e: Effect) -> Option<CompletionSink> {
    match e {
        Effect::Ack(s) => Some(s),
        Effect::ReturnWindowId(s, _) => Some(s),
        Effect::ReturnSize(s, _, _) => Some(s),
        Effect::Fail(s, _) => Some(s),
        _ => None,
    }
}

} // verus!
