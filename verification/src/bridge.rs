//! The loop thread's core: one transition per envelope.
//!
//! [`Bridge::step`] is what the loop thread does with each dequeued
//! [`Event`]: it updates the registry and answers with the sequence of
//! [`Effect`]s to perform, in order. All native operations stand before
//! the completion that reports them, so a host that receives an
//! acknowledgment can rely on the mutation being done; a rejected command
//! answers its own sink with an error instead of taking down the loop.
//!
//! The full behaviour is pinned by the specification function
//! [`step_spec`], of which the executable step is a proved refinement.
//! A `CloseWindow` acknowledgment fires after the registry entry is gone
//! and after the native destroy effect; a `Quit` acknowledgment fires
//! before the loop stops, and a stopped loop processes nothing at all.

use vstd::prelude::*;
use crate::envelope::{
    BridgeError, Command, CompletionSink, Effect, Event, FlagKind, NativeEvent, WindowId,
};
use crate::registry::{initial_model, Registry, WindowModel, WindowProps, WindowState};

verus! {

/// The abstract state of the bridge: whether the loop still accepts work,
/// and the model of every slot the registry ever issued.
#[verifier::ext_equal]
pub struct BridgeModel {
    pub running: bool,
    pub windows: Seq<Option<WindowModel>>,
}

impl BridgeModel {
    /// Whether `id` was ever issued.
    pub open spec fn issued(self, id: WindowId) -> bool {
        id.raw < self.windows.len()
    }

    /// Whether `id` names a window that is currently open.
    pub open spec fn live(self, id: WindowId) -> bool {
        self.issued(id) && self.windows[id.raw as int] is Some
    }

    /// The model of the window named by `id`.
    pub open spec fn win(self, id: WindowId) -> WindowModel {
        self.windows[id.raw as int].unwrap()
    }

    /// The identifier the next created window will get.
    pub open spec fn fresh_id(self) -> WindowId {
        WindowId { raw: self.windows.len() as usize }
    }

    /// This model with the window `id` replaced by `m`.
    pub open spec fn with_window(self, id: WindowId, m: WindowModel) -> BridgeModel {
        BridgeModel { windows: self.windows.update(id.raw as int, Some(m)), ..self }
    }

    /// This model with the window `id` closed.
    pub open spec fn without_window(self, id: WindowId) -> BridgeModel {
        BridgeModel { windows: self.windows.update(id.raw as int, None), ..self }
    }

    /// This model with the loop stopped.
    pub open spec fn stopped(self) -> BridgeModel {
        BridgeModel { running: false, ..self }
    }
}

/// Whether an icon buffer has exactly `width * height` RGBA quadruples.
pub open spec fn icon_len_ok(rgba: Seq<u8>, width: u32, height: u32) -> bool {
    rgba.len() == width * height * 4
}

/// The window properties `props` with one boolean flag replaced.
pub open spec fn with_flag(props: WindowProps, kind: FlagKind, value: bool) -> WindowProps {
    match kind {
        FlagKind::Visible => WindowProps { visible: value, ..props },
        FlagKind::Resizable => WindowProps { resizable: value, ..props },
        FlagKind::Minimized => WindowProps { minimized: value, ..props },
        FlagKind::AlwaysOnTop => WindowProps { always_on_top: value, ..props },
        FlagKind::IgnoreCursorEvents => WindowProps { ignore_cursor_events: value, ..props },
        FlagKind::Frameless => WindowProps { frameless: value, ..props },
    }
}

/// A command addressed to an unknown or closed window: the state is left
/// alone and the requesting sink alone is told.
pub open spec fn rejected(pre: BridgeModel, sink: CompletionSink) -> (BridgeModel, Seq<Effect>) {
    (pre, seq![Effect::Fail(sink, BridgeError::NotFound)])
}

/// What one host command does: the next state and the effects to perform,
/// in order.
pub open spec fn host_step_spec(pre: BridgeModel, cmd: Command) -> (BridgeModel, Seq<Effect>) {
    match cmd {
        Command::CreateWindow(opts, sink) => (
            BridgeModel { windows: pre.windows.push(Some(initial_model(opts))), ..pre },
            seq![
                Effect::CreateNative(pre.fresh_id(), opts),
                Effect::ReturnWindowId(sink, pre.fresh_id()),
            ],
        ),
        Command::CloseWindow(id, sink) => if pre.live(id) {
            (pre.without_window(id), seq![Effect::DestroyNative(id), Effect::Ack(sink)])
        } else {
            rejected(pre, sink)
        },
        Command::Center(id, sink) => if pre.live(id) {
            (pre, seq![Effect::CenterNative(id), Effect::Ack(sink)])
        } else {
            rejected(pre, sink)
        },
        Command::SetTitle(id, title, sink) => if pre.live(id) {
            (
                pre.with_window(
                    id,
                    (WindowModel {
                        props: (WindowProps { title: title@, ..pre.win(id).props }),
                        ..pre.win(id)
                    }),
                ),
                seq![Effect::SetTitleNative(id, title), Effect::Ack(sink)],
            )
        } else {
            rejected(pre, sink)
        },
        Command::SetFlag(id, kind, value, sink) => if pre.live(id) {
            (
                pre.with_window(
                    id,
                    (WindowModel { props: with_flag(pre.win(id).props, kind, value), ..pre.win(id) }),
                ),
                seq![Effect::SetFlagNative(id, kind, value), Effect::Ack(sink)],
            )
        } else {
            rejected(pre, sink)
        },
        Command::SetSize(id, width, height, sink) => if pre.live(id) {
            (
                pre.with_window(id, (WindowModel { width, height, ..pre.win(id) })),
                seq![Effect::SetSizeNative(id, width, height), Effect::Ack(sink)],
            )
        } else {
            rejected(pre, sink)
        },
        Command::GetSize(id, sink) => if pre.live(id) {
            (pre, seq![Effect::ReturnSize(sink, pre.win(id).width, pre.win(id).height)])
        } else {
            rejected(pre, sink)
        },
        Command::EvaluateScript(id, script, sink) => if pre.live(id) {
            (pre, seq![Effect::EvalScriptNative(id, script), Effect::Ack(sink)])
        } else {
            rejected(pre, sink)
        },
        Command::OpenDevtools(id, sink) => if pre.live(id) {
            (
                pre.with_window(
                    id,
                    (WindowModel {
                        props: (WindowProps { devtools_open: true, ..pre.win(id).props }),
                        ..pre.win(id)
                    }),
                ),
                seq![Effect::OpenDevtoolsNative(id), Effect::Ack(sink)],
            )
        } else {
            rejected(pre, sink)
        },
        Command::CloseDevtools(id, sink) => if pre.live(id) {
            (
                pre.with_window(
                    id,
                    (WindowModel {
                        props: (WindowProps { devtools_open: false, ..pre.win(id).props }),
                        ..pre.win(id)
                    }),
                ),
                seq![Effect::CloseDevtoolsNative(id), Effect::Ack(sink)],
            )
        } else {
            rejected(pre, sink)
        },
        Command::SetIcon(id, rgba, width, height, sink) => if !pre.live(id) {
            rejected(pre, sink)
        } else if !icon_len_ok(rgba@, width, height) {
            (pre, seq![Effect::Fail(sink, BridgeError::BadIconData)])
        } else {
            (pre, seq![Effect::SetIconNative(id, rgba, width, height), Effect::Ack(sink)])
        },
        Command::Focus(id, sink) => if pre.live(id) {
            (pre, seq![Effect::FocusNative(id), Effect::Ack(sink)])
        } else {
            rejected(pre, sink)
        },
        Command::Quit(sink) => (pre.stopped(), seq![Effect::Ack(sink), Effect::StopLoop]),
    }
}

/// What one native-originated event does. No sink is involved: an event
/// about a window that is no longer live is silently discarded, and
/// notifications are forwarded as they came.
pub open spec fn native_step_spec(pre: BridgeModel, ev: NativeEvent) -> (BridgeModel, Seq<Effect>) {
    match ev {
        NativeEvent::Drag(id) => if pre.live(id) {
            (pre, seq![Effect::DragNative(id)])
        } else {
            (pre, Seq::empty())
        },
        NativeEvent::Message(id, text) => (pre, seq![Effect::NotifyIpc(id, text)]),
        NativeEvent::CloseRequested(id) => (pre, seq![Effect::NotifyCloseRequested(id)]),
        NativeEvent::Resized(id, width, height) => if pre.live(id) {
            (
                pre.with_window(id, (WindowModel { width, height, ..pre.win(id) })),
                seq![Effect::ResizeSurface(id)],
            )
        } else {
            (pre, Seq::empty())
        },
    }
}

/// One transition of the loop thread. A loop that has stopped running
/// processes nothing: the state is unchanged and no effect is performed.
pub open spec fn step_spec(pre: BridgeModel, event: Event) -> (BridgeModel, Seq<Effect>) {
    if !pre.running {
        (pre, Seq::empty())
    } else {
        match event {
            Event::Host(cmd) => host_step_spec(pre, cmd),
            Event::Native(ev) => native_step_spec(pre, ev),
        }
    }
}

/// The bridge as the loop thread owns it: the registry of live windows and
/// the running flag.
pub struct Bridge {
    registry: Registry,
    running: bool,
}

impl View for Bridge {
    type V = BridgeModel;

    closed spec fn view(&self) -> BridgeModel {
        BridgeModel { running: self.running, windows: self.registry@ }
    }
}

impl Bridge {
    /// A bridge with no windows, accepting work.
    pub fn new() -> (b: Bridge)
        ensures
            b@.running,
            b@.windows == Seq::<Option<WindowModel>>::empty(),
    {
        Bridge { registry: Registry::new(), running: true }
    }

    /// Process one envelope: update the registry and hand back the effects
    /// the loop thread must perform, in order.
    pub fn step(&mut self, event: Event) -> (effects: Vec<Effect>)
        ensures
            final(self)@ == step_spec(old(self)@, event).0,
            effects@ == step_spec(old(self)@, event).1,
    {
        if !self.running {
            return Vec::new();
        }
        match event {
            Event::Host(cmd) => self.host_step(cmd),
            Event::Native(ev) => self.native_step(ev),
        }
    }

    /// Execute one host command against the registry.
    fn host_step(&mut self, cmd: Command) -> (effects: Vec<Effect>)
        requires
            old(self)@.running,
        ensures
            final(self)@ == host_step_spec(old(self)@, cmd).0,
            effects@ == host_step_spec(old(self)@, cmd).1,
    {
        let mut effects: Vec<Effect> = Vec::new();
        match cmd {
            Command::CreateWindow(opts, sink) => {
                let id = self.registry.create(&opts);
                effects.push(Effect::CreateNative(id, opts));
                effects.push(Effect::ReturnWindowId(sink, id));
            },
            Command::CloseWindow(id, sink) => {
                match self.registry.get(id) {
                    Some(_) => {
                        self.registry.remove(id);
                        effects.push(Effect::DestroyNative(id));
                        effects.push(Effect::Ack(sink));
                    },
                    None => {
                        effects.push(Effect::Fail(sink, BridgeError::NotFound));
                    },
                }
            },
            Command::Center(id, sink) => {
                match self.registry.get(id) {
                    Some(_) => {
                        effects.push(Effect::CenterNative(id));
                        effects.push(Effect::Ack(sink));
                    },
                    None => {
                        effects.push(Effect::Fail(sink, BridgeError::NotFound));
                    },
                }
            },
            Command::SetTitle(id, title, sink) => {
                match self.registry.get(id) {
                    Some(st) => {
                        let updated = WindowState {
                            width: st.width,
                            height: st.height,
                            props: Ghost((WindowProps { title: title@, ..st.props@ })),
                        };
                        self.registry.put(id, updated);
                        effects.push(Effect::SetTitleNative(id, title));
                        effects.push(Effect::Ack(sink));
                    },
                    None => {
                        effects.push(Effect::Fail(sink, BridgeError::NotFound));
                    },
                }
            },
            Command::SetFlag(id, kind, value, sink) => {
                match self.registry.get(id) {
                    Some(st) => {
                        let updated = WindowState {
                            width: st.width,
                            height: st.height,
                            props: Ghost(with_flag(st.props@, kind, value)),
                        };
                        self.registry.put(id, updated);
                        effects.push(Effect::SetFlagNative(id, kind, value));
                        effects.push(Effect::Ack(sink));
                    },
                    None => {
                        effects.push(Effect::Fail(sink, BridgeError::NotFound));
                    },
                }
            },
            Command::SetSize(id, width, height, sink) => {
                match self.registry.get(id) {
                    Some(st) => {
                        let updated = WindowState { width, height, props: st.props };
                        self.registry.put(id, updated);
                        effects.push(Effect::SetSizeNative(id, width, height));
                        effects.push(Effect::Ack(sink));
                    },
                    None => {
                        effects.push(Effect::Fail(sink, BridgeError::NotFound));
                    },
                }
            },
            Command::GetSize(id, sink) => {
                match self.registry.get(id) {
                    Some(st) => {
                        effects.push(Effect::ReturnSize(sink, st.width, st.height));
                    },
                    None => {
                        effects.push(Effect::Fail(sink, BridgeError::NotFound));
                    },
                }
            },
            Command::EvaluateScript(id, script, sink) => {
                match self.registry.get(id) {
                    Some(_) => {
                        effects.push(Effect::EvalScriptNative(id, script));
                        effects.push(Effect::Ack(sink));
                    },
                    None => {
                        effects.push(Effect::Fail(sink, BridgeError::NotFound));
                    },
                }
            },
            Command::OpenDevtools(id, sink) => {
                match self.registry.get(id) {
                    Some(st) => {
                        let updated = WindowState {
                            width: st.width,
                            height: st.height,
                            props: Ghost((WindowProps { devtools_open: true, ..st.props@ })),
                        };
                        self.registry.put(id, updated);
                        effects.push(Effect::OpenDevtoolsNative(id));
                        effects.push(Effect::Ack(sink));
                    },
                    None => {
                        effects.push(Effect::Fail(sink, BridgeError::NotFound));
                    },
                }
            },
            Command::CloseDevtools(id, sink) => {
                match self.registry.get(id) {
                    Some(st) => {
                        let updated = WindowState {
                            width: st.width,
                            height: st.height,
                            props: Ghost((WindowProps { devtools_open: false, ..st.props@ })),
                        };
                        self.registry.put(id, updated);
                        effects.push(Effect::CloseDevtoolsNative(id));
                        effects.push(Effect::Ack(sink));
                    },
                    None => {
                        effects.push(Effect::Fail(sink, BridgeError::NotFound));
                    },
                }
            },
            Command::SetIcon(id, rgba, width, height, sink) => {
                match self.registry.get(id) {
                    Some(_) => {
                        if icon_len_matches(&rgba, width, height) {
                            effects.push(Effect::SetIconNative(id, rgba, width, height));
                            effects.push(Effect::Ack(sink));
                        } else {
                            effects.push(Effect::Fail(sink, BridgeError::BadIconData));
                        }
                    },
                    None => {
                        effects.push(Effect::Fail(sink, BridgeError::NotFound));
                    },
                }
            },
            Command::Focus(id, sink) => {
                match self.registry.get(id) {
                    Some(_) => {
                        effects.push(Effect::FocusNative(id));
                        effects.push(Effect::Ack(sink));
                    },
                    None => {
                        effects.push(Effect::Fail(sink, BridgeError::NotFound));
                    },
                }
            },
            Command::Quit(sink) => {
                self.running = false;
                effects.push(Effect::Ack(sink));
                effects.push(Effect::StopLoop);
            },
        }
        effects
    }

    /// Execute one native-originated event against the registry.
    fn native_step(&mut self, ev: NativeEvent) -> (effects: Vec<Effect>)
        requires
            old(self)@.running,
        ensures
            final(self)@ == native_step_spec(old(self)@, ev).0,
            effects@ == native_step_spec(old(self)@, ev).1,
    {
        let mut effects: Vec<Effect> = Vec::new();
        match ev {
            NativeEvent::Drag(id) => {
                match self.registry.get(id) {
                    Some(_) => {
                        effects.push(Effect::DragNative(id));
                    },
                    None => {},
                }
            },
            NativeEvent::Message(id, text) => {
                effects.push(Effect::NotifyIpc(id, text));
            },
            NativeEvent::CloseRequested(id) => {
                effects.push(Effect::NotifyCloseRequested(id));
            },
            NativeEvent::Resized(id, width, height) => {
                match self.registry.get(id) {
                    Some(st) => {
                        let updated = WindowState { width, height, props: st.props };
                        self.registry.put(id, updated);
                        effects.push(Effect::ResizeSurface(id));
                    },
                    None => {},
                }
            },
        }
        effects
    }
}

/// Whether an icon buffer holds exactly `width * height` RGBA quadruples,
/// computed without overflow.
fn icon_len_matches(rgba: &Vec<u8>, width: u32, height: u32) -> (r: bool)
    ensures
        r == icon_len_ok(rgba@, width, height),
{
    proof {
        assert((width as u128) * (height as u128) <= 0xffff_ffffu128 * 0xffff_ffffu128)
            by (nonlinear_arith)
            requires
                width as u128 <= 0xffff_ffffu128,
                height as u128 <= 0xffff_ffffu128,
        ;
    }
    let expected: u128 = (width as u128) * (height as u128) * 4;
    (rgba.len() as u128) == expected
}

} // verus!
