//! Guarantees of the bridge protocol, stated and proved once over the
//! transition function rather than re-checked at every call site.
//!
//! Each proof function below is a law of [`step_spec`]: how completions
//! are ordered against native operations, that identifiers are never
//! reused, that a closed window stays closed and rejects every later
//! command, that a quit acknowledgment is the loop's last word.

use vstd::prelude::*;
use crate::adapter::{classify_spec, drag_token, ipc_prefix, MessageClass};
use crate::bridge::{icon_len_ok, step_spec, BridgeModel};
use crate::envelope::{
    completion_sink_of, is_completion, is_window_operation, sink_of, target_of, BridgeError,
    Command, CompletionSink, Effect, Event, NativeEvent, WindowId, WindowOptions,
};

verus! {

/// The state after the loop has processed `events` in order, starting
/// from `pre`.
pub open spec fn run_spec(pre: BridgeModel, events: Seq<Event>) -> BridgeModel
    decreases events.len(),
{
    if events.len() == 0 {
        pre
    } else {
        run_spec(step_spec(pre, events[0]).0, events.skip(1))
    }
}

/// No completion in `effects` stands before a native window operation:
/// whatever a step asks the toolkit to do is done before any of the
/// step's results reach the host.
pub open spec fn completions_last(effects: Seq<Effect>) -> bool {
    forall|i: int, j: int|
        0 <= i < effects.len() && 0 <= j < effects.len() && is_window_operation(effects[i])
            && is_completion(effects[j]) ==> i < j
}

/// In every step, every completion comes after every native window
/// operation of that step, so an acknowledgment never overtakes the
/// mutation it reports.
pub proof fn lemma_completions_follow_operations(pre: BridgeModel, event: Event)
    ensures
        completions_last(step_spec(pre, event).1),
{
    if pre.running {
        match event {
            Event::Host(cmd) => {
                match cmd {
                    Command::CreateWindow(..) => {},
                    Command::CloseWindow(..) => {},
                    Command::Center(..) => {},
                    Command::SetTitle(..) => {},
                    Command::SetFlag(..) => {},
                    Command::SetSize(..) => {},
                    Command::GetSize(..) => {},
                    Command::EvaluateScript(..) => {},
                    Command::OpenDevtools(..) => {},
                    Command::CloseDevtools(..) => {},
                    Command::SetIcon(..) => {},
                    Command::Focus(..) => {},
                    Command::Quit(..) => {},
                }
            },
            Event::Native(ev) => {
                match ev {
                    NativeEvent::Drag(..) => {},
                    NativeEvent::Message(..) => {},
                    NativeEvent::CloseRequested(..) => {},
                    NativeEvent::Resized(..) => {},
                }
            },
        }
    }
}

/// The completion at index `i` is the only one in `effects`, and it fires
/// on `sink`.
pub open spec fn answers_exactly_once(effects: Seq<Effect>, sink: CompletionSink, i: int) -> bool {
    &&& 0 <= i < effects.len()
    &&& is_completion(effects[i])
    &&& completion_sink_of(effects[i]) == Some(sink)
    &&& forall|j: int| 0 <= j < effects.len() && is_completion(#[trigger] effects[j]) ==> j == i
}

/// Every host command a running loop processes is answered on exactly its
/// own sink, exactly once: one completion stands in the step's effects, it
/// carries the command's sink, and no other completion does.
pub proof fn lemma_exactly_one_completion(pre: BridgeModel, cmd: Command)
    requires
        pre.running,
    ensures
        exists|i: int|
            answers_exactly_once(step_spec(pre, Event::Host(cmd)).1, sink_of(cmd), i),
{
    let effects = step_spec(pre, Event::Host(cmd)).1;
    match cmd {
        Command::CreateWindow(..) => {
            assert(answers_exactly_once(effects, sink_of(cmd), 1));
        },
        Command::CloseWindow(w, _) => {
            if pre.live(w) {
                assert(answers_exactly_once(effects, sink_of(cmd), 1));
            } else {
                assert(answers_exactly_once(effects, sink_of(cmd), 0));
            }
        },
        Command::Center(w, _) => {
            if pre.live(w) {
                assert(answers_exactly_once(effects, sink_of(cmd), 1));
            } else {
                assert(answers_exactly_once(effects, sink_of(cmd), 0));
            }
        },
        Command::SetTitle(w, _, _) => {
            if pre.live(w) {
                assert(answers_exactly_once(effects, sink_of(cmd), 1));
            } else {
                assert(answers_exactly_once(effects, sink_of(cmd), 0));
            }
        },
        Command::SetFlag(w, _, _, _) => {
            if pre.live(w) {
                assert(answers_exactly_once(effects, sink_of(cmd), 1));
            } else {
                assert(answers_exactly_once(effects, sink_of(cmd), 0));
            }
        },
        Command::SetSize(w, _, _, _) => {
            if pre.live(w) {
                assert(answers_exactly_once(effects, sink_of(cmd), 1));
            } else {
                assert(answers_exactly_once(effects, sink_of(cmd), 0));
            }
        },
        Command::GetSize(..) => {
            assert(answers_exactly_once(effects, sink_of(cmd), 0));
        },
        Command::EvaluateScript(w, _, _) => {
            if pre.live(w) {
                assert(answers_exactly_once(effects, sink_of(cmd), 1));
            } else {
                assert(answers_exactly_once(effects, sink_of(cmd), 0));
            }
        },
        Command::OpenDevtools(w, _) => {
            if pre.live(w) {
                assert(answers_exactly_once(effects, sink_of(cmd), 1));
            } else {
                assert(answers_exactly_once(effects, sink_of(cmd), 0));
            }
        },
        Command::CloseDevtools(w, _) => {
            if pre.live(w) {
                assert(answers_exactly_once(effects, sink_of(cmd), 1));
            } else {
                assert(answers_exactly_once(effects, sink_of(cmd), 0));
            }
        },
        Command::SetIcon(w, rgba, width, height, _) => {
            if pre.live(w) && icon_len_ok(rgba@, width, height) {
                assert(answers_exactly_once(effects, sink_of(cmd), 1));
            } else {
                assert(answers_exactly_once(effects, sink_of(cmd), 0));
            }
        },
        Command::Focus(w, _) => {
            if pre.live(w) {
                assert(answers_exactly_once(effects, sink_of(cmd), 1));
            } else {
                assert(answers_exactly_once(effects, sink_of(cmd), 0));
            }
        },
        Command::Quit(..) => {
            assert(answers_exactly_once(effects, sink_of(cmd), 0));
        },
    }
}

/// A native-originated event never fires a completion: nobody awaits one.
pub proof fn lemma_native_events_complete_nothing(pre: BridgeModel, ev: NativeEvent)
    ensures
        forall|j: int|
            0 <= j < step_spec(pre, Event::Native(ev)).1.len() ==> !is_completion(
                #[trigger] step_spec(pre, Event::Native(ev)).1[j],
            ),
{
    if pre.running {
        match ev {
            NativeEvent::Drag(..) => {},
            NativeEvent::Message(..) => {},
            NativeEvent::CloseRequested(..) => {},
            NativeEvent::Resized(..) => {},
        }
    }
}

/// A set size is observable the moment it is acknowledged: a `GetSize`
/// right after a `SetSize` answers exactly the size that was set, with no
/// adjustment, and the acknowledgment of the `SetSize` fires only after
/// the native resize was handed to the toolkit.
pub proof fn lemma_set_size_then_get_size(
    pre: BridgeModel,
    id: WindowId,
    width: u32,
    height: u32,
    s1: CompletionSink,
    s2: CompletionSink,
)
    requires
        pre.running,
        pre.live(id),
    ensures
        step_spec(pre, Event::Host(Command::SetSize(id, width, height, s1))).1 == seq![
            Effect::SetSizeNative(id, width, height),
            Effect::Ack(s1),
        ],
        step_spec(
            step_spec(pre, Event::Host(Command::SetSize(id, width, height, s1))).0,
            Event::Host(Command::GetSize(id, s2)),
        ).1 == seq![Effect::ReturnSize(s2, width, height)],
{
}

/// A freshly created window gets an identifier that was never issued
/// before, and the completion returns exactly that identifier.
pub proof fn lemma_create_issues_fresh_id(
    pre: BridgeModel,
    opts: WindowOptions,
    sink: CompletionSink,
)
    requires
        pre.running,
        pre.windows.len() <= usize::MAX,
    ensures
        step_spec(pre, Event::Host(Command::CreateWindow(opts, sink))).1 == seq![
            Effect::CreateNative(pre.fresh_id(), opts),
            Effect::ReturnWindowId(sink, pre.fresh_id()),
        ],
        !pre.issued(pre.fresh_id()),
        step_spec(pre, Event::Host(Command::CreateWindow(opts, sink))).0.live(pre.fresh_id()),
{
}

/// No step forgets an issued identifier.
pub proof fn lemma_issued_monotone_step(pre: BridgeModel, event: Event, id: WindowId)
    requires
        pre.issued(id),
    ensures
        step_spec(pre, event).0.issued(id),
{
    if pre.running {
        match event {
            Event::Host(cmd) => {
                match cmd {
                    Command::CreateWindow(..) => {},
                    Command::CloseWindow(..) => {},
                    Command::Center(..) => {},
                    Command::SetTitle(..) => {},
                    Command::SetFlag(..) => {},
                    Command::SetSize(..) => {},
                    Command::GetSize(..) => {},
                    Command::EvaluateScript(..) => {},
                    Command::OpenDevtools(..) => {},
                    Command::CloseDevtools(..) => {},
                    Command::SetIcon(..) => {},
                    Command::Focus(..) => {},
                    Command::Quit(..) => {},
                }
            },
            Event::Native(ev) => {
                match ev {
                    NativeEvent::Drag(..) => {},
                    NativeEvent::Message(..) => {},
                    NativeEvent::CloseRequested(..) => {},
                    NativeEvent::Resized(..) => {},
                }
            },
        }
    }
}

/// No run forgets an issued identifier.
pub proof fn lemma_issued_monotone(pre: BridgeModel, events: Seq<Event>, id: WindowId)
    requires
        pre.issued(id),
    ensures
        run_spec(pre, events).issued(id),
    decreases events.len(),
{
    if events.len() > 0 {
        lemma_issued_monotone_step(pre, events[0], id);
        lemma_issued_monotone(step_spec(pre, events[0]).0, events.skip(1), id);
    }
}

/// One step never revives a closed window.
pub proof fn lemma_closed_stays_closed_step(pre: BridgeModel, event: Event, id: WindowId)
    requires
        pre.issued(id),
        !pre.live(id),
    ensures
        step_spec(pre, event).0.issued(id),
        !step_spec(pre, event).0.live(id),
{
    lemma_issued_monotone_step(pre, event, id);
    if pre.running {
        match event {
            Event::Host(cmd) => {
                match cmd {
                    Command::CreateWindow(..) => {},
                    Command::CloseWindow(..) => {},
                    Command::Center(..) => {},
                    Command::SetTitle(..) => {},
                    Command::SetFlag(..) => {},
                    Command::SetSize(..) => {},
                    Command::GetSize(..) => {},
                    Command::EvaluateScript(..) => {},
                    Command::OpenDevtools(..) => {},
                    Command::CloseDevtools(..) => {},
                    Command::SetIcon(..) => {},
                    Command::Focus(..) => {},
                    Command::Quit(..) => {},
                }
            },
            Event::Native(ev) => {
                match ev {
                    NativeEvent::Drag(..) => {},
                    NativeEvent::Message(..) => {},
                    NativeEvent::CloseRequested(..) => {},
                    NativeEvent::Resized(..) => {},
                }
            },
        }
    }
}

/// No run revives a closed window: its identifier stays issued and dead.
pub proof fn lemma_closed_stays_closed(pre: BridgeModel, events: Seq<Event>, id: WindowId)
    requires
        pre.issued(id),
        !pre.live(id),
    ensures
        run_spec(pre, events).issued(id),
        !run_spec(pre, events).live(id),
    decreases events.len(),
{
    if events.len() > 0 {
        lemma_closed_stays_closed_step(pre, events[0], id);
        lemma_closed_stays_closed(step_spec(pre, events[0]).0, events.skip(1), id);
    }
}

/// Closing a window makes every later command addressed to it fail as
/// `NotFound`, however many envelopes of any kind intervene: it never
/// silently succeeds and never touches another window. (If the loop has
/// stopped meanwhile, the command is not processed at all.)
pub proof fn lemma_commands_after_close_rejected(
    pre: BridgeModel,
    id: WindowId,
    sink: CompletionSink,
    events: Seq<Event>,
    cmd: Command,
)
    requires
        pre.running,
        pre.live(id),
        target_of(cmd) == Some(id),
    ensures
        !run_spec(step_spec(pre, Event::Host(Command::CloseWindow(id, sink))).0, events).live(id),
        step_spec(
            run_spec(step_spec(pre, Event::Host(Command::CloseWindow(id, sink))).0, events),
            Event::Host(cmd),
        ).0 == run_spec(step_spec(pre, Event::Host(Command::CloseWindow(id, sink))).0, events),
        run_spec(step_spec(pre, Event::Host(Command::CloseWindow(id, sink))).0, events).running
            ==> step_spec(
            run_spec(step_spec(pre, Event::Host(Command::CloseWindow(id, sink))).0, events),
            Event::Host(cmd),
        ).1 == seq![Effect::Fail(sink_of(cmd), BridgeError::NotFound)],
        !run_spec(step_spec(pre, Event::Host(Command::CloseWindow(id, sink))).0, events).running
            ==> step_spec(
            run_spec(step_spec(pre, Event::Host(Command::CloseWindow(id, sink))).0, events),
            Event::Host(cmd),
        ).1 == Seq::<Effect>::empty(),
{
    let closed = step_spec(pre, Event::Host(Command::CloseWindow(id, sink))).0;
    lemma_closed_stays_closed(closed, events, id);
    let later = run_spec(closed, events);
    if later.running {
        match cmd {
            Command::CreateWindow(..) => {},
            Command::CloseWindow(..) => {},
            Command::Center(..) => {},
            Command::SetTitle(..) => {},
            Command::SetFlag(..) => {},
            Command::SetSize(..) => {},
            Command::GetSize(..) => {},
            Command::EvaluateScript(..) => {},
            Command::OpenDevtools(..) => {},
            Command::CloseDevtools(..) => {},
            Command::SetIcon(..) => {},
            Command::Focus(..) => {},
            Command::Quit(..) => {},
        }
    }
}

/// A stopped loop is inert: any envelope leaves the state alone and
/// produces no effect at all.
pub proof fn lemma_stopped_is_inert(m: BridgeModel, event: Event)
    requires
        !m.running,
    ensures
        step_spec(m, event).0 == m,
        step_spec(m, event).1 == Seq::<Effect>::empty(),
{
}

/// A stopped loop stays inert through any run of envelopes.
pub proof fn lemma_stopped_stays_stopped(m: BridgeModel, events: Seq<Event>)
    requires
        !m.running,
    ensures
        run_spec(m, events) == m,
    decreases events.len(),
{
    if events.len() > 0 {
        lemma_stopped_stays_stopped(m, events.skip(1));
    }
}

/// Quit acknowledges on its own sink before the loop stops, and after it
/// no envelope is processed: the state never changes again and no further
/// effect — no completion, no native operation — is ever produced.
pub proof fn lemma_quit_stops_the_loop(pre: BridgeModel, sink: CompletionSink, events: Seq<Event>)
    requires
        pre.running,
    ensures
        step_spec(pre, Event::Host(Command::Quit(sink))).1 == seq![
            Effect::Ack(sink),
            Effect::StopLoop,
        ],
        !step_spec(pre, Event::Host(Command::Quit(sink))).0.running,
        run_spec(step_spec(pre, Event::Host(Command::Quit(sink))).0, events) == step_spec(
            pre,
            Event::Host(Command::Quit(sink)),
        ).0,
        forall|ev: Event|
            #![trigger step_spec(step_spec(pre, Event::Host(Command::Quit(sink))).0, ev)]
            step_spec(step_spec(pre, Event::Host(Command::Quit(sink))).0, ev).1
                == Seq::<Effect>::empty(),
{
    let post = step_spec(pre, Event::Host(Command::Quit(sink))).0;
    lemma_stopped_stays_stopped(post, events);
}

/// Identifiers from two different `CreateWindow` steps are different,
/// however many envelopes stand between them. (The length bounds hold of
/// every state a real registry, which stores its slots in a vector, can
/// be in.)
pub proof fn lemma_distinct_creates_distinct_ids(
    pre: BridgeModel,
    opts1: WindowOptions,
    s1: CompletionSink,
    events: Seq<Event>,
    opts2: WindowOptions,
    s2: CompletionSink,
)
    requires
        pre.running,
        pre.windows.len() <= usize::MAX,
        run_spec(
            step_spec(pre, Event::Host(Command::CreateWindow(opts1, s1))).0,
            events,
        ).windows.len() <= usize::MAX,
        run_spec(step_spec(pre, Event::Host(Command::CreateWindow(opts1, s1))).0, events).running,
    ensures
        run_spec(step_spec(pre, Event::Host(Command::CreateWindow(opts1, s1))).0, events).fresh_id()
            != pre.fresh_id(),
        step_spec(
            run_spec(step_spec(pre, Event::Host(Command::CreateWindow(opts1, s1))).0, events),
            Event::Host(Command::CreateWindow(opts2, s2)),
        ).1 == seq![
            Effect::CreateNative(
                run_spec(
                    step_spec(pre, Event::Host(Command::CreateWindow(opts1, s1))).0,
                    events,
                ).fresh_id(),
                opts2,
            ),
            Effect::ReturnWindowId(
                s2,
                run_spec(
                    step_spec(pre, Event::Host(Command::CreateWindow(opts1, s1))).0,
                    events,
                ).fresh_id(),
            ),
        ],
{
    let id1 = pre.fresh_id();
    let mid = step_spec(pre, Event::Host(Command::CreateWindow(opts1, s1))).0;
    assert(mid.issued(id1));
    lemma_issued_monotone(mid, events, id1);
}

/// An `ipc:`-prefixed native payload reaches the host as an unsolicited
/// notification whose body is exactly the suffix after the prefix — the
/// prefix is stripped, nothing else is altered — and the loop state does
/// not change.
pub proof fn lemma_ipc_message_delivered(
    pre: BridgeModel,
    id: WindowId,
    raw: Seq<char>,
    text: String,
)
    requires
        pre.running,
        raw != drag_token(),
        raw.len() >= ipc_prefix().len(),
        raw.subrange(0, ipc_prefix().len() as int) == ipc_prefix(),
        text@ == raw.skip(ipc_prefix().len() as int),
    ensures
        classify_spec(raw) == MessageClass::Ipc(text@),
        step_spec(pre, Event::Native(NativeEvent::Message(id, text))).1 == seq![
            Effect::NotifyIpc(id, text),
        ],
        step_spec(pre, Event::Native(NativeEvent::Message(id, text))).0 == pre,
{
}

} // verus!
