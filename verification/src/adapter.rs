//! The native callback adapter.
//!
//! The page-embedded bridge script talks to the loop thread through raw
//! strings. Exactly two control forms are recognized: the drag token, and
//! an `ipc:`-prefixed payload whose suffix is the message body. Anything
//! else is silently discarded — a deliberate permissive default, not an
//! error. A recognized string becomes an [`Event`] that re-enters the same
//! queue every host command uses, so window mutation stays serialized in
//! one place whatever the origin.

use vstd::prelude::*;
use vstd::string::StrSliceExecFns;
use crate::envelope::{Event, NativeEvent, WindowId};

verus! {

/// The exact control token that begins an interactive window drag.
pub open spec fn drag_token() -> Seq<char> {
    "drag-window"@
}

/// The prefix that marks an in-page message addressed to the host.
pub open spec fn ipc_prefix() -> Seq<char> {
    "ipc:"@
}

/// What one raw native payload means.
pub enum MessageClass {
    /// The drag token, exactly.
    Drag,
    /// An `ipc:`-prefixed payload; the field is the suffix after the
    /// prefix, which is stripped and not included.
    Ipc(Seq<char>),
    /// Anything else: discarded.
    Ignored,
}

/// The meaning of a raw native payload. The drag token is matched whole;
/// an `ipc:` prefix keeps exactly the suffix as the message body.
pub open spec fn classify_spec(s: Seq<char>) -> MessageClass {
    if s == drag_token() {
        MessageClass::Drag
    } else if s.len() >= ipc_prefix().len() && s.subrange(0, ipc_prefix().len() as int)
        == ipc_prefix() {
        MessageClass::Ipc(s.skip(ipc_prefix().len() as int))
    } else {
        MessageClass::Ignored
    }
}

/// Whether two string slices read the same characters.
fn str_eq(a: &str, b: &str) -> (r: bool)
    ensures
        r == (a@ == b@),
{
    let a_len = a.unicode_len();
    let b_len = b.unicode_len();
    if a_len != b_len {
        return false;
    }
    let mut i: usize = 0;
    while i < a_len
        invariant
            0 <= i <= a_len,
            a_len == a@.len(),
            b_len == b@.len(),
            a_len == b_len,
            forall|j: int| 0 <= j < i ==> a@[j] == b@[j],
        decreases a_len - i,
    {
        if a.get_char(i) != b.get_char(i) {
            return false;
        }
        i += 1;
    }
    proof {
        assert(a@ =~= b@);
    }
    true
}

/// Whether `s` begins with the `ipc:` prefix.
fn has_ipc_prefix(s: &str) -> (r: bool)
    ensures
        r == (s@.len() >= ipc_prefix().len() && s@.subrange(0, ipc_prefix().len() as int)
            == ipc_prefix()),
{
    proof {
        reveal_strlit("ipc:");
    }
    let n = s.unicode_len();
    if n < 4 {
        return false;
    }
    let hit = s.get_char(0) == 'i' && s.get_char(1) == 'p' && s.get_char(2) == 'c'
        && s.get_char(3) == ':';
    proof {
        let prefix = s@.subrange(0, 4);
        assert(prefix[0] == s@[0]);
        assert(prefix[1] == s@[1]);
        assert(prefix[2] == s@[2]);
        assert(prefix[3] == s@[3]);
        if hit {
            assert(prefix =~= ipc_prefix());
        }
    }
    hit
}

/// Turn one raw payload from a window's in-page script into the event the
/// loop must process, or `None` for an unrecognized payload.
pub fn classify_native_message(id: WindowId, raw: &str) -> (r: Option<Event>)
    ensures
        classify_spec(raw@) is Drag ==> r == Some(Event::Native(NativeEvent::Drag(id))),
        (classify_spec(raw@) matches MessageClass::Ipc(body) ==> (r matches Some(ev)
            && ev matches Event::Native(NativeEvent::Message(w, text)) && w == id && text@
            == body)),
        classify_spec(raw@) is Ignored ==> r is None,
{
    if str_eq(raw, "drag-window") {
        Some(Event::Native(NativeEvent::Drag(id)))
    } else if has_ipc_prefix(raw) {
        proof {
            reveal_strlit("ipc:");
        }
        let n = raw.unicode_len();
        let body = raw.substring_char(4, n).to_owned();
        proof {
            assert(raw@.subrange(4, n as int) =~= raw@.skip(ipc_prefix().len() as int));
        }
        Some(Event::Native(NativeEvent::Message(id, body)))
    } else {
        None
    }
}

} // verus!
