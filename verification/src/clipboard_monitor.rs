//! The clipboard monitor: what a sample of the local clipboard leads to,
//! and how the "last observed" text keeps remote text from echoing back.

use vstd::prelude::*;
use vstd::utf8::encode_utf8;
use crate::ids::Topic;
use crate::messages::{ClipboardPayload, ClipboardPayloadView};
use crate::gossip_ops::{clipboard_action_of, IgnoreReason, ReceiveActionView};
use crate::state::{AppState, AppStateView};

verus! {

/// Seconds between two samples of the clipboard.
pub const POLL_INTERVAL_SECS: u64 = 2;

/// Whether `needle` stands in `hay` at position `i`.
pub open spec fn occurs_at(hay: Seq<u8>, needle: Seq<u8>, i: int) -> bool {
    0 <= i && i + needle.len() <= hay.len() && hay.subrange(i, i + needle.len()) == needle
}

/// Whether `needle` stands somewhere in `hay`.
pub open spec fn occurs_in(hay: Seq<u8>, needle: Seq<u8>) -> bool {
    exists|i: int| occurs_at(hay, needle, i)
}

/// Compares `needle` with the bytes of `hay` from position `i` on.
fn matches_at(hay: &[u8], needle: &[u8], i: usize) -> (r: bool)
    requires
        i + needle@.len() <= hay@.len(),
    ensures
        r == occurs_at(hay@, needle@, i as int),
{
    let n: usize = needle.len();
    let h: usize = hay.len();
    let mut j: usize = 0;
    while j < n
        invariant
            n == needle@.len(),
            h == hay@.len(),
            j <= n,
            i + n <= h,
            forall|k: int| 0 <= k < j ==> hay@[i + k] == needle@[k],
        decreases n - j,
    {
        if hay[i + j] != needle[j] {
            proof {
                let window = hay@.subrange(i as int, i + n);
                assert(window[j as int] == hay@[i + j]);
            }
            return false;
        }
        j += 1;
    }
    assert(hay@.subrange(i as int, i + n) =~= needle@);
    true
}

/// Searches `hay` for `needle`.
pub fn contains_bytes(hay: &[u8], needle: &[u8]) -> (r: bool)
    ensures
        r == occurs_in(hay@, needle@),
{
    if needle.len() > hay.len() {
        return false;
    }
    let last: usize = hay.len() - needle.len();
    let mut i: usize = 0;
    while i < last
        invariant
            last == hay@.len() - needle@.len(),
            i <= last,
            forall|k: int| 0 <= k < i ==> !occurs_at(hay@, needle@, k),
        decreases last - i,
    {
        if matches_at(hay, needle, i) {
            return true;
        }
        i += 1;
    }
    matches_at(hay, needle, last)
}

/// Whether the text of a failed clipboard read names one of the kinds that
/// only say that the clipboard holds no text. Such a failure is skipped
/// without a log entry.
pub open spec fn benign_read_error(message: Seq<u8>) -> bool {
    ||| occurs_in(message, encode_utf8("Clipboard is empty or contains non-text data"@))
    ||| occurs_in(message, encode_utf8("The clipboard doesn't contain text"@))
    ||| occurs_in(message, encode_utf8("Could not find data of type TEXT"@))
    ||| occurs_in(message, encode_utf8("Format not available"@))
    ||| occurs_in(message, encode_utf8("failed to get text from clipboard: Empty"@))
}

/// Tells a read that found no text from a real failure, by the error's text.
pub fn is_benign_read_error(message: &str) -> (r: bool)
    ensures
        r == benign_read_error(encode_utf8(message@)),
{
    let m = message.as_bytes();
    contains_bytes(m, "Clipboard is empty or contains non-text data".as_bytes())
        || contains_bytes(m, "The clipboard doesn't contain text".as_bytes())
        || contains_bytes(m, "Could not find data of type TEXT".as_bytes())
        || contains_bytes(m, "Format not available".as_bytes())
        || contains_bytes(m, "failed to get text from clipboard: Empty".as_bytes())
}

/// Outcome of reading the local clipboard's text.
#[derive(Clone, Debug, PartialEq, Eq)]
pub enum ClipboardRead {
    Text(String),
    /// The read failed; the error's text.
    Failed(String),
}

/// Mathematical content of a [`ClipboardRead`].
pub enum ClipboardReadView {
    Text(Seq<char>),
    /// The UTF-8 bytes of the error's text.
    Failed(Seq<u8>),
}

impl View for ClipboardRead {
    type V = ClipboardReadView;

    open spec fn view(&self) -> ClipboardReadView {
        match *self {
            ClipboardRead::Text(t) => ClipboardReadView::Text(t@),
            ClipboardRead::Failed(m) => ClipboardReadView::Failed(encode_utf8(m@)),
        }
    }
}

/// What the caller does after a sample.
#[derive(Clone, Debug, PartialEq, Eq)]
pub enum PollAction {
    /// Nothing to do until the next tick.
    Skip,
    /// Log the failed read.
    LogError,
    /// Broadcast `payload` on `topic`, then report the outcome with
    /// [`ClipboardMonitor::broadcast_finished`].
    Broadcast { topic: Topic, payload: ClipboardPayload },
}

/// Mathematical content of a [`PollAction`].
pub enum PollActionView {
    Skip,
    LogError,
    Broadcast { topic: Seq<u8>, payload: ClipboardPayloadView },
}

impl View for PollAction {
    type V = PollActionView;

    open spec fn view(&self) -> PollActionView {
        match *self {
            PollAction::Skip => PollActionView::Skip,
            PollAction::LogError => PollActionView::LogError,
            PollAction::Broadcast { topic, payload } => PollActionView::Broadcast {
                topic: topic@,
                payload: payload@,
            },
        }
    }
}

/// Whether a tick samples the clipboard at all: sharing is enabled, the
/// endpoint is bound, and topic and sender are active.
pub open spec fn sampling(s: AppStateView, sharing_enabled: bool) -> bool {
    sharing_enabled && s.local.is_some() && s.gossip_topic.is_some() && s.sender_ready
}

/// The action after a sample: non-empty text that differs from the last
/// observed text is broadcast under the local identity; a failed read is
/// logged unless it only says that there is no text.
pub open spec fn poll_action_of(
    last: Seq<char>,
    s: AppStateView,
    sharing_enabled: bool,
    read: ClipboardReadView,
) -> PollActionView {
    if !sampling(s, sharing_enabled) {
        PollActionView::Skip
    } else {
        match read {
            ClipboardReadView::Text(t) => if t != last && t.len() > 0 {
                PollActionView::Broadcast {
                    topic: s.gossip_topic.unwrap(),
                    payload: ClipboardPayloadView { from_node_id: s.local.unwrap(), content: t },
                }
            } else {
                PollActionView::Skip
            },
            ClipboardReadView::Failed(m) => if benign_read_error(m) {
                PollActionView::Skip
            } else {
                PollActionView::LogError
            },
        }
    }
}

/// Remembers the clipboard text that was last broadcast or applied.
pub struct ClipboardMonitor {
    last_content: String,
}

impl View for ClipboardMonitor {
    type V = Seq<char>;

    /// The last observed text.
    closed spec fn view(&self) -> Seq<char> {
        self.last_content@
    }
}

impl ClipboardMonitor {
    /// A monitor that has observed nothing yet.
    pub fn new() -> (m: ClipboardMonitor)
        ensures
            m@ == Seq::<char>::empty(),
    {
        ClipboardMonitor { last_content: String::new() }
    }

    /// The last observed text.
    pub fn last_content(&self) -> (r: &String)
        ensures
            r@ == self@,
    {
        &self.last_content
    }

    /// Whether this tick samples the clipboard. Where it does not, the
    /// clipboard is not read.
    pub fn should_sample(state: &AppState, sharing_enabled: bool) -> (r: bool)
        ensures
            r == sampling(state@, sharing_enabled),
    {
        sharing_enabled && state.local_node_id().is_some() && state.gossip_topic().is_some()
            && state.sender_ready()
    }

    /// Decides what one sample of the clipboard leads to. The last observed
    /// text does not change here: it changes once the broadcast succeeded.
    pub fn start_monitoring(&self, state: &AppState, sharing_enabled: bool, read: ClipboardRead) -> (a:
        PollAction)
        ensures
            a@ == poll_action_of(self@, state@, sharing_enabled, read@),
    {
        if !sharing_enabled {
            return PollAction::Skip;
        }
        let from = match state.local_node_id() {
            Some(id) => id,
            None => {
                return PollAction::Skip;
            },
        };
        let topic = match state.gossip_topic() {
            Some(t) => t,
            None => {
                return PollAction::Skip;
            },
        };
        if !state.sender_ready() {
            return PollAction::Skip;
        }
        match read {
            ClipboardRead::Text(t) => {
                if !(t == self.last_content) && !t.as_str().is_empty() {
                    PollAction::Broadcast { topic, payload: ClipboardPayload::new(from, t) }
                } else {
                    PollAction::Skip
                }
            },
            ClipboardRead::Failed(m) => {
                if is_benign_read_error(m.as_str()) {
                    PollAction::Skip
                } else {
                    PollAction::LogError
                }
            },
        }
    }

    /// Reports how the broadcast of `content` ended. The text becomes the
    /// last observed one only where the broadcast succeeded.
    pub fn broadcast_finished(&mut self, content: String, delivered: bool)
        ensures
            final(self)@ == if delivered {
                content@
            } else {
                old(self)@
            },
    {
        if delivered {
            self.last_content = content;
        }
    }

    /// Reports how writing remote text to the local clipboard ended. The
    /// text becomes the last observed one only where the write succeeded, so
    /// that the next sample does not broadcast it again.
    pub fn set_local_clipboard_content(&mut self, content: String, written: bool)
        ensures
            final(self)@ == if written {
                content@
            } else {
                old(self)@
            },
    {
        if written {
            self.last_content = content;
        }
    }
}

/// A sample that shows the last observed text again leads to no broadcast.
pub proof fn lemma_same_text_is_quiet(text: Seq<char>, s: AppStateView, sharing_enabled: bool)
    ensures
        poll_action_of(text, s, sharing_enabled, ClipboardReadView::Text(text))
            == PollActionView::Skip,
{
}

/// With clipboard sharing switched off, no sample leads to a broadcast.
pub proof fn lemma_disabled_sharing_never_broadcasts(
    last: Seq<char>,
    s: AppStateView,
    read: ClipboardReadView,
)
    ensures
        poll_action_of(last, s, false, read) == PollActionView::Skip,
{
}

/// Every broadcast of the monitor carries the local identity, the active
/// topic and the sampled text.
pub proof fn lemma_broadcast_is_local(
    last: Seq<char>,
    s: AppStateView,
    sharing_enabled: bool,
    read: ClipboardReadView,
)
    ensures
        poll_action_of(last, s, sharing_enabled, read) matches PollActionView::Broadcast {
            topic,
            payload,
        } ==> {
            &&& sharing_enabled
            &&& s.local == Some(payload.from_node_id)
            &&& s.gossip_topic == Some(topic)
            &&& read == ClipboardReadView::Text(payload.content)
            &&& payload.content != last
            &&& payload.content.len() > 0
        },
{
}

/// What the monitor broadcasts names the local node as sender, so the
/// node's own receive loop ignores the text should it come back.
pub proof fn lemma_own_broadcast_is_ignored(
    last: Seq<char>,
    s: AppStateView,
    sharing_enabled: bool,
    read: ClipboardReadView,
    sharing_on_receipt: bool,
)
    requires
        poll_action_of(last, s, sharing_enabled, read) is Broadcast,
    ensures
        clipboard_action_of(
            s,
            sharing_on_receipt,
            poll_action_of(last, s, sharing_enabled, read)->payload,
        ) == ReceiveActionView::Ignore(IgnoreReason::SelfSent),
{
}

} // verus!
