//! The two payloads that travel on the gossip topic.

use vstd::prelude::*;
use crate::ids::{NodeId, Topic};

verus! {

/// Announces a file: who imported it, where it lies below the sync root, and
/// the blob ticket under which its content can be fetched.
#[derive(Clone, Debug, PartialEq, Eq)]
pub struct GossipEventPayload {
    pub from: NodeId,
    pub topic: Topic,
    pub file_name: String,
    pub relative_path: String,
    /// The blob ticket, as text.
    pub message_content: String,
}

/// Mathematical content of a [`GossipEventPayload`].
pub struct GossipEventPayloadView {
    pub from: Seq<u8>,
    pub topic: Seq<u8>,
    pub file_name: Seq<char>,
    pub relative_path: Seq<char>,
    pub message_content: Seq<char>,
}

impl View for GossipEventPayload {
    type V = GossipEventPayloadView;

    open spec fn view(&self) -> GossipEventPayloadView {
        GossipEventPayloadView {
            from: self.from@,
            topic: self.topic@,
            file_name: self.file_name@,
            relative_path: self.relative_path@,
            message_content: self.message_content@,
        }
    }
}

/// Announces new clipboard text.
#[derive(Clone, Debug, PartialEq, Eq)]
pub struct ClipboardPayload {
    /// The node that copied the text.
    pub from_node_id: NodeId,
    pub content: String,
}

/// Mathematical content of a [`ClipboardPayload`].
pub struct ClipboardPayloadView {
    pub from_node_id: Seq<u8>,
    pub content: Seq<char>,
}

impl View for ClipboardPayload {
    type V = ClipboardPayloadView;

    open spec fn view(&self) -> ClipboardPayloadView {
        ClipboardPayloadView { from_node_id: self.from_node_id@, content: self.content@ }
    }
}

impl ClipboardPayload {
    pub fn new(from_node_id: NodeId, content: String) -> (p: ClipboardPayload)
        ensures
            p@ == (ClipboardPayloadView { from_node_id: from_node_id@, content: content@ }),
    {
        ClipboardPayload { from_node_id, content }
    }
}

/// A received payload after both readings were tried.
#[derive(Clone, Debug, PartialEq, Eq)]
pub enum Inbound {
    Clipboard(ClipboardPayload),
    File(GossipEventPayload),
    /// The bytes are neither.
    Unknown,
}

/// Mathematical content of an [`Inbound`].
pub enum InboundView {
    Clipboard(ClipboardPayloadView),
    File(GossipEventPayloadView),
    Unknown,
}

impl View for Inbound {
    type V = InboundView;

    open spec fn view(&self) -> InboundView {
        match *self {
            Inbound::Clipboard(c) => InboundView::Clipboard(c@),
            Inbound::File(f) => InboundView::File(f@),
            Inbound::Unknown => InboundView::Unknown,
        }
    }
}

/// Which reading of a payload counts: the clipboard reading wins wherever it
/// succeeds, whatever the file reading gave.
pub open spec fn reading_of(
    as_clipboard: Option<ClipboardPayloadView>,
    as_file: Option<GossipEventPayloadView>,
) -> InboundView {
    match as_clipboard {
        Some(c) => InboundView::Clipboard(c),
        None => match as_file {
            Some(f) => InboundView::File(f),
            None => InboundView::Unknown,
        },
    }
}

pub open spec fn clipboard_reading(p: Option<ClipboardPayload>) -> Option<ClipboardPayloadView> {
    match p {
        Some(c) => Some(c@),
        None => None,
    }
}

pub open spec fn file_reading(p: Option<GossipEventPayload>) -> Option<GossipEventPayloadView> {
    match p {
        Some(f) => Some(f@),
        None => None,
    }
}

/// Picks the reading of a received payload from the two attempts to
/// deserialize it: as a clipboard announcement first, as a file announcement
/// second.
pub fn classify_inbound(
    as_clipboard: Option<ClipboardPayload>,
    as_file: Option<GossipEventPayload>,
) -> (r: Inbound)
    ensures
        r@ == reading_of(clipboard_reading(as_clipboard), file_reading(as_file)),
{
    match as_clipboard {
        Some(c) => Inbound::Clipboard(c),
        None => match as_file {
            Some(f) => Inbound::File(f),
            None => Inbound::Unknown,
        },
    }
}

} // verus!
