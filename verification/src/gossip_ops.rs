//! The sync dispatcher: what a file-system event leads to, what is announced
//! for an imported file, and what a gossip event leads to.

use vstd::prelude::*;
use crate::fs_watcher::{FsEventPayload, FsEventPayloadView, FsEventType};
use crate::ids::{NodeAddress, NodeId, Topic};
use crate::messages::{
    ClipboardPayloadView, GossipEventPayload, GossipEventPayloadView, Inbound, InboundView,
};
use crate::paths::{final_component, strip_root};
use crate::state::{AppState, AppStateView};

verus! {

/// Why an event was dropped without an announcement.
#[derive(Clone, Copy, Debug, PartialEq, Eq, Structural)]
pub enum DropReason {
    /// No endpoint is bound, so there is no local identity.
    EndpointMissing,
    /// The blob store is not running.
    BlobsMissing,
    /// No topic is active: the ticket exists but cannot be announced.
    TopicNotSet,
    /// No sender is active.
    SenderNotSet,
    /// The path does not lie below the sync root.
    OutsideSyncRoot,
    /// The path has no final component.
    NoFileName,
}

/// What the caller does for a file-system event.
#[derive(Clone, Debug, PartialEq, Eq)]
pub enum FsAction {
    /// Import the file at `path` into the blob store and make a blob ticket;
    /// then ask [`announce_imported`] what to broadcast.
    Import { path: String },
    /// Log the removal of `path`. Removals are not announced.
    LogRemoval { path: String },
    /// Log the reason and drop the event.
    Drop(DropReason),
    /// Nothing to do.
    Ignore,
}

/// Mathematical content of an [`FsAction`].
pub enum FsActionView {
    Import { path: Seq<char> },
    LogRemoval { path: Seq<char> },
    Drop(DropReason),
    Ignore,
}

impl View for FsAction {
    type V = FsActionView;

    open spec fn view(&self) -> FsActionView {
        match *self {
            FsAction::Import { path } => FsActionView::Import { path: path@ },
            FsAction::LogRemoval { path } => FsActionView::LogRemoval { path: path@ },
            FsAction::Drop(r) => FsActionView::Drop(r),
            FsAction::Ignore => FsActionView::Ignore,
        }
    }
}

/// The action for an event: a created file is imported once endpoint and
/// blob store exist, a removal is only logged, everything else is ignored.
pub open spec fn fs_action_of(s: AppStateView, p: FsEventPayloadView) -> FsActionView {
    match p.event_type {
        FsEventType::Create => if s.local.is_none() {
            FsActionView::Drop(DropReason::EndpointMissing)
        } else if !s.blobs_ready {
            FsActionView::Drop(DropReason::BlobsMissing)
        } else {
            FsActionView::Import { path: p.path }
        },
        FsEventType::Remove => FsActionView::LogRemoval { path: p.path },
        _ => FsActionView::Ignore,
    }
}

/// Decides what a file-system event leads to.
pub fn handle_fs_payload(state: &AppState, payload: &FsEventPayload) -> (a: FsAction)
    ensures
        a@ == fs_action_of(state@, payload@),
{
    match payload.event_type {
        FsEventType::Create => {
            if state.local_node_id().is_none() {
                FsAction::Drop(DropReason::EndpointMissing)
            } else if !state.blobs_ready() {
                FsAction::Drop(DropReason::BlobsMissing)
            } else {
                FsAction::Import { path: payload.path.clone() }
            }
        },
        FsEventType::Remove => FsAction::LogRemoval { path: payload.path.clone() },
        _ => FsAction::Ignore,
    }
}

/// The announcement for an imported file, or the reason why there is none.
/// `relative` is the path below the sync root, `file_name` the final
/// component; each is `None` where the path has none. The checks are made in
/// this order: local identity, active topic, active sender, relative path,
/// file name.
pub open spec fn announcement_of(
    s: AppStateView,
    ticket: Seq<char>,
    relative: Option<Seq<char>>,
    file_name: Option<Seq<char>>,
) -> Result<GossipEventPayloadView, DropReason> {
    if s.local.is_none() {
        Err(DropReason::EndpointMissing)
    } else if s.gossip_topic.is_none() {
        Err(DropReason::TopicNotSet)
    } else if !s.sender_ready {
        Err(DropReason::SenderNotSet)
    } else if relative.is_none() {
        Err(DropReason::OutsideSyncRoot)
    } else if file_name.is_none() {
        Err(DropReason::NoFileName)
    } else {
        Ok(
            GossipEventPayloadView {
                from: s.local.unwrap(),
                topic: s.gossip_topic.unwrap(),
                file_name: file_name.unwrap(),
                relative_path: relative.unwrap(),
                message_content: ticket,
            },
        )
    }
}

pub open spec fn text_view(t: Option<String>) -> Option<Seq<char>> {
    match t {
        Some(s) => Some(s@),
        None => None,
    }
}

pub open spec fn announcement_view(r: Result<GossipEventPayload, DropReason>) -> Result<
    GossipEventPayloadView,
    DropReason,
> {
    match r {
        Ok(p) => Ok(p@),
        Err(e) => Err(e),
    }
}

/// Builds the announcement for an imported file from its blob ticket, its
/// path below the sync root and its file name.
pub fn compose_announcement(
    state: &AppState,
    ticket: String,
    relative: Option<String>,
    file_name: Option<String>,
) -> (r: Result<GossipEventPayload, DropReason>)
    ensures
        announcement_view(r) == announcement_of(
            state@,
            ticket@,
            text_view(relative),
            text_view(file_name),
        ),
{
    let from = match state.local_node_id() {
        Some(id) => id,
        None => {
            return Err(DropReason::EndpointMissing);
        },
    };
    let topic = match state.gossip_topic() {
        Some(t) => t,
        None => {
            return Err(DropReason::TopicNotSet);
        },
    };
    if !state.sender_ready() {
        return Err(DropReason::SenderNotSet);
    }
    let relative_path = match relative {
        Some(p) => p,
        None => {
            return Err(DropReason::OutsideSyncRoot);
        },
    };
    let file_name = match file_name {
        Some(n) => n,
        None => {
            return Err(DropReason::NoFileName);
        },
    };
    Ok(GossipEventPayload { from, topic, file_name, relative_path, message_content: ticket })
}

/// Decides what is broadcast for the file at `path` after its import gave
/// `ticket`. The path below the sync root and the file name are taken from
/// the platform's path rules; the result is what [`announcement_of`] gives
/// for them.
pub fn announce_imported(state: &AppState, path: &str, ticket: String) -> (r: Result<
    GossipEventPayload,
    DropReason,
>)
    ensures
        exists|relative: Option<Seq<char>>, file_name: Option<Seq<char>>|
            announcement_view(r) == #[trigger] announcement_of(
                state@,
                ticket@,
                relative,
                file_name,
            ),
        state@.local.is_none() ==> r == Err::<GossipEventPayload, DropReason>(
            DropReason::EndpointMissing,
        ),
        state@.local.is_some() && state@.gossip_topic.is_none() ==> r == Err::<
            GossipEventPayload,
            DropReason,
        >(DropReason::TopicNotSet),
        state@.local.is_some() && state@.gossip_topic.is_some() && !state@.sender_ready ==> r
            == Err::<GossipEventPayload, DropReason>(DropReason::SenderNotSet),
        r matches Ok(p) ==> {
            &&& Some(p.from@) == state@.local
            &&& Some(p.topic@) == state@.gossip_topic
            &&& p.message_content@ == ticket@
        },
{
    let relative = strip_root(path, state.sync_folder().as_str());
    let file_name = final_component(path);
    let ghost rel = text_view(relative);
    let ghost name = text_view(file_name);
    let r = compose_announcement(state, ticket, relative, file_name);
    assert(announcement_view(r) == announcement_of(state@, ticket@, rel, name));
    r
}

/// The bootstrap peers of a ticket: its addresses without the local node,
/// in the ticket's order.
pub open spec fn peers_without(nodes: Seq<NodeAddress>, me: Seq<u8>) -> Seq<NodeAddress> {
    nodes.filter(|a: NodeAddress| a.node_id@ != me)
}

/// What joining a ticket installs and subscribes to.
#[derive(Clone, Debug, PartialEq, Eq)]
pub struct JoinPlan {
    pub topic: Topic,
    /// Addresses to put into the endpoint's address book.
    pub peers: Vec<NodeAddress>,
    /// Identifiers to bootstrap the subscription with.
    pub node_ids: Vec<NodeId>,
}

/// Removes the local node from a ticket's addresses, keeping the order of
/// the others.
pub fn remote_peers(nodes: Vec<NodeAddress>, me: &NodeId) -> (peers: Vec<NodeAddress>)
    ensures
        peers@ == peers_without(nodes@, me@),
        forall|i: int| 0 <= i < peers@.len() ==> (#[trigger] peers@[i]).node_id@ != me@,
{
    let ghost all = nodes@;
    let ghost keep = |a: NodeAddress| a.node_id@ != me@;
    let mut nodes = nodes;
    let mut reversed: Vec<NodeAddress> = Vec::new();
    while nodes.len() > 0
        invariant
            nodes@.len() + reversed@.len() == all.len(),
            forall|j: int| 0 <= j < nodes@.len() ==> nodes@[j] == all[j],
            forall|j: int| 0 <= j < reversed@.len() ==> reversed@[j] == all[all.len() - 1 - j],
        decreases nodes@.len(),
    {
        let a = nodes.pop().unwrap();
        reversed.push(a);
    }
    let mut peers: Vec<NodeAddress> = Vec::new();
    proof {
        reveal(Seq::filter);
        assert(all.subrange(0, 0) =~= Seq::<NodeAddress>::empty());
    }
    while reversed.len() > 0
        invariant
            reversed@.len() <= all.len(),
            forall|j: int| 0 <= j < reversed@.len() ==> reversed@[j] == all[all.len() - 1 - j],
            peers@ == all.subrange(0, all.len() - reversed@.len()).filter(keep),
            forall|a: NodeAddress| keep(a) == (a.node_id@ != me@),
        decreases reversed@.len(),
    {
        let ghost k = all.len() - reversed@.len();
        let a = reversed.pop().unwrap();
        proof {
            reveal(Seq::filter);
            let upto = all.subrange(0, k + 1);
            assert(a == all[k]);
            assert(upto.drop_last() =~= all.subrange(0, k));
            assert(upto.last() == a);
        }
        if !a.node_id.same(me) {
            peers.push(a);
        }
    }
    proof {
        assert(all.subrange(0, all.len() as int) =~= all);
        assert forall|i: int| 0 <= i < peers@.len() implies (#[trigger] peers@[i]).node_id@
            != me@ by {
            all.lemma_filter_pred(keep, i);
        }
    }
    peers
}

/// The identifiers of a list of addresses, in order.
pub fn node_ids_of(peers: &Vec<NodeAddress>) -> (ids: Vec<NodeId>)
    ensures
        ids@.len() == peers@.len(),
        forall|i: int| 0 <= i < ids@.len() ==> ids@[i] == peers@[i].node_id,
{
    let mut ids: Vec<NodeId> = Vec::new();
    let mut i: usize = 0;
    while i < peers.len()
        invariant
            i <= peers@.len(),
            ids@.len() == i,
            forall|j: int| 0 <= j < i ==> ids@[j] == peers@[j].node_id,
        decreases peers@.len() - i,
    {
        ids.push(peers[i].node_id);
        i += 1;
    }
    ids
}

/// One event of the gossip receiver, with a received payload already read.
#[derive(Clone, Debug, PartialEq, Eq)]
pub enum GossipEvent {
    Received(Inbound),
    NeighborUp(NodeId),
    NeighborDown(NodeId),
    /// Any other event of the overlay; logged and ignored.
    Other,
}

/// Mathematical content of a [`GossipEvent`].
pub enum GossipEventView {
    Received(InboundView),
    NeighborUp(Seq<u8>),
    NeighborDown(Seq<u8>),
    Other,
}

impl View for GossipEvent {
    type V = GossipEventView;

    open spec fn view(&self) -> GossipEventView {
        match *self {
            GossipEvent::Received(i) => GossipEventView::Received(i@),
            GossipEvent::NeighborUp(id) => GossipEventView::NeighborUp(id@),
            GossipEvent::NeighborDown(id) => GossipEventView::NeighborDown(id@),
            GossipEvent::Other => GossipEventView::Other,
        }
    }
}

/// Why a gossip event leads to nothing.
#[derive(Clone, Copy, Debug, PartialEq, Eq, Structural)]
pub enum IgnoreReason {
    /// The payload names the local node as its sender.
    SelfSent,
    /// No endpoint is bound, so a clipboard payload cannot be told from an
    /// echo.
    NoLocalIdentity,
    /// Clipboard sharing is switched off.
    SharingDisabled,
    /// There is no clipboard monitor to apply the text.
    NoMonitor,
    /// The payload is neither a clipboard nor a file announcement.
    UnknownPayload,
    /// The event is none that the loop acts on.
    OtherEvent,
}

/// What the caller does for a gossip event.
#[derive(Clone, Debug, PartialEq, Eq)]
pub enum ReceiveAction {
    /// Write `content` to the local clipboard, then tell the monitor.
    ApplyClipboard { content: String },
    /// Forward the announcement to the host, then download its blob and
    /// export it to the announced path below the sync root.
    Download { payload: GossipEventPayload },
    /// Tell the host that a neighbor came up.
    NeighborUp(NodeId),
    /// Tell the host that a neighbor went down.
    NeighborDown(NodeId),
    /// Log the reason; nothing else happens.
    Ignore(IgnoreReason),
}

/// Mathematical content of a [`ReceiveAction`].
pub enum ReceiveActionView {
    ApplyClipboard { content: Seq<char> },
    Download { payload: GossipEventPayloadView },
    NeighborUp(Seq<u8>),
    NeighborDown(Seq<u8>),
    Ignore(IgnoreReason),
}

impl View for ReceiveAction {
    type V = ReceiveActionView;

    open spec fn view(&self) -> ReceiveActionView {
        match *self {
            ReceiveAction::ApplyClipboard { content } => ReceiveActionView::ApplyClipboard {
                content: content@,
            },
            ReceiveAction::Download { payload } => ReceiveActionView::Download { payload: payload@ },
            ReceiveAction::NeighborUp(id) => ReceiveActionView::NeighborUp(id@),
            ReceiveAction::NeighborDown(id) => ReceiveActionView::NeighborDown(id@),
            ReceiveAction::Ignore(r) => ReceiveActionView::Ignore(r),
        }
    }
}

/// The action for a clipboard announcement. The checks are made in this
/// order: local identity known, not sent by the local node, sharing enabled,
/// monitor present.
pub open spec fn clipboard_action_of(
    s: AppStateView,
    sharing_enabled: bool,
    c: ClipboardPayloadView,
) -> ReceiveActionView {
    if s.local.is_none() {
        ReceiveActionView::Ignore(IgnoreReason::NoLocalIdentity)
    } else if s.local == Some(c.from_node_id) {
        ReceiveActionView::Ignore(IgnoreReason::SelfSent)
    } else if !sharing_enabled {
        ReceiveActionView::Ignore(IgnoreReason::SharingDisabled)
    } else if !s.monitor_ready {
        ReceiveActionView::Ignore(IgnoreReason::NoMonitor)
    } else {
        ReceiveActionView::ApplyClipboard { content: c.content }
    }
}

/// The action for a file announcement: download, unless the local node sent
/// it.
pub open spec fn file_action_of(s: AppStateView, f: GossipEventPayloadView) -> ReceiveActionView {
    if s.local == Some(f.from) {
        ReceiveActionView::Ignore(IgnoreReason::SelfSent)
    } else {
        ReceiveActionView::Download { payload: f }
    }
}

/// The action for a gossip event.
pub open spec fn receive_action_of(
    s: AppStateView,
    sharing_enabled: bool,
    e: GossipEventView,
) -> ReceiveActionView {
    match e {
        GossipEventView::Received(InboundView::Clipboard(c)) => clipboard_action_of(
            s,
            sharing_enabled,
            c,
        ),
        GossipEventView::Received(InboundView::File(f)) => file_action_of(s, f),
        GossipEventView::Received(InboundView::Unknown) => ReceiveActionView::Ignore(
            IgnoreReason::UnknownPayload,
        ),
        GossipEventView::NeighborUp(id) => ReceiveActionView::NeighborUp(id),
        GossipEventView::NeighborDown(id) => ReceiveActionView::NeighborDown(id),
        GossipEventView::Other => ReceiveActionView::Ignore(IgnoreReason::OtherEvent),
    }
}

/// Decides what one event of the gossip receiver leads to.
/// `sharing_enabled` is the clipboard preference as read for this event;
/// `false` where it cannot be read.
pub fn on_gossip_event(state: &AppState, sharing_enabled: bool, event: GossipEvent) -> (a:
    ReceiveAction)
    ensures
        a@ == receive_action_of(state@, sharing_enabled, event@),
{
    match event {
        GossipEvent::Received(Inbound::Clipboard(c)) => {
            match state.local_node_id() {
                None => ReceiveAction::Ignore(IgnoreReason::NoLocalIdentity),
                Some(me) => {
                    if c.from_node_id.same(&me) {
                        ReceiveAction::Ignore(IgnoreReason::SelfSent)
                    } else if !sharing_enabled {
                        ReceiveAction::Ignore(IgnoreReason::SharingDisabled)
                    } else if !state.monitor_ready() {
                        ReceiveAction::Ignore(IgnoreReason::NoMonitor)
                    } else {
                        ReceiveAction::ApplyClipboard { content: c.content }
                    }
                },
            }
        },
        GossipEvent::Received(Inbound::File(f)) => {
            let own = match state.local_node_id() {
                Some(me) => f.from.same(&me),
                None => false,
            };
            if own {
                ReceiveAction::Ignore(IgnoreReason::SelfSent)
            } else {
                ReceiveAction::Download { payload: f }
            }
        },
        GossipEvent::Received(Inbound::Unknown) => ReceiveAction::Ignore(
            IgnoreReason::UnknownPayload,
        ),
        GossipEvent::NeighborUp(id) => ReceiveAction::NeighborUp(id),
        GossipEvent::NeighborDown(id) => ReceiveAction::NeighborDown(id),
        GossipEvent::Other => ReceiveAction::Ignore(IgnoreReason::OtherEvent),
    }
}

/// A payload that names the local node as its sender leads to no clipboard
/// write and no download, whatever the preference and the rest of the state.
pub proof fn lemma_self_echo_suppressed(s: AppStateView, sharing_enabled: bool, inbound: InboundView)
    requires
        match inbound {
            InboundView::Clipboard(c) => s.local == Some(c.from_node_id),
            InboundView::File(f) => s.local == Some(f.from),
            InboundView::Unknown => false,
        },
    ensures
        receive_action_of(s, sharing_enabled, GossipEventView::Received(inbound))
            == ReceiveActionView::Ignore(IgnoreReason::SelfSent),
{
}

/// With clipboard sharing switched off, no received event leads to a
/// clipboard write.
pub proof fn lemma_disabled_sharing_never_applies(s: AppStateView, e: GossipEventView)
    ensures
        !(receive_action_of(s, false, e) is ApplyClipboard),
{
}

/// Only a file-system event of type `Create` leads to an import; a removal
/// never does.
pub proof fn lemma_only_create_imports(s: AppStateView, p: FsEventPayloadView)
    ensures
        fs_action_of(s, p) is Import ==> p.event_type == FsEventType::Create,
        p.event_type == FsEventType::Remove ==> fs_action_of(s, p) == (FsActionView::LogRemoval {
            path: p.path,
        }),
{
}

/// What a node announces for a file names the node itself as sender, so its
/// own receive loop ignores the announcement should it come back.
pub proof fn lemma_own_announcement_is_ignored(
    s: AppStateView,
    ticket: Seq<char>,
    relative: Option<Seq<char>>,
    file_name: Option<Seq<char>>,
    sharing_enabled: bool,
)
    requires
        announcement_of(s, ticket, relative, file_name) is Ok,
    ensures
        receive_action_of(
            s,
            sharing_enabled,
            GossipEventView::Received(
                InboundView::File(announcement_of(s, ticket, relative, file_name)->Ok_0),
            ),
        ) == ReceiveActionView::Ignore(IgnoreReason::SelfSent),
{
}

} // verus!
