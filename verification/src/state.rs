//! The process-wide sync state, as far as decisions depend on it.
//!
//! The handles themselves (endpoint, blob store, gossip, sender) belong to the
//! caller. This type records which of them exist, the local identity that the
//! endpoint gives, the active topic and the sync root.

use vstd::prelude::*;
use crate::ids::{NodeId, Topic};

verus! {

/// What the decisions read of the shared state.
pub struct AppState {
    local: Option<NodeId>,
    blobs_ready: bool,
    gossip_ready: bool,
    /// The topic of the last successful join. A sender exists exactly where
    /// this is set.
    gossip_topic: Option<Topic>,
    sync_folder: String,
    monitor_ready: bool,
}

/// Mathematical content of an [`AppState`].
pub struct AppStateView {
    /// Identity of the local endpoint; `None` while no endpoint is bound.
    pub local: Option<Seq<u8>>,
    pub blobs_ready: bool,
    pub gossip_ready: bool,
    /// Topic of the overlay that was joined last.
    pub gossip_topic: Option<Seq<u8>>,
    /// Whether a sender handle for the active topic exists.
    pub sender_ready: bool,
    pub sync_folder: Seq<char>,
    /// Whether a clipboard monitor could be constructed.
    pub monitor_ready: bool,
}

impl View for AppState {
    type V = AppStateView;

    closed spec fn view(&self) -> AppStateView {
        AppStateView {
            local: match self.local {
                Some(id) => Some(id@),
                None => None,
            },
            blobs_ready: self.blobs_ready,
            gossip_ready: self.gossip_ready,
            gossip_topic: match self.gossip_topic {
                Some(t) => Some(t@),
                None => None,
            },
            sender_ready: self.gossip_topic.is_some(),
            sync_folder: self.sync_folder@,
            monitor_ready: self.monitor_ready,
        }
    }
}

impl AppStateView {
    /// The active topic and the active sender exist together or not at all.
    pub open spec fn joined_together(self) -> bool {
        self.gossip_topic.is_some() == self.sender_ready
    }

    /// Both "after join" fields are set.
    pub open spec fn joined(self) -> bool {
        self.gossip_topic.is_some() && self.sender_ready
    }
}

/// In every state the active topic and the active sender exist together:
/// only a recorded join sets them, and it sets both.
pub proof fn lemma_topic_and_sender_together(s: AppState)
    ensures
        s@.joined_together(),
{
}

impl Default for AppState {
    /// The state before bootstrap, with an empty sync root.
    fn default() -> (s: AppState)
        ensures
            s@ == (AppStateView {
                local: None,
                blobs_ready: false,
                gossip_ready: false,
                gossip_topic: None,
                sender_ready: false,
                sync_folder: Seq::<char>::empty(),
                monitor_ready: false,
            }),
    {
        AppState::unset(String::new())
    }
}

impl AppState {
    /// The state before bootstrap: no handle, no topic, no sender.
    pub fn unset(sync_folder: String) -> (s: AppState)
        ensures
            s@ == (AppStateView {
                local: None,
                blobs_ready: false,
                gossip_ready: false,
                gossip_topic: None,
                sender_ready: false,
                sync_folder: sync_folder@,
                monitor_ready: false,
            }),
            s@.joined_together(),
    {
        AppState {
            local: None,
            blobs_ready: false,
            gossip_ready: false,
            gossip_topic: None,
            sync_folder,
            monitor_ready: false,
        }
    }

    /// A state with the given handles and nothing joined. `local` is the
    /// identity of the endpoint, where one is bound.
    pub fn with_handles(
        local: Option<NodeId>,
        blobs_ready: bool,
        gossip_ready: bool,
        sync_folder: String,
        monitor_ready: bool,
    ) -> (s: AppState)
        ensures
            s@ == (AppStateView {
                local: match local {
                    Some(id) => Some(id@),
                    None => None,
                },
                blobs_ready,
                gossip_ready,
                gossip_topic: None,
                sender_ready: false,
                sync_folder: sync_folder@,
                monitor_ready,
            }),
            s@.joined_together(),
    {
        AppState {
            local,
            blobs_ready,
            gossip_ready,
            gossip_topic: None,
            sync_folder,
            monitor_ready,
        }
    }

    /// The state that bootstrap publishes: endpoint, blob store and gossip
    /// exist, nothing has been joined yet.
    pub fn started(local: NodeId, sync_folder: String, monitor_ready: bool) -> (s: AppState)
        ensures
            s@ == (AppStateView {
                local: Some(local@),
                blobs_ready: true,
                gossip_ready: true,
                gossip_topic: None,
                sender_ready: false,
                sync_folder: sync_folder@,
                monitor_ready,
            }),
            s@.joined_together(),
    {
        AppState {
            local: Some(local),
            blobs_ready: true,
            gossip_ready: true,
            gossip_topic: None,
            sync_folder,
            monitor_ready,
        }
    }

    /// Records a successful join: the topic and the sender become active
    /// together. Nothing else changes.
    pub fn record_join(&mut self, topic: Topic)
        ensures
            final(self)@ == (AppStateView {
                gossip_topic: Some(topic@),
                sender_ready: true,
                ..old(self)@
            }),
            final(self)@.joined(),
            final(self)@.joined_together(),
    {
        self.gossip_topic = Some(topic);
    }

    pub fn local_node_id(&self) -> (r: Option<NodeId>)
        ensures
            r.is_some() == self@.local.is_some(),
            r matches Some(id) ==> self@.local == Some(id@),
    {
        self.local
    }

    pub fn blobs_ready(&self) -> (r: bool)
        ensures
            r == self@.blobs_ready,
    {
        self.blobs_ready
    }

    pub fn gossip_ready(&self) -> (r: bool)
        ensures
            r == self@.gossip_ready,
    {
        self.gossip_ready
    }

    pub fn gossip_topic(&self) -> (r: Option<Topic>)
        ensures
            r.is_some() == self@.gossip_topic.is_some(),
            r matches Some(t) ==> self@.gossip_topic == Some(t@),
    {
        self.gossip_topic
    }

    pub fn sender_ready(&self) -> (r: bool)
        ensures
            r == self@.sender_ready,
    {
        self.gossip_topic.is_some()
    }

    pub fn sync_folder(&self) -> (r: &String)
        ensures
            r@ == self@.sync_folder,
    {
        &self.sync_folder
    }

    pub fn monitor_ready(&self) -> (r: bool)
        ensures
            r == self@.monitor_ready,
    {
        self.monitor_ready
    }
}

} // verus!
