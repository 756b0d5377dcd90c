//! The commands of the host shell, as far as they decide anything: which
//! handles a command needs, which topic a ticket carries, what joining a
//! ticket installs, and how the configuration store is read.

use vstd::prelude::*;
use crate::errors::{CommandError, Component, IrohError};
use crate::gossip_ops::{node_ids_of, peers_without, remote_peers, JoinPlan};
use crate::ids::{NodeId, Topic};
use crate::setup::os_random_bytes;
use crate::state::{AppState, AppStateView};
use crate::tickets::{GossipTicket, TicketError};
use crate::topic::{parse_topic, topic_of_text, topic_view};

verus! {

/// Key of the sync root in the configuration store.
pub const SYNC_FOLDER_KEY: &'static str = "sync-folder-path";

/// Key of the last topic in the configuration store.
pub const TOPIC_KEY: &'static str = "topic-id";

/// Key of the clipboard preference in the configuration store.
pub const CLIPBOARD_SHARING_KEY: &'static str = "clipboard_sharing_enabled";

/// File of the configuration store.
pub const STORE_FILE: &'static str = "store.json";

/// Event that carries a file-system event to the host.
pub const FS_EVENT: &'static str = "fs-event";

/// Event that carries a received file announcement to the host.
pub const GOSSIP_MESSAGE_EVENT: &'static str = "gossip://message";

/// Event that names a neighbor that came up.
pub const NEIGHBOR_UP_EVENT: &'static str = "gossip://neighbor-up";

/// Event that names a neighbor that went down.
pub const NEIGHBOR_DOWN_EVENT: &'static str = "gossip://neighbor-down";

/// Event that follows a successful join.
pub const GOSSIP_READY_EVENT: &'static str = "gossip-ready";

/// Event that follows a successful bootstrap.
pub const IROH_READY_EVENT: &'static str = "iroh_ready";

/// Event that carries the reason of a failed bootstrap.
pub const IROH_SETUP_FAILED_EVENT: &'static str = "iroh_setup_failed";

/// What the configuration store holds under a key.
#[derive(Clone, Debug, PartialEq, Eq)]
pub enum ConfigValue {
    /// The key is not set.
    Missing,
    Bool(bool),
    Text(String),
    /// A value of any other kind.
    Other,
}

/// Mathematical content of a [`ConfigValue`].
pub enum ConfigValueView {
    Missing,
    Bool(bool),
    Text(Seq<char>),
    Other,
}

impl View for ConfigValue {
    type V = ConfigValueView;

    open spec fn view(&self) -> ConfigValueView {
        match *self {
            ConfigValue::Missing => ConfigValueView::Missing,
            ConfigValue::Bool(b) => ConfigValueView::Bool(b),
            ConfigValue::Text(t) => ConfigValueView::Text(t@),
            ConfigValue::Other => ConfigValueView::Other,
        }
    }
}

/// Description of a file in the blob store.
#[derive(Clone, Debug, PartialEq, Eq)]
pub struct FileEntryInfo {
    pub filename: String,
    pub hash: String,
    pub size: u64,
}

/// Answer to a request for a blob ticket.
#[derive(Clone, Debug, PartialEq, Eq)]
pub struct ShareTicketResponse {
    pub ticket: String,
}

/// The local node's identity, as far as it exists.
#[derive(Clone, Copy, Debug, PartialEq, Eq)]
pub struct NodeInfo {
    pub node_id: Option<NodeId>,
}

pub open spec fn node_id_view(id: Option<NodeId>) -> Option<Seq<u8>> {
    match id {
        Some(id) => Some(id@),
        None => None,
    }
}

/// Reports the local identity: the endpoint's, or none before the endpoint
/// is bound.
pub fn get_node_info(state: &AppState) -> (info: NodeInfo)
    ensures
        node_id_view(info.node_id) == state@.local,
{
    NodeInfo { node_id: state.local_node_id() }
}

/// The clipboard preference: the stored boolean, `false` where the key is
/// missing or holds anything else.
pub open spec fn sharing_enabled_of(value: ConfigValueView) -> bool {
    value == ConfigValueView::Bool(true)
}

/// Reads the clipboard preference from what the store holds under
/// [`CLIPBOARD_SHARING_KEY`].
pub fn is_clipboard_sharing_enabled(value: &ConfigValue) -> (r: bool)
    ensures
        r == sharing_enabled_of(value@),
{
    match value {
        ConfigValue::Bool(b) => *b,
        _ => false,
    }
}

/// The value that switches clipboard sharing on.
pub fn enable_clipboard_sharing() -> (v: ConfigValue)
    ensures
        v@ == ConfigValueView::Bool(true),
        sharing_enabled_of(v@),
{
    ConfigValue::Bool(true)
}

/// The value that switches clipboard sharing off.
pub fn disable_clipboard_sharing() -> (v: ConfigValue)
    ensures
        v@ == ConfigValueView::Bool(false),
        !sharing_enabled_of(v@),
{
    ConfigValue::Bool(false)
}

/// The sync root that bootstrap watches: the stored text. A missing key is a
/// store error, a value of another kind an initialization error.
pub open spec fn sync_folder_of(value: ConfigValueView) -> Result<Seq<char>, CommandError> {
    match value {
        ConfigValueView::Text(t) => Ok(t),
        ConfigValueView::Missing => Err(CommandError::StoreError),
        _ => Err(CommandError::InitializationError),
    }
}

pub open spec fn text_result_view(r: Result<String, CommandError>) -> Result<
    Seq<char>,
    CommandError,
> {
    match r {
        Ok(t) => Ok(t@),
        Err(e) => Err(e),
    }
}

/// Reads the sync root from what the store holds under
/// [`SYNC_FOLDER_KEY`]. Bootstrap starts only where this succeeds.
pub fn handle_setup(value: &ConfigValue) -> (r: Result<String, CommandError>)
    ensures
        text_result_view(r) == sync_folder_of(value@),
{
    match value {
        ConfigValue::Text(t) => Ok(t.clone()),
        ConfigValue::Missing => Err(CommandError::StoreError),
        _ => Err(CommandError::InitializationError),
    }
}

/// Whether a blob can be fetched: the blob store must be running.
pub fn get_blob(state: &AppState) -> (r: Result<(), CommandError>)
    ensures
        r.is_ok() == state@.blobs_ready,
        r is Err ==> r == Err::<(), CommandError>(
            CommandError::IrohClientNotInitialized(Component::Blobs),
        ),
{
    if state.blobs_ready() {
        Ok(())
    } else {
        Err(CommandError::IrohClientNotInitialized(Component::Blobs))
    }
}

/// What stands in the way of a blob ticket for a file: the file is missing,
/// the blob store is not running, or no endpoint is bound, in this order.
pub open spec fn create_ticket_check(s: AppStateView, file_exists: bool) -> Result<
    (),
    CommandError,
> {
    if !file_exists {
        Err(CommandError::PathError)
    } else if !s.blobs_ready {
        Err(CommandError::IrohClientNotInitialized(Component::Blobs))
    } else if s.local.is_none() {
        Err(CommandError::IrohClientNotInitialized(Component::Endpoint))
    } else {
        Ok(())
    }
}

/// Whether a blob ticket can be made for a file. `file_exists` says whether
/// the file is on disk.
pub fn create_ticket(state: &AppState, file_exists: bool) -> (r: Result<(), CommandError>)
    ensures
        r == create_ticket_check(state@, file_exists),
{
    if !file_exists {
        Err(CommandError::PathError)
    } else if !state.blobs_ready() {
        Err(CommandError::IrohClientNotInitialized(Component::Blobs))
    } else if state.local_node_id().is_none() {
        Err(CommandError::IrohClientNotInitialized(Component::Endpoint))
    } else {
        Ok(())
    }
}

/// The topic of a new ticket: the stored one where the store holds a
/// readable topic, `fresh` otherwise.
pub open spec fn topic_for_ticket(stored: ConfigValueView, fresh: Seq<u8>) -> Seq<u8> {
    match stored {
        ConfigValueView::Text(t) => match topic_of_text(t) {
            Some(topic) => topic,
            None => fresh,
        },
        _ => fresh,
    }
}

/// The stored topic, where the store holds a readable one.
pub open spec fn stored_topic_of(stored: ConfigValueView) -> Option<Seq<u8>> {
    match stored {
        ConfigValueView::Text(t) => topic_of_text(t),
        _ => None,
    }
}

/// Reads the topic that the store holds under [`TOPIC_KEY`].
pub fn stored_topic(stored: &ConfigValue) -> (r: Option<Topic>)
    ensures
        topic_view(r) == stored_topic_of(stored@),
{
    match stored {
        ConfigValue::Text(t) => parse_topic(t.as_str()),
        _ => None,
    }
}

/// Picks the topic of a new ticket from the stored topic and a fresh one.
pub fn choose_topic(stored: &ConfigValue, fresh: Topic) -> (t: Topic)
    ensures
        t@ == topic_for_ticket(stored@, fresh@),
{
    match stored_topic(stored) {
        Some(t) => t,
        None => fresh,
    }
}

/// Decides the topic of a ticket that the local node hands out. `stored` is
/// what the store holds under [`TOPIC_KEY`]. The stored topic is reused; a
/// random one is made only where the store holds none that can be read. The
/// caller persists the result under the same key, as [`topic_text`] gives
/// it, and builds the ticket with [`GossipTicket::for_local`].
///
/// [`topic_text`]: crate::topic::topic_text
pub fn create_gossip_ticket(state: &AppState, stored: &ConfigValue) -> (r: Result<
    Topic,
    CommandError,
>)
    ensures
        state@.local.is_none() ==> r == Err::<Topic, CommandError>(
            CommandError::IrohClientNotInitialized(Component::Endpoint),
        ),
        state@.local.is_some() ==> match stored_topic_of(stored@) {
            Some(topic) => r matches Ok(t) && t@ == topic,
            None => r is Ok || r == Err::<Topic, CommandError>(
                CommandError::IrohError(IrohError::RandomSource),
            ),
        },
{
    if state.local_node_id().is_none() {
        return Err(CommandError::IrohClientNotInitialized(Component::Endpoint));
    }
    match stored_topic(stored) {
        Some(t) => Ok(t),
        None => match os_random_bytes() {
            Some(bytes) => Ok(choose_topic(stored, Topic::from_bytes(bytes))),
            None => Err(CommandError::from_iroh(IrohError::RandomSource)),
        },
    }
}

/// A topic that was persisted as text is the topic of every later ticket,
/// whatever fresh topic a later start would have had.
pub proof fn lemma_topic_persists(topic: Seq<u8>, text: Seq<char>, fresh: Seq<u8>)
    requires
        topic_of_text(text) == Some(topic),
    ensures
        topic_for_ticket(ConfigValueView::Text(text), fresh) == topic,
        stored_topic_of(ConfigValueView::Text(text)) == Some(topic),
{
}

/// What joining a ticket leads to. The checks are made in this order:
/// endpoint bound, gossip running, ticket readable, blob store running.
pub open spec fn join_check(s: AppStateView, ticket: Result<GossipTicket, TicketError>) -> Result<
    (),
    CommandError,
> {
    if s.local.is_none() {
        Err(CommandError::IrohClientNotInitialized(Component::Endpoint))
    } else if !s.gossip_ready {
        Err(CommandError::IrohClientNotInitialized(Component::Gossip))
    } else if ticket is Err {
        Err(CommandError::TicketParseError(ticket->Err_0))
    } else if !s.blobs_ready {
        Err(CommandError::IrohClientNotInitialized(Component::Blobs))
    } else {
        Ok(())
    }
}

/// Plans the subscription of a ticket for a node: the ticket's topic, and
/// its addresses without the node's own.
pub fn join_iroh_gossip(me: &NodeId, ticket: GossipTicket) -> (plan: JoinPlan)
    ensures
        plan.topic == ticket.topic,
        plan.peers@ == peers_without(ticket.nodes@, me@),
        plan.node_ids@.len() == plan.peers@.len(),
        forall|i: int|
            0 <= i < plan.peers@.len() ==> plan.node_ids@[i] == (#[trigger] plan.peers@[i]).node_id,
        forall|i: int| 0 <= i < plan.node_ids@.len() ==> (#[trigger] plan.node_ids@[i])@ != me@,
{
    let topic = ticket.topic;
    let peers = remote_peers(ticket.nodes, me);
    let node_ids = node_ids_of(&peers);
    assert forall|i: int| 0 <= i < node_ids@.len() implies (#[trigger] node_ids@[i])@ != me@ by {
        assert(peers@[i].node_id@ != me@);
    }
    JoinPlan { topic, peers, node_ids }
}

/// Decides the join of a ticket. `ticket` is the ticket as read from its
/// text, or the reason why it could not be read. On success the caller
/// persists the plan's topic, installs the plan's peers, subscribes with the
/// plan's identifiers, and then records the join in the state.
pub fn join_gossip(state: &AppState, ticket: Result<GossipTicket, TicketError>) -> (r: Result<
    JoinPlan,
    CommandError,
>)
    ensures
        match r {
            Ok(plan) => {
                &&& join_check(state@, ticket) is Ok
                &&& ticket matches Ok(t)
                &&& plan.topic == t.topic
                &&& plan.peers@ == peers_without(t.nodes@, state@.local.unwrap())
                &&& plan.node_ids@.len() == plan.peers@.len()
                &&& forall|i: int|
                    0 <= i < plan.peers@.len() ==> plan.node_ids@[i] == (
                    #[trigger] plan.peers@[i]).node_id
            },
            Err(e) => join_check(state@, ticket) == Err::<(), CommandError>(e),
        },
{
    let me = match state.local_node_id() {
        Some(id) => id,
        None => {
            return Err(CommandError::IrohClientNotInitialized(Component::Endpoint));
        },
    };
    if !state.gossip_ready() {
        return Err(CommandError::IrohClientNotInitialized(Component::Gossip));
    }
    let ticket = match ticket {
        Ok(t) => t,
        Err(e) => {
            return Err(CommandError::TicketParseError(e));
        },
    };
    if !state.blobs_ready() {
        return Err(CommandError::IrohClientNotInitialized(Component::Blobs));
    }
    Ok(join_iroh_gossip(&me, ticket))
}

} // verus!
