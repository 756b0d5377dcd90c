//! Events of the recursive watcher over the sync root, and how a platform
//! notification maps to one of them.

use vstd::prelude::*;

verus! {

/// Kind of change that an event reports.
#[derive(Clone, Copy, Debug, PartialEq, Eq, Structural)]
pub enum FsEventType {
    Create,
    Modify,
    Remove,
    Error,
    Other,
}

/// One event of the watcher: what happened, and to which path.
#[derive(Clone, Debug)]
pub struct FsEventPayload {
    pub event_type: FsEventType,
    pub path: String,
}

/// Mathematical content of an [`FsEventPayload`].
pub struct FsEventPayloadView {
    pub event_type: FsEventType,
    pub path: Seq<char>,
}

impl View for FsEventPayload {
    type V = FsEventPayloadView;

    open spec fn view(&self) -> FsEventPayloadView {
        FsEventPayloadView { event_type: self.event_type, path: self.path@ }
    }
}

/// How a rename was observed by the platform.
#[derive(Clone, Copy, Debug, PartialEq, Eq, Structural)]
pub enum RenameMode {
    /// The platform does not say which side of the rename this is.
    Any,
    /// The path is the new name.
    To,
    /// The path is the old name.
    From,
    /// One event carries both names.
    Both,
    Other,
}

/// What a modification touched.
#[derive(Clone, Copy, Debug, PartialEq, Eq, Structural)]
pub enum ModifyKind {
    Any,
    Data,
    Metadata,
    Name(RenameMode),
    Other,
}

/// Kind of a platform notification.
#[derive(Clone, Copy, Debug, PartialEq, Eq, Structural)]
pub enum WatchKind {
    Any,
    Access,
    Create,
    Modify(ModifyKind),
    Remove,
    Other,
}

/// One message from the watcher thread.
#[derive(Clone, Debug)]
pub enum WatchMessage {
    /// A notification with its kind and the paths it names, in order.
    Event { kind: WatchKind, paths: Vec<String> },
    /// The watcher itself reported an error.
    Failed,
}

/// The event type that a notification kind maps to. `exists` says whether
/// the notification's path is present on disk; only a rename of unknown
/// direction depends on it.
pub open spec fn event_type_of(kind: WatchKind, exists: bool) -> FsEventType {
    match kind {
        WatchKind::Create => FsEventType::Create,
        WatchKind::Remove => FsEventType::Remove,
        WatchKind::Modify(ModifyKind::Data) => FsEventType::Modify,
        WatchKind::Modify(ModifyKind::Metadata) => FsEventType::Modify,
        WatchKind::Modify(ModifyKind::Any) => FsEventType::Modify,
        WatchKind::Modify(ModifyKind::Other) => FsEventType::Other,
        WatchKind::Modify(ModifyKind::Name(RenameMode::To)) => FsEventType::Create,
        WatchKind::Modify(ModifyKind::Name(RenameMode::From)) => FsEventType::Remove,
        WatchKind::Modify(ModifyKind::Name(RenameMode::Both)) => FsEventType::Modify,
        WatchKind::Modify(ModifyKind::Name(RenameMode::Any)) => if exists {
            FsEventType::Create
        } else {
            FsEventType::Remove
        },
        WatchKind::Modify(ModifyKind::Name(RenameMode::Other)) => FsEventType::Other,
        WatchKind::Access => FsEventType::Other,
        WatchKind::Any => FsEventType::Other,
        WatchKind::Other => FsEventType::Other,
    }
}

/// Whether the mapping of `kind` needs to know if the path exists.
pub open spec fn depends_on_existence(kind: WatchKind) -> bool {
    kind == WatchKind::Modify(ModifyKind::Name(RenameMode::Any))
}

/// Whether the mapping of `kind` needs to know if the path exists. The
/// caller looks at the disk only where this holds.
pub fn needs_existence_check(kind: WatchKind) -> (r: bool)
    ensures
        r == depends_on_existence(kind),
        !r ==> event_type_of(kind, true) == event_type_of(kind, false),
{
    match kind {
        WatchKind::Modify(ModifyKind::Name(RenameMode::Any)) => true,
        _ => false,
    }
}

/// Maps a notification kind to an event type.
pub fn classify(kind: WatchKind, exists: bool) -> (t: FsEventType)
    ensures
        t == event_type_of(kind, exists),
{
    match kind {
        WatchKind::Create => FsEventType::Create,
        WatchKind::Remove => FsEventType::Remove,
        WatchKind::Modify(m) => match m {
            ModifyKind::Data => FsEventType::Modify,
            ModifyKind::Metadata => FsEventType::Modify,
            ModifyKind::Name(r) => match r {
                RenameMode::To => FsEventType::Create,
                RenameMode::From => FsEventType::Remove,
                RenameMode::Both => FsEventType::Modify,
                RenameMode::Any => if exists {
                    FsEventType::Create
                } else {
                    FsEventType::Remove
                },
                RenameMode::Other => FsEventType::Other,
            },
            ModifyKind::Any => FsEventType::Modify,
            ModifyKind::Other => FsEventType::Other,
        },
        WatchKind::Access => FsEventType::Other,
        WatchKind::Any => FsEventType::Other,
        WatchKind::Other => FsEventType::Other,
    }
}

/// The first path of a notification; the empty path where it names none.
pub open spec fn first_path(paths: Seq<String>) -> Seq<char> {
    if paths.len() > 0 {
        paths[0]@
    } else {
        Seq::<char>::empty()
    }
}

/// The payload that a message of the watcher becomes.
pub open spec fn payload_of(msg: WatchMessage, exists: bool) -> FsEventPayloadView {
    match msg {
        WatchMessage::Event { kind, paths } => FsEventPayloadView {
            event_type: event_type_of(kind, exists),
            path: first_path(paths@),
        },
        WatchMessage::Failed => FsEventPayloadView {
            event_type: FsEventType::Error,
            path: Seq::<char>::empty(),
        },
    }
}

/// The path whose presence on disk decides the event type of `msg`, if
/// there is one: the first path of a rename of unknown direction.
pub fn path_to_probe(msg: &WatchMessage) -> (r: Option<String>)
    ensures
        match *msg {
            WatchMessage::Event { kind, paths } => if depends_on_existence(kind) {
                r matches Some(p) && p@ == first_path(paths@)
            } else {
                r.is_none()
            },
            WatchMessage::Failed => r.is_none(),
        },
        r.is_none() ==> payload_of(*msg, true) == payload_of(*msg, false),
{
    match msg {
        WatchMessage::Event { kind, paths } => {
            if needs_existence_check(*kind) {
                if paths.len() > 0 {
                    Some(paths[0].clone())
                } else {
                    Some(String::new())
                }
            } else {
                None
            }
        },
        WatchMessage::Failed => None,
    }
}

/// Turns one message of the watcher into the payload that is dispatched and
/// shown: the mapped event type with the first path, or an error event with
/// the empty path where the watcher failed.
pub fn handle_watcher(msg: &WatchMessage, exists: bool) -> (p: FsEventPayload)
    ensures
        p@ == payload_of(*msg, exists),
{
    match msg {
        WatchMessage::Event { kind, paths } => {
            let path = if paths.len() > 0 {
                paths[0].clone()
            } else {
                String::new()
            };
            FsEventPayload { event_type: classify(*kind, exists), path }
        },
        WatchMessage::Failed => FsEventPayload {
            event_type: FsEventType::Error,
            path: String::new(),
        },
    }
}

/// The payload shown once the watcher's channel has closed: an event of
/// type `Other` with the empty path. After it the processing loop ends.
pub fn channel_closed_payload() -> (p: FsEventPayload)
    ensures
        p@ == (FsEventPayloadView { event_type: FsEventType::Other, path: Seq::<char>::empty() }),
{
    FsEventPayload { event_type: FsEventType::Other, path: String::new() }
}

} // verus!
