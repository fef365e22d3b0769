//! The session state machine of the media-player client.
//!
//! The client decides; a driver performs. `MprisClient::start` and
//! `MprisClient::step` return the actions to perform, in order. The actions
//! `Discover`, `Open`, `Probe` and `ResolveTrack` have a result, which the
//! driver hands back as the next event; such an action is always the last of
//! its list. While the client is bound, the driver waits for a change signal,
//! a command, or the idle timeout, and hands that in as an event. Commands are
//! offered only while the client is bound; until then they stay queued.

use crate::mpris::metadata::{meta_track_id, Metadata, ValueModel};
use crate::mpris::sources::{
    index_of_name, selected_index, source_models, PlayerSource, SourceModel, SourcePreference,
};
use crate::mpris::types::{CommandModel, PlayerCommand};
use vstd::prelude::*;

verus! {

/// Pause between two discovery passes while no player is there.
pub const IDLE_POLL_MS: u64 = 2000;

/// Pause between the end of a session and the next discovery pass.
pub const RECONNECT_DELAY_MS: u64 = 500;

/// Pause before the first fetch of a session.
pub const SETTLE_DELAY_MS: u64 = 300;

/// Pause before the second fetch of a session, for late subscribers.
pub const SECOND_FETCH_DELAY_MS: u64 = 500;

/// Pause between a play/pause, seek or set-position call and the refetch.
pub const COMMAND_DELAY_MS: u64 = 100;

/// Pause between a next or previous call and the refetch.
pub const TRACK_CHANGE_DELAY_MS: u64 = 200;

/// Time without any event after which a bound session probes its player.
pub const IDLE_TIMEOUT_MS: u64 = 5000;

/// Whether a character may stand in an element of an object path.
pub open spec fn is_path_char(c: char) -> bool {
    ('a' <= c && c <= 'z') || ('A' <= c && c <= 'Z') || ('0' <= c && c <= '9') || c == '_'
}

/// Whether a string is an object path of the bus: it begins with a slash,
/// holds only letters and digits of ASCII, underscores and slashes, has no
/// two slashes in a row, and ends in a slash only if it is the root path.
pub open spec fn is_object_path(s: Seq<char>) -> bool {
    &&& s.len() >= 1
    &&& s[0] == '/'
    &&& forall|i: int| 0 <= i < s.len() ==> is_path_char(#[trigger] s[i]) || s[i] == '/'
    &&& forall|i: int| 0 <= i < s.len() - 1 ==> !(#[trigger] s[i] == '/' && s[i + 1] == '/')
    &&& s.len() > 1 ==> s.last() != '/'
}

/// `ObjectPath::try_from` of zbus, on a string slice: whether the string is
/// accepted as an object path. The crate's validator takes a slash followed
/// by elements of one or more ASCII letters, digits or underscores, with one
/// slash between each two and nothing after the last.
#[verifier::external_body]
pub(crate) fn valid_object_path(path: &str) -> (valid: bool)
    ensures
        valid == is_object_path(path@),
{
    zbus::ObjectPath::try_from(path).is_ok()
}

/// Whether a track identifier can address an absolute seek.
pub fn valid_track(track_id: &String) -> (valid: bool)
    ensures
        valid == is_object_path(track_id@),
{
    valid_object_path(track_id.as_str())
}

/// Which of the three change signals fired. The client reads none of what a
/// signal carries: each one only triggers a full refetch.
#[derive(Clone, Copy, Debug, PartialEq, Eq, Structural)]
pub enum Signal {
    PlaybackStatus,
    Metadata,
    Seeked,
}

/// Why a session ended.
#[derive(Clone, Copy, Debug, PartialEq, Eq, Structural)]
pub enum SessionEnd {
    /// The proxy or its subscriptions could not be set up.
    Failed,
    /// The player no longer answered the liveness probe.
    Disconnected,
    /// A command asked for another source.
    Switched,
}

/// What the driver hands to the client.
#[derive(Clone, Debug)]
pub enum SessionEvent {
    /// A discovery pass finished: the ranked sources, or `None` if it failed.
    Discovered(Option<Vec<PlayerSource>>),
    /// The proxy and the three subscriptions were set up, or not.
    Opened(bool),
    /// A change signal fired.
    Signal(Signal),
    /// A command arrived.
    Command(PlayerCommand),
    /// The idle timeout went by without any other event.
    IdleTimeout,
    /// The liveness probe was answered, or not.
    Probed(bool),
    /// The metadata that was fetched to address an absolute seek, or `None`
    /// if the fetch failed.
    TrackResolved(Option<Metadata>),
}

/// Mathematical model of a `SessionEvent`.
pub ghost enum EventModel {
    Discovered(Option<Seq<SourceModel>>),
    Opened(bool),
    Signal(Signal),
    Command(CommandModel),
    IdleTimeout,
    Probed(bool),
    TrackResolved(Option<Map<Seq<char>, ValueModel>>),
}

impl View for SessionEvent {
    type V = EventModel;

    open spec fn view(&self) -> EventModel {
        match *self {
            SessionEvent::Discovered(found) => EventModel::Discovered(
                match found {
                    Some(sources) => Some(source_models(sources@)),
                    None => None,
                },
            ),
            SessionEvent::Opened(ok) => EventModel::Opened(ok),
            SessionEvent::Signal(signal) => EventModel::Signal(signal),
            SessionEvent::Command(command) => EventModel::Command(command@),
            SessionEvent::IdleTimeout => EventModel::IdleTimeout,
            SessionEvent::Probed(alive) => EventModel::Probed(alive),
            SessionEvent::TrackResolved(metadata) => EventModel::TrackResolved(
                match metadata {
                    Some(m) => Some(m@),
                    None => None,
                },
            ),
        }
    }
}

/// What the client asks the driver to do.
#[derive(Clone, Debug)]
pub enum Action {
    /// Wait this many milliseconds.
    Sleep(u64),
    /// Run a discovery pass; answered by `Discovered`.
    Discover,
    /// Tell the listeners the sources and the bus name of the active one.
    NotifySources(Vec<PlayerSource>, Option<String>),
    /// Open a proxy on this bus name and subscribe to its three signals;
    /// answered by `Opened`.
    Open(String),
    /// Drop the proxy and its subscriptions: the session is over.
    Close(SessionEnd),
    /// Fetch all properties and publish the snapshot.
    FetchAndPublish,
    /// Fetch the metadata; answered by `TrackResolved`.
    ResolveTrack,
    PlayPause,
    Next,
    Previous,
    /// Seek by this offset in microseconds.
    Seek(i64),
    /// Seek the track with this identifier to this position in microseconds.
    SetPosition(String, i64),
    /// Read one cheap property; answered by `Probed`.
    Probe,
    /// Persist this preference.
    SavePreference(SourcePreference),
}

/// Mathematical model of an `Action`.
pub ghost enum ActionModel {
    Sleep(int),
    Discover,
    NotifySources(Seq<SourceModel>, Option<Seq<char>>),
    Open(Seq<char>),
    Close(SessionEnd),
    FetchAndPublish,
    ResolveTrack,
    PlayPause,
    Next,
    Previous,
    Seek(int),
    SetPosition(Seq<char>, int),
    Probe,
    SavePreference(Option<Seq<char>>),
}

impl ActionModel {
    /// Whether the action has a result that comes back as an event.
    pub open spec fn is_query(self) -> bool {
        self is Discover || self is Open || self is Probe || self is ResolveTrack
    }

    /// Whether the action calls a control method of the player.
    pub open spec fn is_control_call(self) -> bool {
        self is PlayPause || self is Next || self is Previous || self is Seek
            || self is SetPosition
    }
}

impl View for Action {
    type V = ActionModel;

    open spec fn view(&self) -> ActionModel {
        match *self {
            Action::Sleep(ms) => ActionModel::Sleep(ms as int),
            Action::Discover => ActionModel::Discover,
            Action::NotifySources(sources, active) => ActionModel::NotifySources(
                source_models(sources@),
                match active {
                    Some(bus) => Some(bus@),
                    None => None,
                },
            ),
            Action::Open(bus) => ActionModel::Open(bus@),
            Action::Close(end) => ActionModel::Close(end),
            Action::FetchAndPublish => ActionModel::FetchAndPublish,
            Action::ResolveTrack => ActionModel::ResolveTrack,
            Action::PlayPause => ActionModel::PlayPause,
            Action::Next => ActionModel::Next,
            Action::Previous => ActionModel::Previous,
            Action::Seek(offset) => ActionModel::Seek(offset as int),
            Action::SetPosition(track, position) => ActionModel::SetPosition(
                track@,
                position as int,
            ),
            Action::Probe => ActionModel::Probe,
            Action::SavePreference(preference) => ActionModel::SavePreference(preference@),
        }
    }
}

/// The models of a sequence of actions.
pub open spec fn action_models(actions: Seq<Action>) -> Seq<ActionModel> {
    actions.map_values(|a: Action| a@)
}

/// Where the client stands.
#[derive(Clone, Debug)]
pub enum Phase {
    /// No session; a discovery pass is under way. `active` is the bus name
    /// that stays pinned if the pass fails; `after_session` says that a
    /// session has just ended.
    Searching { active: Option<String>, after_session: bool },
    /// The session on `bus` is being opened.
    Connecting { bus: String },
    /// Bound to `bus`, waiting for a signal, a command or the idle timeout.
    Bound { bus: String },
    /// Bound to `bus`; the track identifier for an absolute seek to
    /// `position` is being fetched.
    Resolving { bus: String, position: i64 },
    /// Bound to `bus`; the sources are being discovered for a switch to the
    /// source named `target`.
    Switching { bus: String, target: String },
    /// Bound to `bus`; the liveness probe is under way.
    Probing { bus: String },
}

/// Mathematical model of a `Phase`.
pub ghost enum PhaseModel {
    Searching { active: Option<Seq<char>>, after_session: bool },
    Connecting { bus: Seq<char> },
    Bound { bus: Seq<char> },
    Resolving { bus: Seq<char>, position: int },
    Switching { bus: Seq<char>, target: Seq<char> },
    Probing { bus: Seq<char> },
}

impl PhaseModel {
    /// Whether a session is open in this phase.
    pub open spec fn in_session(self) -> bool {
        self is Bound || self is Resolving || self is Switching || self is Probing
    }
}

impl View for Phase {
    type V = PhaseModel;

    open spec fn view(&self) -> PhaseModel {
        match *self {
            Phase::Searching { active, after_session } => PhaseModel::Searching {
                active: match active {
                    Some(bus) => Some(bus@),
                    None => None,
                },
                after_session,
            },
            Phase::Connecting { bus } => PhaseModel::Connecting { bus: bus@ },
            Phase::Bound { bus } => PhaseModel::Bound { bus: bus@ },
            Phase::Resolving { bus, position } => PhaseModel::Resolving {
                bus: bus@,
                position: position as int,
            },
            Phase::Switching { bus, target } => PhaseModel::Switching { bus: bus@, target: target@ },
            Phase::Probing { bus } => PhaseModel::Probing { bus: bus@ },
        }
    }
}

/// Mathematical model of the client: the favorite and the phase.
pub ghost struct ClientModel {
    pub preference: Option<Seq<char>>,
    pub phase: PhaseModel,
}

/// The phase to go to, and what to do, once the active bus name is settled:
/// open a session on it, or wait and discover again where there is none.
pub open spec fn enter(active: Option<Seq<char>>) -> (PhaseModel, Seq<ActionModel>) {
    match active {
        Some(bus) => (PhaseModel::Connecting { bus }, seq![ActionModel::Open(bus)]),
        None => (
            PhaseModel::Searching { active: None, after_session: false },
            seq![ActionModel::Sleep(IDLE_POLL_MS as int), ActionModel::Discover],
        ),
    }
}

/// The bus name of the source that the preference selects.
pub open spec fn selected_bus(preference: Option<Seq<char>>, sources: Seq<SourceModel>) -> Option<
    Seq<char>,
> {
    match selected_index(preference, sources) {
        Some(i) => Some(sources[i].bus_name),
        None => None,
    }
}

/// What follows a discovery pass outside a session. Where the pass gave
/// sources, the preference selects among them, and the listeners are told if
/// a session has just ended or a source was selected. Where it failed, the
/// pinned bus name stays.
pub open spec fn after_discovery(
    preference: Option<Seq<char>>,
    active: Option<Seq<char>>,
    after_session: bool,
    found: Option<Seq<SourceModel>>,
) -> (PhaseModel, Seq<ActionModel>) {
    match found {
        Some(sources) => {
            let selected = selected_bus(preference, sources);
            let notify = if after_session || selected is Some {
                seq![ActionModel::NotifySources(sources, selected)]
            } else {
                seq![]
            };
            (enter(selected).0, notify + enter(selected).1)
        },
        None => enter(active),
    }
}

/// The end of a session: the proxy is closed and, after a short wait, the
/// sources are discovered again, with `active` pinned meanwhile.
pub open spec fn end_session(active: Seq<char>, end: SessionEnd) -> (
    PhaseModel,
    Seq<ActionModel>,
) {
    (
        PhaseModel::Searching { active: Some(active), after_session: true },
        seq![
            ActionModel::Close(end),
            ActionModel::Sleep(RECONNECT_DELAY_MS as int),
            ActionModel::Discover,
        ],
    )
}

/// A control call, the wait after it, and the refetch.
pub open spec fn call_then_refetch(call: ActionModel, delay_ms: int) -> Seq<ActionModel> {
    seq![call, ActionModel::Sleep(delay_ms), ActionModel::FetchAndPublish]
}

/// The track identifier to address an absolute seek with: the one that the
/// metadata holds, if the fetch succeeded, it holds one, and that is an
/// object path.
pub open spec fn seek_target(metadata: Option<Map<Seq<char>, ValueModel>>) -> Option<Seq<char>> {
    match metadata {
        Some(m) => match meta_track_id(m) {
            Some(id) => if is_object_path(id) {
                Some(id)
            } else {
                None
            },
            None => None,
        },
        None => None,
    }
}

/// What a command does to a bound client.
pub open spec fn on_command(client: ClientModel, bus: Seq<char>, command: CommandModel) -> (
    ClientModel,
    Seq<ActionModel>,
) {
    match command {
        CommandModel::PlayPause => (
            client,
            call_then_refetch(ActionModel::PlayPause, COMMAND_DELAY_MS as int),
        ),
        CommandModel::Next => (
            client,
            call_then_refetch(ActionModel::Next, TRACK_CHANGE_DELAY_MS as int),
        ),
        CommandModel::Previous => (
            client,
            call_then_refetch(ActionModel::Previous, TRACK_CHANGE_DELAY_MS as int),
        ),
        CommandModel::Seek(offset) => (
            client,
            call_then_refetch(ActionModel::Seek(offset), COMMAND_DELAY_MS as int),
        ),
        CommandModel::SetPosition(position) => (
            ClientModel { phase: PhaseModel::Resolving { bus, position }, ..client },
            seq![ActionModel::ResolveTrack],
        ),
        CommandModel::SwitchSource(target) => (
            ClientModel { phase: PhaseModel::Switching { bus, target }, ..client },
            seq![ActionModel::Discover],
        ),
        CommandModel::SetFavorite(name) => (
            ClientModel { preference: Some(name), ..client },
            seq![ActionModel::SavePreference(Some(name))],
        ),
        CommandModel::ClearFavorite => (
            ClientModel { preference: None, ..client },
            seq![ActionModel::SavePreference(None)],
        ),
    }
}

/// The transition function: the client after `event`, and the actions to
/// perform. An event that the phase does not wait for changes nothing.
pub open spec fn step_model(client: ClientModel, event: EventModel) -> (
    ClientModel,
    Seq<ActionModel>,
) {
    let ignored = (client, Seq::<ActionModel>::empty());
    match client.phase {
        PhaseModel::Searching { active, after_session } => match event {
            EventModel::Discovered(found) => {
                let next = after_discovery(client.preference, active, after_session, found);
                (ClientModel { phase: next.0, ..client }, next.1)
            },
            _ => ignored,
        },
        PhaseModel::Connecting { bus } => match event {
            EventModel::Opened(true) => (
                ClientModel { phase: PhaseModel::Bound { bus }, ..client },
                seq![
                    ActionModel::Sleep(SETTLE_DELAY_MS as int),
                    ActionModel::FetchAndPublish,
                    ActionModel::Sleep(SECOND_FETCH_DELAY_MS as int),
                    ActionModel::FetchAndPublish,
                ],
            ),
            EventModel::Opened(false) => {
                let next = end_session(bus, SessionEnd::Failed);
                (ClientModel { phase: next.0, ..client }, next.1)
            },
            _ => ignored,
        },
        PhaseModel::Bound { bus } => match event {
            EventModel::Signal(_) => (client, seq![ActionModel::FetchAndPublish]),
            EventModel::Command(command) => on_command(client, bus, command),
            EventModel::IdleTimeout => (
                ClientModel { phase: PhaseModel::Probing { bus }, ..client },
                seq![ActionModel::Probe],
            ),
            _ => ignored,
        },
        PhaseModel::Resolving { bus, position } => match event {
            EventModel::TrackResolved(metadata) => (
                ClientModel { phase: PhaseModel::Bound { bus }, ..client },
                match seek_target(metadata) {
                    Some(track) => call_then_refetch(
                        ActionModel::SetPosition(track, position),
                        COMMAND_DELAY_MS as int,
                    ),
                    None => seq![],
                },
            ),
            _ => ignored,
        },
        PhaseModel::Switching { bus, target } => match event {
            EventModel::Discovered(found) => match found {
                Some(sources) => if index_of_name(sources, target) < sources.len() {
                    let new_bus = sources[index_of_name(sources, target)].bus_name;
                    let next = end_session(new_bus, SessionEnd::Switched);
                    (
                        ClientModel { phase: next.0, ..client },
                        seq![ActionModel::NotifySources(sources, Some(new_bus))] + next.1,
                    )
                } else {
                    (ClientModel { phase: PhaseModel::Bound { bus }, ..client }, seq![])
                },
                None => (ClientModel { phase: PhaseModel::Bound { bus }, ..client }, seq![]),
            },
            _ => ignored,
        },
        PhaseModel::Probing { bus } => match event {
            EventModel::Probed(true) => (
                ClientModel { phase: PhaseModel::Bound { bus }, ..client },
                seq![],
            ),
            EventModel::Probed(false) => {
                let next = end_session(bus, SessionEnd::Disconnected);
                (ClientModel { phase: next.0, ..client }, next.1)
            },
            _ => ignored,
        },
    }
}

/// The client at its start, and the first actions: the preference selects
/// among the sources of the first discovery pass, and the listeners are told.
pub open spec fn start_model(preference: Option<Seq<char>>, sources: Seq<SourceModel>) -> (
    ClientModel,
    Seq<ActionModel>,
) {
    let selected = selected_bus(preference, sources);
    (
        ClientModel { preference, phase: enter(selected).0 },
        seq![ActionModel::NotifySources(sources, selected)] + enter(selected).1,
    )
}

/// The client after a sequence of events, and all the actions on the way.
pub open spec fn run_model(client: ClientModel, events: Seq<EventModel>) -> (
    ClientModel,
    Seq<ActionModel>,
)
    decreases events.len(),
{
    if events.len() == 0 {
        (client, Seq::empty())
    } else {
        let before = run_model(client, events.drop_last());
        let last = step_model(before.0, events.last());
        (last.0, before.1 + last.1)
    }
}

} // verus!
