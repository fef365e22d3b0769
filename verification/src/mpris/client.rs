//! The client: the executable form of the session state machine.

use crate::mpris::metadata::extract_track_id;
use crate::mpris::session::{
    action_models, call_then_refetch, end_session, enter, on_command, selected_bus, start_model,
    step_model, valid_track, Action, ActionModel, ClientModel, Phase, SessionEnd, SessionEvent,
    COMMAND_DELAY_MS, IDLE_POLL_MS, RECONNECT_DELAY_MS, SECOND_FETCH_DELAY_MS, SETTLE_DELAY_MS,
    TRACK_CHANGE_DELAY_MS,
};
use crate::mpris::sources::{
    index_of_name, lemma_index_unique, lemma_selected_in_range, selected_index, source_models,
    PlayerSource, SourcePreference,
};
use crate::mpris::types::PlayerCommand;
use crate::text::{opt_text, str_eq};
use vstd::prelude::*;

verus! {

/// The media-player client: the user's preference and the phase of the
/// session.
#[derive(Clone, Debug)]
pub struct MprisClient {
    pub preference: SourcePreference,
    pub phase: Phase,
}

impl View for MprisClient {
    type V = ClientModel;

    open spec fn view(&self) -> ClientModel {
        ClientModel { preference: self.preference@, phase: self.phase@ }
    }
}

/// Appends one action.
fn emit(actions: &mut Vec<Action>, action: Action)
    ensures
        action_models(final(actions)@) == action_models(old(actions)@).push(action@),
{
    actions.push(action);
    assert(action_models(actions@) =~= action_models(old(actions)@).push(action@));
}

/// Appends a control call, the wait after it, and the refetch.
fn emit_call(actions: &mut Vec<Action>, call: Action, delay_ms: u64)
    ensures
        action_models(final(actions)@) == action_models(old(actions)@) + call_then_refetch(
            call@,
            delay_ms as int,
        ),
{
    emit(actions, call);
    emit(actions, Action::Sleep(delay_ms));
    emit(actions, Action::FetchAndPublish);
    assert(action_models(actions@) =~= action_models(old(actions)@) + call_then_refetch(
        call@,
        delay_ms as int,
    ));
}

/// Settles the active bus name: opens a session on it, or waits and
/// discovers again.
fn enter_phase(active: Option<String>, actions: &mut Vec<Action>) -> (phase: Phase)
    ensures
        phase@ == enter(opt_text(active)).0,
        action_models(final(actions)@) == action_models(old(actions)@) + enter(opt_text(active)).1,
{
    match active {
        Some(bus) => {
            emit(actions, Action::Open(bus.clone()));
            assert(action_models(actions@) =~= action_models(old(actions)@) + enter(
                opt_text(active),
            ).1);
            Phase::Connecting { bus }
        },
        None => {
            emit(actions, Action::Sleep(IDLE_POLL_MS));
            emit(actions, Action::Discover);
            assert(action_models(actions@) =~= action_models(old(actions)@) + enter(
                opt_text(active),
            ).1);
            Phase::Searching { active: None, after_session: false }
        },
    }
}

/// Ends the session, with `active` pinned for the time of the next
/// discovery pass.
fn leave_session(active: String, end: SessionEnd, actions: &mut Vec<Action>) -> (phase: Phase)
    ensures
        phase@ == end_session(active@, end).0,
        action_models(final(actions)@) == action_models(old(actions)@) + end_session(
            active@,
            end,
        ).1,
{
    emit(actions, Action::Close(end));
    emit(actions, Action::Sleep(RECONNECT_DELAY_MS));
    emit(actions, Action::Discover);
    assert(action_models(actions@) =~= action_models(old(actions)@) + end_session(
        active@,
        end,
    ).1);
    Phase::Searching { active: Some(active), after_session: true }
}

/// The bus name of the source that the preference selects.
fn select_bus(preference: &SourcePreference, sources: &Vec<PlayerSource>) -> (bus: Option<String>)
    ensures
        opt_text(bus) == selected_bus(preference@, source_models(sources@)),
{
    match preference.select_source(sources.as_slice()) {
        Some(source) => {
            let ghost i = selected_index(preference@, source_models(sources@))->0;
            proof {
                lemma_selected_in_range(preference@, source_models(sources@));
            }
            assert(source_models(sources@)[i] == sources@[i]@);
            Some(source.bus_name.clone())
        },
        None => None,
    }
}

/// The bus name of the first source whose short name is `target`.
fn bus_of_name(sources: &Vec<PlayerSource>, target: &str) -> (bus: Option<String>)
    ensures
        opt_text(bus) == if index_of_name(source_models(sources@), target@) < sources.len() {
            Some(
                source_models(sources@)[index_of_name(
                    source_models(sources@),
                    target@,
                )].bus_name,
            )
        } else {
            None
        },
{
    let ghost models = source_models(sources@);
    let mut i: usize = 0;
    while i < sources.len()
        invariant
            i <= sources.len(),
            models == source_models(sources@),
            forall|j: int| 0 <= j < i ==> models[j].short_name != target@,
        decreases sources.len() - i,
    {
        assert(models[i as int] == sources@[i as int]@);
        if str_eq(sources[i].short_name.as_str(), target) {
            proof {
                lemma_index_unique(models, target@, i as int);
            }
            return Some(sources[i].bus_name.clone());
        }
        i += 1;
    }
    proof {
        lemma_index_unique(models, target@, i as int);
    }
    None
}

/// A copy of a preference.
fn copy_preference(preference: &SourcePreference) -> (copy: SourcePreference)
    ensures
        copy@ == preference@,
{
    match &preference.favorite {
        Some(name) => SourcePreference { favorite: Some(name.clone()) },
        None => SourcePreference { favorite: None },
    }
}

impl MprisClient {
    /// Starts the client with the sources of the first discovery pass: the
    /// preference selects the active one, the listeners are told, and the
    /// session on it is opened (or the polling for a player begins).
    pub fn start(preference: SourcePreference, sources: Vec<PlayerSource>) -> (started: (
        MprisClient,
        Vec<Action>,
    ))
        ensures
            (started.0@, action_models(started.1@)) == start_model(
                preference@,
                source_models(sources@),
            ),
    {
        let mut actions: Vec<Action> = Vec::new();
        let selected = select_bus(&preference, &sources);
        let told = match &selected {
            Some(bus) => Some(bus.clone()),
            None => None,
        };
        emit(&mut actions, Action::NotifySources(sources, told));
        let phase = enter_phase(selected, &mut actions);
        assert(action_models(actions@) =~= start_model(preference@, source_models(sources@)).1);
        (MprisClient { preference, phase }, actions)
    }

    /// Whether the client is bound and waits for a signal, a command or the
    /// idle timeout.
    pub fn accepts_commands(&self) -> (bound: bool)
        ensures
            bound == (self@.phase is Bound),
    {
        match &self.phase {
            Phase::Bound { .. } => true,
            _ => false,
        }
    }

    /// What a command does to the client bound to `bus`.
    fn command(self, bus: String, command: PlayerCommand) -> (next: (MprisClient, Vec<Action>))
        requires
            self.phase == (Phase::Bound { bus }),
        ensures
            (next.0@, action_models(next.1@)) == on_command(self@, bus@, command@),
    {
        let mut actions: Vec<Action> = Vec::new();
        let MprisClient { mut preference, phase } = self;
        let phase = match command {
            PlayerCommand::PlayPause => {
                emit_call(&mut actions, Action::PlayPause, COMMAND_DELAY_MS);
                phase
            },
            PlayerCommand::Next => {
                emit_call(&mut actions, Action::Next, TRACK_CHANGE_DELAY_MS);
                phase
            },
            PlayerCommand::Previous => {
                emit_call(&mut actions, Action::Previous, TRACK_CHANGE_DELAY_MS);
                phase
            },
            PlayerCommand::Seek(offset) => {
                emit_call(&mut actions, Action::Seek(offset), COMMAND_DELAY_MS);
                phase
            },
            PlayerCommand::SetPosition(position) => {
                emit(&mut actions, Action::ResolveTrack);
                Phase::Resolving { bus, position }
            },
            PlayerCommand::SwitchSource(target) => {
                emit(&mut actions, Action::Discover);
                Phase::Switching { bus, target }
            },
            PlayerCommand::SetFavorite(name) => {
                preference.set_favorite(name);
                emit(&mut actions, Action::SavePreference(copy_preference(&preference)));
                phase
            },
            PlayerCommand::ClearFavorite => {
                preference.clear_favorite();
                emit(&mut actions, Action::SavePreference(copy_preference(&preference)));
                phase
            },
        };
        assert(action_models(actions@) =~= on_command(self@, bus@, command@).1);
        (MprisClient { preference, phase }, actions)
    }

    /// Takes one event: the client after it, and the actions to perform, in
    /// order.
    pub fn step(self, event: SessionEvent) -> (next: (MprisClient, Vec<Action>))
        ensures
            (next.0@, action_models(next.1@)) == step_model(self@, event@),
    {
        let mut actions: Vec<Action> = Vec::new();
        assert(action_models(actions@) =~= Seq::<ActionModel>::empty());
        let MprisClient { preference, phase } = self;
        match (phase, event) {
            (Phase::Searching { active, after_session }, SessionEvent::Discovered(found)) => {
                match found {
                    Some(sources) => {
                        let selected = select_bus(&preference, &sources);
                        if after_session || selected.is_some() {
                            let told = match &selected {
                                Some(bus) => Some(bus.clone()),
                                None => None,
                            };
                            emit(&mut actions, Action::NotifySources(sources, told));
                        }
                        let phase = enter_phase(selected, &mut actions);
                        assert(action_models(actions@) =~= step_model(self@, event@).1);
                        (MprisClient { preference, phase }, actions)
                    },
                    None => {
                        let phase = enter_phase(active, &mut actions);
                        assert(action_models(actions@) =~= step_model(self@, event@).1);
                        (MprisClient { preference, phase }, actions)
                    },
                }
            },
            (Phase::Connecting { bus }, SessionEvent::Opened(ok)) => {
                if ok {
                    emit(&mut actions, Action::Sleep(SETTLE_DELAY_MS));
                    emit(&mut actions, Action::FetchAndPublish);
                    emit(&mut actions, Action::Sleep(SECOND_FETCH_DELAY_MS));
                    emit(&mut actions, Action::FetchAndPublish);
                    assert(action_models(actions@) =~= step_model(self@, event@).1);
                    (MprisClient { preference, phase: Phase::Bound { bus } }, actions)
                } else {
                    let phase = leave_session(bus, SessionEnd::Failed, &mut actions);
                    assert(action_models(actions@) =~= step_model(self@, event@).1);
                    (MprisClient { preference, phase }, actions)
                }
            },
            (Phase::Bound { bus }, SessionEvent::Signal(_)) => {
                emit(&mut actions, Action::FetchAndPublish);
                assert(action_models(actions@) =~= step_model(self@, event@).1);
                (MprisClient { preference, phase: Phase::Bound { bus } }, actions)
            },
            (Phase::Bound { bus }, SessionEvent::Command(command)) => {
                let client = MprisClient { preference, phase: Phase::Bound { bus: bus.clone() } };
                assert(client@ == self@);
                client.command(bus, command)
            },
            (Phase::Bound { bus }, SessionEvent::IdleTimeout) => {
                emit(&mut actions, Action::Probe);
                assert(action_models(actions@) =~= step_model(self@, event@).1);
                (MprisClient { preference, phase: Phase::Probing { bus } }, actions)
            },
            (Phase::Resolving { bus, position }, SessionEvent::TrackResolved(metadata)) => {
                let track = match &metadata {
                    Some(m) => extract_track_id(m),
                    None => None,
                };
                match track {
                    Some(id) => {
                        if valid_track(&id) {
                            emit_call(
                                &mut actions,
                                Action::SetPosition(id, position),
                                COMMAND_DELAY_MS,
                            );
                        }
                    },
                    None => {},
                }
                assert(action_models(actions@) =~= step_model(self@, event@).1);
                (MprisClient { preference, phase: Phase::Bound { bus } }, actions)
            },
            (Phase::Switching { bus, target }, SessionEvent::Discovered(found)) => {
                let new_bus = match &found {
                    Some(sources) => bus_of_name(sources, target.as_str()),
                    None => None,
                };
                match (new_bus, found) {
                    (Some(new_bus), Some(sources)) => {
                        emit(&mut actions, Action::NotifySources(sources, Some(new_bus.clone())));
                        let phase = leave_session(new_bus, SessionEnd::Switched, &mut actions);
                        assert(action_models(actions@) =~= step_model(self@, event@).1);
                        (MprisClient { preference, phase }, actions)
                    },
                    _ => (MprisClient { preference, phase: Phase::Bound { bus } }, actions),
                }
            },
            (Phase::Probing { bus }, SessionEvent::Probed(alive)) => {
                if alive {
                    (MprisClient { preference, phase: Phase::Bound { bus } }, actions)
                } else {
                    let phase = leave_session(bus, SessionEnd::Disconnected, &mut actions);
                    assert(action_models(actions@) =~= step_model(self@, event@).1);
                    (MprisClient { preference, phase }, actions)
                }
            },
            (phase, _) => (MprisClient { preference, phase }, actions),
        }
    }
}

} // verus!
