//! Laws of the media-player client, proved over its mathematical models.

use crate::mpris::metadata::{meta_track_id, ValueModel};
use crate::mpris::ranking::{is_preferred, is_ranking, lemma_preferred_comes_first};
use crate::mpris::sources::{lemma_selection_rule, selected_index, SourceModel};
use crate::mpris::session::{
    run_model, seek_target, step_model, ActionModel, ClientModel, EventModel, PhaseModel,
    SessionEnd, RECONNECT_DELAY_MS,
};
use crate::mpris::types::{CommandModel, PlaybackStatus, SnapshotModel};
use vstd::prelude::*;

verus! {

/// Without a favorite the preferred player is selected wherever it is among
/// the sources that were ranked.
pub proof fn lemma_preferred_is_selected_without_favorite(
    input: Seq<SourceModel>,
    output: Seq<SourceModel>,
    origin: Seq<int>,
    j: int,
)
    requires
        is_ranking(input, output, origin),
        0 <= j < input.len(),
        is_preferred(input[j].short_name),
    ensures
        selected_index(None, output) == Some(0int),
        is_preferred(output[0].short_name),
{
    lemma_preferred_comes_first(input, output, origin, j);
}

/// A favorite that is among the sources is selected, wherever the ranking
/// has put it; one that is not leaves the choice to the ranking.
pub proof fn lemma_favorite_overrides_ranking(favorite: Seq<char>, sources: Seq<SourceModel>)
    requires
        sources.len() > 0,
    ensures
        selected_index(Some(favorite), sources) is Some,
        ({
            let k = selected_index(Some(favorite), sources)->0;
            &&& 0 <= k < sources.len()
            &&& (exists|i: int| 0 <= i < sources.len() && #[trigger] sources[i].short_name == favorite)
                ==> sources[k].short_name == favorite
            &&& !(exists|i: int| 0 <= i < sources.len() && #[trigger] sources[i].short_name == favorite)
                ==> k == 0
        }),
{
    lemma_selection_rule(Some(favorite), sources);
}

/// A snapshot that is not playing stands at its fetched position, whatever
/// the time.
pub proof fn lemma_resting_position_is_exact(snapshot: SnapshotModel, now_ms: int)
    requires
        snapshot.status != PlaybackStatus::Playing,
    ensures
        snapshot.position_at(now_ms) == snapshot.position_us,
{
}

/// The position of a playing snapshot never goes back as time advances.
pub proof fn lemma_playing_position_is_monotone(
    snapshot: SnapshotModel,
    earlier_ms: int,
    later_ms: int,
)
    requires
        snapshot.status == PlaybackStatus::Playing,
        earlier_ms <= later_ms,
    ensures
        snapshot.position_at(earlier_ms) <= snapshot.position_at(later_ms),
{
}

/// The position of a playing snapshot is never below zero and, for a track
/// whose length is not negative, never beyond the length.
pub proof fn lemma_playing_position_is_bounded(snapshot: SnapshotModel, now_ms: int)
    requires
        snapshot.status == PlaybackStatus::Playing,
        snapshot.length_us >= 0,
    ensures
        0 <= snapshot.position_at(now_ms) <= snapshot.length_us,
{
}

/// An event that the phase does not wait for changes nothing and asks for
/// nothing. Outside a session only the end of a discovery pass counts.
pub proof fn lemma_searching_ignores_session_events(client: ClientModel, event: EventModel)
    requires
        client.phase is Searching,
        !(event is Discovered),
    ensures
        step_model(client, event) == (client, Seq::<ActionModel>::empty()),
{
}

/// Of the actions of one step only the last can be one with a result, and it
/// is one exactly if the client is then not waiting in the bound phase.
pub proof fn lemma_result_comes_last(client: ClientModel, event: EventModel)
    ensures
        ({
            let next = step_model(client, event);
            &&& forall|i: int| 0 <= i < next.1.len() - 1 ==> !(#[trigger] next.1[i]).is_query()
            &&& next.1.len() > 0 ==> (next.1.last().is_query() <==> !(next.0.phase is Bound))
        }),
{
}

/// The preference changes only when a bound client is told to set or to
/// clear the favorite.
pub proof fn lemma_preference_changes_by_command(client: ClientModel, event: EventModel)
    requires
        step_model(client, event).0.preference != client.preference,
    ensures
        client.phase is Bound,
        event matches EventModel::Command(command) && (command is SetFavorite
            || command is ClearFavorite),
{
}

/// A control method of the player is called only for a playback command to
/// a bound client, or for an absolute seek once a usable track identifier
/// was found.
pub proof fn lemma_control_calls_have_a_cause(client: ClientModel, event: EventModel, i: int)
    requires
        0 <= i < step_model(client, event).1.len(),
        step_model(client, event).1[i].is_control_call(),
    ensures
        i == 0,
        match event {
            EventModel::Command(command) => client.phase is Bound && (command is PlayPause
                || command is Next || command is Previous || command is Seek),
            EventModel::TrackResolved(metadata) => client.phase is Resolving && seek_target(
                metadata,
            ) is Some,
            _ => false,
        },
{
}

/// A session is closed exactly when the client leaves it: as the first
/// action of a step that leads from connecting, probing or switching into
/// the search for a source, and after the listeners were told of a switch.
pub proof fn lemma_close_marks_the_end_of_a_session(client: ClientModel, event: EventModel)
    ensures
        ({
            let next = step_model(client, event);
            let leaves = !(client.phase is Searching) && next.0.phase is Searching;
            &&& leaves <==> exists|i: int| 0 <= i < next.1.len() && #[trigger] next.1[i] is Close
            &&& forall|i: int, j: int|
                0 <= i < j < next.1.len() ==> !(#[trigger] next.1[i] is Close
                    && #[trigger] next.1[j] is Close)
            &&& !client.phase.in_session() && !(client.phase is Connecting) ==> !leaves
        }),
{
    let next = step_model(client, event);
    let leaves = !(client.phase is Searching) && next.0.phase is Searching;
    if leaves {
        if client.phase is Switching {
            assert(next.1[1] is Close);
        } else {
            assert(next.1[0] is Close);
        }
    }
}

/// Any change signal makes a bound client fetch and publish once, and does
/// nothing else.
pub proof fn lemma_signal_triggers_one_refetch(client: ClientModel, event: EventModel)
    requires
        client.phase is Bound,
        event is Signal,
    ensures
        step_model(client, event) == (client, seq![ActionModel::FetchAndPublish]),
{
}

/// An absolute seek for which no usable track identifier is found is
/// dropped: the metadata is fetched, no control method is called, and the
/// client is bound as before. The identifier is not usable where the fetch
/// failed, where the metadata has none, or where it is no object path.
pub proof fn lemma_seek_without_track_is_dropped(
    client: ClientModel,
    position: int,
    metadata: Option<Map<Seq<char>, ValueModel>>,
)
    requires
        client.phase is Bound,
        seek_target(metadata) is None,
    ensures
        run_model(
            client,
            seq![
                EventModel::Command(CommandModel::SetPosition(position)),
                EventModel::TrackResolved(metadata),
            ],
        ) == (client, seq![ActionModel::ResolveTrack]),
{
    let first = EventModel::Command(CommandModel::SetPosition(position));
    let events = seq![first, EventModel::TrackResolved(metadata)];
    reveal_with_fuel(run_model, 3);
    assert(events.drop_last() == seq![first]);
    assert(events.drop_last().drop_last() == Seq::<EventModel>::empty());
    let a = run_model(client, events.drop_last());
    assert(a.1 =~= seq![ActionModel::ResolveTrack]);
    assert(run_model(client, events).1 =~= seq![ActionModel::ResolveTrack]);
}

/// Metadata without a track identifier gives no seek target.
pub proof fn lemma_no_track_id_no_target(metadata: Map<Seq<char>, ValueModel>)
    requires
        meta_track_id(metadata) is None,
    ensures
        seek_target(Some(metadata)) is None,
{
}

/// `n` idle cycles in a row in each of which the liveness probe is asked for
/// and fails.
pub open spec fn failed_idle_cycles(n: nat) -> Seq<EventModel>
    decreases n,
{
    if n == 0 {
        Seq::empty()
    } else {
        failed_idle_cycles((n - 1) as nat).push(EventModel::IdleTimeout).push(
            EventModel::Probed(false),
        )
    }
}

/// However many idle cycles fail in a row, the session ends once: the first
/// cycle probes, closes the session and starts one discovery pass, and the
/// later cycles change nothing and ask for nothing.
pub proof fn lemma_failed_probes_end_session_once(client: ClientModel, bus: Seq<char>, n: nat)
    requires
        client.phase == (PhaseModel::Bound { bus }),
        n >= 1,
    ensures
        run_model(client, failed_idle_cycles(n)) == (
            ClientModel {
                phase: PhaseModel::Searching { active: Some(bus), after_session: true },
                ..client
            },
            seq![
                ActionModel::Probe,
                ActionModel::Close(SessionEnd::Disconnected),
                ActionModel::Sleep(RECONNECT_DELAY_MS as int),
                ActionModel::Discover,
            ],
        ),
    decreases n,
{
    let events = failed_idle_cycles(n);
    let shorter = failed_idle_cycles((n - 1) as nat);
    let middle = shorter.push(EventModel::IdleTimeout);
    assert(events.drop_last() == middle);
    assert(middle.drop_last() == shorter);
    let expected = seq![
        ActionModel::Probe,
        ActionModel::Close(SessionEnd::Disconnected),
        ActionModel::Sleep(RECONNECT_DELAY_MS as int),
        ActionModel::Discover,
    ];
    if n == 1 {
        assert(shorter == Seq::<EventModel>::empty());
        let a = run_model(client, shorter);
        assert(a == (client, Seq::<ActionModel>::empty()));
        let b = run_model(client, middle);
        assert(b.1 =~= seq![ActionModel::Probe]);
        assert(run_model(client, events).1 =~= expected);
    } else {
        lemma_failed_probes_end_session_once(client, bus, (n - 1) as nat);
        let a = run_model(client, shorter);
        let b = run_model(client, middle);
        assert(b.1 =~= expected);
        assert(run_model(client, events).1 =~= expected);
    }
}

} // verus!
