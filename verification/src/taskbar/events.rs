//! The events that the collectors send to the taskbar, and the channel that
//! carries them.

use crate::services::battery::BatteryStatus;
use crate::services::bluetooth::BluetoothStatus;
use crate::services::network::NetworkStatus;
use crate::services::volume::VolumeStatus;
use crate::taskbar::media::MediaUpdate;
use crate::wm::types::{ActiveWindowInfo, WorkspacesStatus};
use crossbeam_channel::{Receiver, Sender};
use vstd::prelude::*;

verus! {

/// Capacity of the channel: room for a burst of events.
pub const CHANNEL_CAPACITY: usize = 64;

/// Number of kinds of events.
pub const EVENT_KINDS: usize = 7;

/// `crossbeam_channel::Sender`: the sending half of a channel.
#[verifier::external_type_specification]
#[verifier::external_body]
#[verifier::reject_recursive_types(T)]
pub struct ExSender<T>(Sender<T>);

/// `crossbeam_channel::Receiver`: the receiving half of a channel.
#[verifier::external_type_specification]
#[verifier::external_body]
#[verifier::reject_recursive_types(T)]
pub struct ExReceiver<T>(Receiver<T>);

/// An event from one of the collectors.
#[derive(Clone, Debug)]
pub enum TaskbarEvent {
    Battery(BatteryStatus),
    Volume(VolumeStatus),
    Network(NetworkStatus),
    Bluetooth(BluetoothStatus),
    Workspaces(WorkspacesStatus),
    Mpris(MediaUpdate),
    ActiveWindow(ActiveWindowInfo),
}

/// The number of an event's kind.
pub open spec fn kind_of(event: TaskbarEvent) -> int {
    match event {
        TaskbarEvent::Battery(_) => 0,
        TaskbarEvent::Volume(_) => 1,
        TaskbarEvent::Network(_) => 2,
        TaskbarEvent::Bluetooth(_) => 3,
        TaskbarEvent::Workspaces(_) => 4,
        TaskbarEvent::Mpris(_) => 5,
        TaskbarEvent::ActiveWindow(_) => 6,
    }
}

impl TaskbarEvent {
    /// The number of the event's kind, by which events are told apart when
    /// only the latest of each kind is kept.
    pub fn variant_index(&self) -> (index: usize)
        ensures
            index == kind_of(*self),
            index < EVENT_KINDS,
    {
        match self {
            TaskbarEvent::Battery(_) => 0,
            TaskbarEvent::Volume(_) => 1,
            TaskbarEvent::Network(_) => 2,
            TaskbarEvent::Bluetooth(_) => 3,
            TaskbarEvent::Workspaces(_) => 4,
            TaskbarEvent::Mpris(_) => 5,
            TaskbarEvent::ActiveWindow(_) => 6,
        }
    }
}

/// Whether no event after the one at `i` is of its kind.
pub open spec fn is_latest(events: Seq<TaskbarEvent>, i: int) -> bool {
    forall|j: int| i < j < events.len() ==> kind_of(#[trigger] events[j]) != kind_of(events[i])
}

/// The events that are the latest of their kind, in their order.
pub open spec fn latest_of_each(events: Seq<TaskbarEvent>) -> Seq<TaskbarEvent>
    decreases events.len(),
{
    if events.len() == 0 {
        Seq::empty()
    } else if is_latest(events, 0) {
        seq![events[0]] + latest_of_each(events.drop_first())
    } else {
        latest_of_each(events.drop_first())
    }
}

/// Every event that is kept is one of the events.
pub proof fn lemma_latest_are_events(events: Seq<TaskbarEvent>)
    ensures
        forall|i: int|
            0 <= i < latest_of_each(events).len() ==> events.contains(
                #[trigger] latest_of_each(events)[i],
            ),
    decreases events.len(),
{
    if events.len() > 0 {
        let rest = events.drop_first();
        lemma_latest_are_events(rest);
        let kept = latest_of_each(events);
        assert forall|i: int| 0 <= i < kept.len() implies events.contains(#[trigger] kept[i]) by {
            if is_latest(events, 0) && i == 0 {
                assert(events[0] == kept[0]);
            } else {
                let k = if is_latest(events, 0) {
                    i - 1
                } else {
                    i
                };
                assert(kept[i] == latest_of_each(rest)[k]);
                let j = choose|j: int| 0 <= j < rest.len() && rest[j] == latest_of_each(rest)[k];
                assert(events[j + 1] == kept[i]);
            }
        }
    }
}

/// No two of the events that are kept are of one kind.
pub proof fn lemma_latest_are_distinct(events: Seq<TaskbarEvent>)
    ensures
        forall|i: int, j: int|
            0 <= i < j < latest_of_each(events).len() ==> kind_of(
                #[trigger] latest_of_each(events)[i],
            ) != kind_of(#[trigger] latest_of_each(events)[j]),
    decreases events.len(),
{
    if events.len() > 0 {
        let rest = events.drop_first();
        lemma_latest_are_distinct(rest);
        lemma_latest_are_events(rest);
        let kept = latest_of_each(events);
        assert forall|i: int, j: int| 0 <= i < j < kept.len() implies kind_of(#[trigger] kept[i])
            != kind_of(#[trigger] kept[j]) by {
            if is_latest(events, 0) {
                if i == 0 {
                    let later = latest_of_each(rest)[j - 1];
                    assert(kept[j] == later);
                    let k = choose|k: int| 0 <= k < rest.len() && rest[k] == later;
                    assert(events[k + 1] == later);
                } else {
                    assert(kept[i] == latest_of_each(rest)[i - 1]);
                    assert(kept[j] == latest_of_each(rest)[j - 1]);
                }
            }
        }
    }
}

/// Keeps of a burst of events only the latest of each kind, in the order in
/// which they came.
pub fn dedup_latest(events: Vec<TaskbarEvent>) -> (kept: Vec<TaskbarEvent>)
    ensures
        kept@ == latest_of_each(events@),
{
    let ghost all = events@;
    let mut rest = events;
    let mut seen: Vec<bool> = vec![false; 7];
    let mut picked: Vec<TaskbarEvent> = Vec::new();
    assert(all.skip(all.len() as int) == Seq::<TaskbarEvent>::empty());
    while rest.len() > 0
        invariant
            rest.len() <= all.len(),
            rest@ == all.take(rest.len() as int),
            seen.len() == 7,
            forall|kind: int|
                0 <= kind < 7 ==> (#[trigger] seen@[kind] <==> exists|j: int|
                    rest.len() <= j < all.len() && kind_of(#[trigger] all[j]) == kind),
            picked@.reverse() == latest_of_each(all.skip(rest.len() as int)),
        decreases rest.len(),
    {
        let ghost before = picked@;
        let event = rest.pop().unwrap();
        let ghost k = rest.len() as int;
        let kind: usize = event.variant_index();
        proof {
            assert(event == all[k]);
            let tail = all.skip(k);
            assert(tail.drop_first() == all.skip(k + 1));
            assert(tail[0] == event);
            if seen@[kind as int] {
                let j = choose|j: int| k + 1 <= j < all.len() && kind_of(#[trigger] all[j]) == kind;
                assert(tail[j - k] == all[j]);
                assert(!is_latest(tail, 0));
            } else {
                assert forall|j: int| 0 < j < tail.len() implies kind_of(#[trigger] tail[j])
                    != kind_of(tail[0]) by {
                    assert(tail[j] == all[k + j]);
                }
                assert(is_latest(tail, 0));
            }
        }
        if !seen[kind] {
            seen[kind] = true;
            picked.push(event);
            proof {
                assert(picked@.reverse() =~= seq![event] + before.reverse());
            }
        }
        proof {
            assert forall|other: int| 0 <= other < 7 implies (#[trigger] seen@[other] <==> exists|
                j: int,
            |
                k <= j < all.len() && kind_of(#[trigger] all[j]) == other) by {
                if other == kind {
                    assert(kind_of(all[k]) == other);
                } else {
                    if exists|j: int| k <= j < all.len() && kind_of(#[trigger] all[j]) == other {
                        let j = choose|j: int|
                            k <= j < all.len() && kind_of(#[trigger] all[j]) == other;
                        assert(j != k);
                        assert(k + 1 <= j < all.len() && kind_of(all[j]) == other);
                    }
                }
            }
        }
    }
    assert(all.skip(0) == all);
    let mut kept: Vec<TaskbarEvent> = Vec::new();
    let ghost chosen = picked@;
    while picked.len() > 0
        invariant
            picked.len() <= chosen.len(),
            picked@ == chosen.take(picked.len() as int),
            kept@ == chosen.skip(picked.len() as int).reverse(),
        decreases picked.len(),
    {
        let ghost n = picked.len() as int;
        let event = picked.pop().unwrap();
        kept.push(event);
        proof {
            assert(event == chosen[n - 1]);
            assert(chosen.skip(n - 1).reverse() =~= chosen.skip(n).reverse().push(chosen[n - 1]));
        }
    }
    assert(chosen.skip(0) == chosen);
    kept
}

/// `Receiver::try_recv` of crossbeam-channel: takes a message from the
/// channel without blocking, or nothing where the channel is empty or
/// disconnected. Nothing is claimed of the message: other threads fill the
/// channel.
#[verifier::external_body]
fn try_recv_event(rx: &Receiver<TaskbarEvent>) -> (event: Option<TaskbarEvent>) {
    rx.try_recv().ok()
}

/// `Sender::try_send` of crossbeam-channel: puts a message into the channel
/// without blocking; `false` where the channel is full or disconnected, and
/// the message is dropped.
#[verifier::external_body]
fn try_send_event(tx: &Sender<TaskbarEvent>, event: TaskbarEvent) -> (sent: bool) {
    tx.try_send(event).is_ok()
}

/// Sends an event to the taskbar without blocking. An event that finds the
/// channel full is dropped: a later one will carry newer data.
pub fn send(tx: &Sender<TaskbarEvent>, event: TaskbarEvent) {
    let _ = try_send_event(tx, event);
}

/// Sends a battery status to the taskbar.
pub fn send_battery(tx: &Sender<TaskbarEvent>, data: BatteryStatus) {
    send(tx, TaskbarEvent::Battery(data));
}

/// Takes all events that wait in the channel and keeps the latest of each
/// kind, in the order in which they came. What waits there is for the
/// senders to say: of every outcome it holds that the result is what
/// `dedup_latest` keeps of the events that were taken out.
pub fn drain_latest(rx: &Receiver<TaskbarEvent>) -> (kept: Vec<TaskbarEvent>)
    ensures
        exists|taken: Seq<TaskbarEvent>| kept@ == #[trigger] latest_of_each(taken),
        kept.len() <= EVENT_KINDS,
        forall|i: int, j: int|
            0 <= i < j < kept.len() ==> kind_of(#[trigger] kept@[i]) != kind_of(
                #[trigger] kept@[j],
            ),
{
    let mut events: Vec<TaskbarEvent> = Vec::new();
    while events.len() < usize::MAX
        invariant
            true,
        decreases usize::MAX - events.len(),
    {
        match try_recv_event(rx) {
            Some(event) => {
                events.push(event);
            },
            None => {
                break ;
            },
        }
    }
    let ghost taken = events@;
    let kept = dedup_latest(events);
    proof {
        assert(kept@ == latest_of_each(taken));
        lemma_latest_are_distinct(taken);
        lemma_distinct_kinds_are_few(kept@);
    }
    kept
}

/// Events of which no two are of one kind are no more than there are kinds.
pub proof fn lemma_distinct_kinds_are_few(events: Seq<TaskbarEvent>)
    requires
        forall|i: int, j: int|
            0 <= i < j < events.len() ==> kind_of(#[trigger] events[i]) != kind_of(
                #[trigger] events[j],
            ),
    ensures
        events.len() <= EVENT_KINDS,
{
    if events.len() > 7 {
        let kinds = Seq::new(8, |i: int| kind_of(events[i]));
        let k0 = kind_of(events[0]);
        let k1 = kind_of(events[1]);
        let k2 = kind_of(events[2]);
        let k3 = kind_of(events[3]);
        let k4 = kind_of(events[4]);
        let k5 = kind_of(events[5]);
        let k6 = kind_of(events[6]);
        let k7 = kind_of(events[7]);
        assert(0 <= k0 < 7 && 0 <= k1 < 7 && 0 <= k2 < 7 && 0 <= k3 < 7 && 0 <= k4 < 7 && 0 <= k5
            < 7 && 0 <= k6 < 7 && 0 <= k7 < 7);
    }
}

} // verus!
