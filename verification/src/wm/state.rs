//! The cache of window-manager state: the active window and the workspaces
//! of each monitor, as the last events gave them.

use crate::text::str_eq;
use crate::wm::types::{
    ActiveWindowInfo, ActiveWindowModel, StatusModel, WmEvent, WorkspacesStatus,
};
use vstd::prelude::*;

verus! {

/// The cache of window-manager state.
#[derive(Clone, Debug)]
pub struct WmState {
    /// The window that has the focus.
    pub active_window: ActiveWindowInfo,
    /// The workspaces of the monitors that an event told of.
    pub workspaces: Vec<WorkspacesStatus>,
}

/// The first of the statuses that is about the monitor named `monitor`.
pub open spec fn status_of(statuses: Seq<WorkspacesStatus>, monitor: Seq<char>) -> Option<
    StatusModel,
>
    decreases statuses.len(),
{
    if statuses.len() == 0 {
        None
    } else if statuses[0].monitor_name@ == monitor {
        Some(statuses[0]@)
    } else {
        status_of(statuses.drop_first(), monitor)
    }
}

/// Where the first `i` statuses are not about `monitor`, the answer lies
/// with the rest.
proof fn lemma_status_of_skip(statuses: Seq<WorkspacesStatus>, monitor: Seq<char>, i: int)
    requires
        0 <= i <= statuses.len(),
        forall|j: int| 0 <= j < i ==> (#[trigger] statuses[j]).monitor_name@ != monitor,
    ensures
        status_of(statuses, monitor) == status_of(statuses.skip(i), monitor),
    decreases i,
{
    if i == 0 {
        assert(statuses.skip(0) == statuses);
    } else {
        let rest = statuses.drop_first();
        assert forall|j: int| 0 <= j < i - 1 implies (#[trigger] rest[j]).monitor_name@
            != monitor by {
            assert(rest[j] == statuses[j + 1]);
        }
        lemma_status_of_skip(rest, monitor, i - 1);
        assert(rest.skip(i - 1) == statuses.skip(i));
    }
}

/// Replacing the first status that is about `monitor` changes the answer for
/// that monitor and for no other.
proof fn lemma_status_of_update(
    statuses: Seq<WorkspacesStatus>,
    i: int,
    status: WorkspacesStatus,
    other: Seq<char>,
)
    requires
        0 <= i < statuses.len(),
        statuses[i].monitor_name@ == status.monitor_name@,
        forall|j: int| 0 <= j < i ==> (#[trigger] statuses[j]).monitor_name@ != status.monitor_name@,
    ensures
        status_of(statuses.update(i, status), other) == if other == status.monitor_name@ {
            Some(status@)
        } else {
            status_of(statuses, other)
        },
    decreases i,
{
    let updated = statuses.update(i, status);
    if i == 0 {
        assert(updated.drop_first() == statuses.drop_first());
    } else {
        assert(updated[0] == statuses[0]);
        let rest = statuses.drop_first();
        assert forall|j: int| 0 <= j < i - 1 implies (#[trigger] rest[j]).monitor_name@
            != status.monitor_name@ by {
            assert(rest[j] == statuses[j + 1]);
        }
        lemma_status_of_update(rest, i - 1, status, other);
        assert(updated.drop_first() == rest.update(i - 1, status));
    }
}

/// A status that is appended answers for its monitor if none before it did.
proof fn lemma_status_of_push(
    statuses: Seq<WorkspacesStatus>,
    status: WorkspacesStatus,
    other: Seq<char>,
)
    requires
        forall|j: int|
            0 <= j < statuses.len() ==> (#[trigger] statuses[j]).monitor_name@
                != status.monitor_name@,
    ensures
        status_of(statuses.push(status), other) == if other == status.monitor_name@ {
            Some(status@)
        } else {
            status_of(statuses, other)
        },
    decreases statuses.len(),
{
    let pushed = statuses.push(status);
    if statuses.len() == 0 {
        assert(pushed.drop_first() == Seq::<WorkspacesStatus>::empty());
        assert(status_of(pushed.drop_first(), other) is None);
        assert(status_of(statuses, other) is None);
    } else {
        assert(pushed[0] == statuses[0]);
        assert(statuses[0].monitor_name@ != status.monitor_name@);
        let rest = statuses.drop_first();
        assert forall|j: int| 0 <= j < rest.len() implies (#[trigger] rest[j]).monitor_name@
            != status.monitor_name@ by {
            assert(rest[j] == statuses[j + 1]);
        }
        lemma_status_of_push(rest, status, other);
        assert(pushed.drop_first() == rest.push(status));
    }
}

impl WmState {
    /// The cache before any event: no window, no workspaces.
    pub fn new() -> (state: Self)
        ensures
            state.active_window@ == ActiveWindowModel::none(),
            state.workspaces@.len() == 0,
    {
        WmState { active_window: ActiveWindowInfo::default(), workspaces: Vec::new() }
    }

    /// Takes an event into the cache: the workspaces of a monitor replace
    /// what was known of that monitor, the active window replaces the one
    /// before; the other events leave the cache as it is.
    pub fn apply(&mut self, event: &WmEvent)
        ensures
            match *event {
                WmEvent::WorkspacesChanged(status) => {
                    &&& final(self).active_window == old(self).active_window
                    &&& forall|monitor: Seq<char>|
                        #[trigger] status_of(final(self).workspaces@, monitor) == if monitor
                            == status.monitor_name@ {
                            Some(status@)
                        } else {
                            status_of(old(self).workspaces@, monitor)
                        }
                },
                WmEvent::ActiveWindowChanged(info) => {
                    &&& final(self).active_window@ == info@
                    &&& final(self).workspaces == old(self).workspaces
                },
                _ => *final(self) == *old(self),
            },
    {
        match event {
            WmEvent::WorkspacesChanged(status) => {
                let ghost before = self.workspaces@;
                let mut i: usize = 0;
                while i < self.workspaces.len()
                    invariant
                        i <= self.workspaces.len(),
                        self.workspaces@ == before,
                        before == old(self).workspaces@,
                        *event == WmEvent::WorkspacesChanged(*status),
                        self.active_window == old(self).active_window,
                        forall|j: int|
                            0 <= j < i ==> (#[trigger] before[j]).monitor_name@
                                != status.monitor_name@,
                    decreases self.workspaces.len() - i,
                {
                    if str_eq(self.workspaces[i].monitor_name.as_str(), status.monitor_name.as_str()) {
                        let copy = status.copy();
                        self.workspaces[i] = copy;
                        proof {
                            assert(self.workspaces@ == before.update(i as int, copy));
                            assert(copy@ == status@);
                            assert forall|monitor: Seq<char>| #[trigger]
                                status_of(self.workspaces@, monitor) == if monitor
                                    == status.monitor_name@ {
                                    Some(status@)
                                } else {
                                    status_of(before, monitor)
                                } by {
                                lemma_status_of_update(before, i as int, copy, monitor);
                            }
                        }
                        return ;
                    }
                    i += 1;
                }
                let copy = status.copy();
                self.workspaces.push(copy);
                proof {
                    assert forall|monitor: Seq<char>| #[trigger]
                        status_of(self.workspaces@, monitor) == if monitor
                            == status.monitor_name@ {
                            Some(status@)
                        } else {
                            status_of(before, monitor)
                        } by {
                        lemma_status_of_push(before, copy, monitor);
                    }
                }
            },
            WmEvent::ActiveWindowChanged(info) => {
                self.active_window = info.copy();
            },
            _ => {},
        }
    }
}

/// Takes an event into the cache and hands it back to be passed on to the
/// listener.
pub fn send_event(state: &mut WmState, event: WmEvent) -> (passed_on: WmEvent)
    ensures
        passed_on == event,
        match event {
            WmEvent::WorkspacesChanged(status) => {
                &&& final(state).active_window == old(state).active_window
                &&& forall|monitor: Seq<char>|
                    #[trigger] status_of(final(state).workspaces@, monitor) == if monitor
                        == status.monitor_name@ {
                        Some(status@)
                    } else {
                        status_of(old(state).workspaces@, monitor)
                    }
            },
            WmEvent::ActiveWindowChanged(info) => {
                &&& final(state).active_window@ == info@
                &&& final(state).workspaces == old(state).workspaces
            },
            _ => *final(state) == *old(state),
        },
{
    state.apply(&event);
    event
}

/// The window that has the focus.
pub fn get_active_window(state: &WmState) -> (window: ActiveWindowInfo)
    ensures
        window@ == state.active_window@,
{
    state.active_window.copy()
}

/// The name of the monitor on which the active window has the focus.
pub fn get_active_monitor(state: &WmState) -> (monitor: String)
    ensures
        monitor@ == state.active_window@.focused_monitor,
{
    state.active_window.focused_monitor.clone()
}

/// The workspaces of the monitor named `monitor_name`; of a monitor that no
/// event told of, a status without workspaces.
pub fn get_workspaces_status(state: &WmState, monitor_name: &str) -> (status: WorkspacesStatus)
    ensures
        status@ == match status_of(state.workspaces@, monitor_name@) {
            Some(known) => known,
            None => StatusModel { monitor_name: monitor_name@, workspaces: Seq::empty() },
        },
{
    let mut i: usize = 0;
    while i < state.workspaces.len()
        invariant
            i <= state.workspaces.len(),
            forall|j: int|
                0 <= j < i ==> (#[trigger] state.workspaces@[j]).monitor_name@ != monitor_name@,
        decreases state.workspaces.len() - i,
    {
        if str_eq(state.workspaces[i].monitor_name.as_str(), monitor_name) {
            proof {
                lemma_status_of_skip(state.workspaces@, monitor_name@, i as int);
                assert(state.workspaces@.skip(i as int)[0] == state.workspaces@[i as int]);
            }
            return state.workspaces[i].copy();
        }
        i += 1;
    }
    proof {
        lemma_status_of_skip(state.workspaces@, monitor_name@, i as int);
        assert(state.workspaces@.skip(i as int).len() == 0);
    }
    WorkspacesStatus::empty(monitor_name)
}

} // verus!
