//! What the compositor reports, and what the taskbar takes from it: the
//! workspaces of a monitor, the monitor that has the focus, and the changes
//! of the active window.

use crate::text::{chars_of, first_where, lemma_first_where_unique, str_eq, string_of};
use crate::wm::state::WmState;
use crate::wm::types::{
    clone_path, workspace_models, ActiveWindowInfo, ActiveWindowModel, StatusModel, WmEvent,
    WorkspaceInfo, WorkspaceModel, WorkspaceState, WorkspacesStatus,
};
use std::path::PathBuf;
use vstd::prelude::*;

verus! {

/// Number of workspaces on each monitor.
pub const WORKSPACES_PER_MONITOR: i32 = 10;

/// The most monitors for which every workspace number fits in 32 bits.
pub const MAX_MONITORS: usize = 214748364;

/// One monitor, as the compositor reports it.
#[derive(Clone, Debug)]
pub struct MonitorInfo {
    pub name: String,
    /// Whether the monitor has the focus.
    pub focused: bool,
    /// Number of the workspace that the monitor shows.
    pub active_workspace: i32,
}

/// One workspace, as the compositor reports it.
#[derive(Clone, Copy, Debug)]
pub struct WorkspaceCount {
    pub id: i32,
    /// Number of windows on the workspace.
    pub windows: u16,
}

/// One window, as the compositor reports it, with the icon that was found
/// for its class.
#[derive(Clone, Debug)]
pub struct ClientInfo {
    /// Number of the workspace that the window is on.
    pub workspace: i32,
    /// Class of the application.
    pub class: String,
    pub icon_path: Option<PathBuf>,
}

/// A window named by an event of the compositor.
#[derive(Clone, Debug)]
pub struct WindowEvent {
    pub address: String,
    pub class: String,
    pub title: String,
}

/// The index of the first monitor named `name`, or the number of monitors.
pub open spec fn monitor_index(monitors: Seq<MonitorInfo>, name: Seq<char>) -> int {
    first_where(monitors, |m: MonitorInfo| m.name@ == name)
}

/// The index of the first monitor that has the focus, or the number of
/// monitors.
pub open spec fn focused_index(monitors: Seq<MonitorInfo>) -> int {
    first_where(monitors, |m: MonitorInfo| m.focused)
}

/// The name of the monitor that has the focus; empty where none has.
pub open spec fn focused_monitor_name(monitors: Seq<MonitorInfo>) -> Seq<char> {
    if focused_index(monitors) < monitors.len() {
        monitors[focused_index(monitors)].name@
    } else {
        Seq::empty()
    }
}

/// The first workspace number of a monitor: the monitors take ten numbers
/// each, in their order, from 1; a monitor that is not listed counts as the
/// first.
pub open spec fn first_workspace_id(monitors: Seq<MonitorInfo>, name: Seq<char>) -> int {
    let index = if monitor_index(monitors, name) < monitors.len() {
        monitor_index(monitors, name)
    } else {
        0
    };
    index * 10 + 1
}

/// The state of the workspace numbered `id` on the monitor named `name`:
/// active where the monitor shows it and has the focus, visible where it
/// shows it without the focus, else empty.
pub open spec fn workspace_state(monitors: Seq<MonitorInfo>, name: Seq<char>, id: int)
    -> WorkspaceState {
    let index = monitor_index(monitors, name);
    if index < monitors.len() && monitors[index].active_workspace == id {
        if monitors[index].focused {
            WorkspaceState::Active
        } else {
            WorkspaceState::Visible
        }
    } else {
        WorkspaceState::Empty
    }
}

/// Whether the workspace numbered `id` has a window: what the first report
/// of that number says, and `false` without one.
pub open spec fn is_occupied(workspaces: Seq<WorkspaceCount>, id: int) -> bool {
    let index = first_where(workspaces, |w: WorkspaceCount| w.id == id);
    index < workspaces.len() && workspaces[index].windows > 0
}

/// The `k`-th workspace of the monitor named `name`, counted from 0.
pub open spec fn workspace_model(
    name: Seq<char>,
    monitors: Seq<MonitorInfo>,
    workspaces: Seq<WorkspaceCount>,
    clients: Seq<ClientInfo>,
    k: int,
) -> WorkspaceModel {
    let id = first_workspace_id(monitors, name) + k;
    let client = first_where(clients, |c: ClientInfo| c.workspace == id);
    WorkspaceModel {
        id: k + 1,
        absolute_id: id,
        state: workspace_state(monitors, name, id),
        icon_path: if client < clients.len() {
            clients[client].icon_path
        } else {
            None
        },
        occupied: is_occupied(workspaces, id),
        app_class: if client < clients.len() {
            Some(clients[client].class@)
        } else {
            None
        },
    }
}

/// The status of the monitor named `name`: its ten workspaces.
pub open spec fn status_model(
    name: Seq<char>,
    monitors: Seq<MonitorInfo>,
    workspaces: Seq<WorkspaceCount>,
    clients: Seq<ClientInfo>,
) -> StatusModel {
    StatusModel {
        monitor_name: name,
        workspaces: Seq::new(
            10,
            |k: int| workspace_model(name, monitors, workspaces, clients, k),
        ),
    }
}

/// The index of the first monitor named `name`, or the number of monitors.
fn find_monitor(monitors: &[MonitorInfo], name: &str) -> (index: usize)
    ensures
        index == monitor_index(monitors@, name@),
        index <= monitors.len(),
{
    let ghost p = |m: MonitorInfo| m.name@ == name@;
    let mut i: usize = 0;
    while i < monitors.len()
        invariant
            i <= monitors.len(),
            p == |m: MonitorInfo| m.name@ == name@,
            forall|j: int| 0 <= j < i ==> !p(#[trigger] monitors@[j]),
        decreases monitors.len() - i,
    {
        if str_eq(monitors[i].name.as_str(), name) {
            proof {
                lemma_first_where_unique(monitors@, p, i as int);
            }
            return i;
        }
        i += 1;
    }
    proof {
        lemma_first_where_unique(monitors@, p, i as int);
    }
    i
}

/// The name of the monitor that has the focus; empty where none has.
pub fn get_active_monitor(monitors: &[MonitorInfo]) -> (name: String)
    ensures
        name@ == focused_monitor_name(monitors@),
{
    let ghost p = |m: MonitorInfo| m.focused;
    let mut i: usize = 0;
    while i < monitors.len()
        invariant
            i <= monitors.len(),
            p == |m: MonitorInfo| m.focused,
            forall|j: int| 0 <= j < i ==> !p(#[trigger] monitors@[j]),
        decreases monitors.len() - i,
    {
        if monitors[i].focused {
            proof {
                lemma_first_where_unique(monitors@, p, i as int);
            }
            return monitors[i].name.clone();
        }
        i += 1;
    }
    proof {
        lemma_first_where_unique(monitors@, p, i as int);
    }
    String::new()
}

/// Whether the workspace numbered `id` has a window.
fn has_windows(workspaces: &[WorkspaceCount], id: i32) -> (occupied: bool)
    ensures
        occupied == is_occupied(workspaces@, id as int),
{
    let ghost p = |w: WorkspaceCount| w.id == id as int;
    let mut i: usize = 0;
    while i < workspaces.len()
        invariant
            i <= workspaces.len(),
            p == |w: WorkspaceCount| w.id == id as int,
            forall|j: int| 0 <= j < i ==> !p(#[trigger] workspaces@[j]),
        decreases workspaces.len() - i,
    {
        if workspaces[i].id == id {
            proof {
                lemma_first_where_unique(workspaces@, p, i as int);
            }
            return workspaces[i].windows > 0;
        }
        i += 1;
    }
    proof {
        lemma_first_where_unique(workspaces@, p, i as int);
    }
    false
}

/// The index of the first window on the workspace numbered `id`, or the
/// number of windows.
fn find_client(clients: &[ClientInfo], id: i32) -> (index: usize)
    ensures
        index == first_where(clients@, |c: ClientInfo| c.workspace == id as int),
        index <= clients.len(),
{
    let ghost p = |c: ClientInfo| c.workspace == id as int;
    let mut i: usize = 0;
    while i < clients.len()
        invariant
            i <= clients.len(),
            p == |c: ClientInfo| c.workspace == id as int,
            forall|j: int| 0 <= j < i ==> !p(#[trigger] clients@[j]),
        decreases clients.len() - i,
    {
        if clients[i].workspace == id {
            proof {
                lemma_first_where_unique(clients@, p, i as int);
            }
            return i;
        }
        i += 1;
    }
    proof {
        lemma_first_where_unique(clients@, p, i as int);
    }
    i
}

/// The workspaces of the monitor named `monitor_name`, from what the
/// compositor reports of its monitors, workspaces and windows.
pub fn get_status(
    monitor_name: &str,
    monitors: &[MonitorInfo],
    workspaces: &[WorkspaceCount],
    clients: &[ClientInfo],
) -> (status: WorkspacesStatus)
    requires
        monitors.len() <= MAX_MONITORS,
    ensures
        status@ == status_model(monitor_name@, monitors@, workspaces@, clients@),
{
    let found: usize = find_monitor(monitors, monitor_name);
    let listed = found < monitors.len();
    let index: usize = if listed {
        found
    } else {
        0
    };
    let start: i32 = (index as i32) * WORKSPACES_PER_MONITOR + 1;
    let mut list: Vec<WorkspaceInfo> = Vec::new();
    let mut k: i32 = 0;
    while k < WORKSPACES_PER_MONITOR
        invariant
            0 <= k <= 10,
            list.len() == k,
            start == first_workspace_id(monitors@, monitor_name@),
            0 < start <= 2147483631,
            found == monitor_index(monitors@, monitor_name@),
            listed == (found < monitors.len()),
            forall|j: int|
                0 <= j < k ==> list@[j]@ == workspace_model(
                    monitor_name@,
                    monitors@,
                    workspaces@,
                    clients@,
                    j,
                ),
        decreases 10 - k,
    {
        let id: i32 = start + k;
        let client: usize = find_client(clients, id);
        let (app_class, icon_path) = if client < clients.len() {
            (Some(clients[client].class.clone()), clone_path(&clients[client].icon_path))
        } else {
            (None, None)
        };
        let state = if listed && monitors[found].active_workspace == id {
            if monitors[found].focused {
                WorkspaceState::Active
            } else {
                WorkspaceState::Visible
            }
        } else {
            WorkspaceState::Empty
        };
        list.push(
            WorkspaceInfo {
                id: k + 1,
                absolute_id: id,
                state,
                icon_path,
                occupied: has_windows(workspaces, id),
                app_class,
            },
        );
        k += 1;
    }
    let name = chars_of(monitor_name);
    let status = WorkspacesStatus { monitor_name: string_of(name.as_slice()), workspaces: list };
    assert(workspace_models(status.workspaces@) =~= status_model(
        monitor_name@,
        monitors@,
        workspaces@,
        clients@,
    ).workspaces);
    status
}

/// The active window that the compositor reports at the start, as an event
/// for the cache; none where no window has the focus.
pub fn init(active: Option<WindowEvent>, icon_path: Option<PathBuf>, focused_monitor: String) -> (event:
    Option<WmEvent>)
    ensures
        match active {
            Some(window) => event matches Some(WmEvent::ActiveWindowChanged(info)) && info@ == (
            ActiveWindowModel {
                address: window.address@,
                app: window.class@,
                window_title: window.title@,
                icon_path,
                focused_monitor: focused_monitor@,
            }),
            None => event is None,
        },
{
    match active {
        Some(window) => Some(
            WmEvent::ActiveWindowChanged(
                ActiveWindowInfo {
                    address: window.address,
                    app: window.class,
                    window_title: window.title,
                    icon_path,
                    focused_monitor,
                },
            ),
        ),
        None => None,
    }
}

/// The event that follows when the compositor says which window has the
/// focus now: the new window where its address differs from the cached one,
/// no window where none has the focus and one was cached, and nothing where
/// nothing changed.
pub fn set(
    state: &WmState,
    window: Option<WindowEvent>,
    icon_path: Option<PathBuf>,
    focused_monitor: String,
) -> (event: Option<WmEvent>)
    ensures
        match window {
            Some(w) => if w.address@ != state.active_window@.address {
                event matches Some(WmEvent::ActiveWindowChanged(info)) && info@ == (
                ActiveWindowModel {
                    address: w.address@,
                    app: w.class@,
                    window_title: w.title@,
                    icon_path,
                    focused_monitor: focused_monitor@,
                })
            } else {
                event is None
            },
            None => if state.active_window@.address.len() > 0 {
                event matches Some(WmEvent::ActiveWindowChanged(info)) && info@
                    == ActiveWindowModel::none()
            } else {
                event is None
            },
        },
{
    match window {
        Some(w) => {
            if !str_eq(w.address.as_str(), state.active_window.address.as_str()) {
                Some(
                    WmEvent::ActiveWindowChanged(
                        ActiveWindowInfo {
                            address: w.address,
                            app: w.class,
                            window_title: w.title,
                            icon_path,
                            focused_monitor,
                        },
                    ),
                )
            } else {
                None
            }
        },
        None => {
            let cached = chars_of(state.active_window.address.as_str());
            if cached.len() > 0 {
                Some(WmEvent::ActiveWindowChanged(ActiveWindowInfo::default()))
            } else {
                None
            }
        },
    }
}

/// The event that follows when the window at `address` has a new title: the
/// cached window with that title where it is the one at that address, else
/// nothing.
pub fn update_title(state: &WmState, address: &str, title: String) -> (event: Option<WmEvent>)
    ensures
        if address@ == state.active_window@.address {
            event matches Some(WmEvent::ActiveWindowChanged(info)) && info@ == (ActiveWindowModel {
                window_title: title@,
                ..state.active_window@
            })
        } else {
            event is None
        },
{
    if !str_eq(address, state.active_window.address.as_str()) {
        return None;
    }
    let mut info = state.active_window.copy();
    info.window_title = title;
    Some(WmEvent::ActiveWindowChanged(info))
}

} // verus!
