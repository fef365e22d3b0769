//! The workspace buttons of the taskbar.

use crate::taskbar::view::{TaskbarView, WorkspaceData};
use crate::text::str_eq;
use crate::wm::types::{clone_path, WorkspaceInfo, WorkspacesStatus};
use vstd::prelude::*;

verus! {

/// Whether a button shows a workspace: its numbers, state and icon.
pub open spec fn shows(button: WorkspaceData, workspace: WorkspaceInfo) -> bool {
    &&& button.id == workspace.id
    &&& button.absolute_id == workspace.absolute_id
    &&& button.state == workspace.state
    &&& button.icon == workspace.icon_path
}

/// Whether the buttons show the workspaces, one each, in order.
pub open spec fn show_all(buttons: Seq<WorkspaceData>, workspaces: Seq<WorkspaceInfo>) -> bool {
    &&& buttons.len() == workspaces.len()
    &&& forall|i: int| 0 <= i < buttons.len() ==> shows(#[trigger] buttons[i], workspaces[i])
}

/// The button of a workspace.
pub fn workspace_to_button(workspace: &WorkspaceInfo) -> (button: WorkspaceData)
    ensures
        shows(button, *workspace),
{
    WorkspaceData {
        id: workspace.id,
        absolute_id: workspace.absolute_id,
        state: workspace.state,
        icon: clone_path(&workspace.icon_path),
    }
}

/// Shows the workspaces of a monitor on the taskbar of the monitor named
/// `monitor_name`. A status of another monitor changes nothing.
pub fn update_ui(ui: &mut TaskbarView, status: &WorkspacesStatus, monitor_name: &str)
    ensures
        status.monitor_name@ != monitor_name@ ==> *final(ui) == *old(ui),
        status.monitor_name@ == monitor_name@ ==> show_all(
            final(ui).workspaces@,
            status.workspaces@,
        ),
        final(ui).volume == old(ui).volume,
        final(ui).bluetooth_state == old(ui).bluetooth_state,
        final(ui).network_state == old(ui).network_state,
        final(ui).battery_state == old(ui).battery_state,
        final(ui).active_window == old(ui).active_window,
{
    if !str_eq(status.monitor_name.as_str(), monitor_name) {
        return ;
    }
    let mut buttons: Vec<WorkspaceData> = Vec::new();
    let mut i: usize = 0;
    while i < status.workspaces.len()
        invariant
            i <= status.workspaces.len(),
            buttons.len() == i,
            forall|j: int| 0 <= j < i ==> shows(#[trigger] buttons@[j], status.workspaces@[j]),
        decreases status.workspaces.len() - i,
    {
        buttons.push(workspace_to_button(&status.workspaces[i]));
        i += 1;
    }
    ui.workspaces = buttons;
}

} // verus!
