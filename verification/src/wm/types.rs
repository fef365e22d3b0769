//! Core types of the window-manager abstraction.

use crate::text::{chars_of, opt_text, string_of};
use std::path::PathBuf;
use vstd::prelude::*;

verus! {

/// `std::path::PathBuf`: an owned file-system path. The library only carries
/// such values through; nothing is known of what they hold.
#[verifier::external_type_specification]
#[verifier::external_body]
pub struct ExPathBuf(PathBuf);

/// `Clone::clone` of the standard library on a path: the copy is the same
/// path.
pub assume_specification[ <PathBuf as Clone>::clone ](path: &PathBuf) -> (copy: PathBuf)
    ensures
        copy == *path,
;

/// A copy of an optional path.
pub fn clone_path(path: &Option<PathBuf>) -> (copy: Option<PathBuf>)
    ensures
        copy == *path,
{
    match path {
        Some(p) => Some(p.clone()),
        None => None,
    }
}

/// The window manager that was detected.
#[derive(Clone, Copy, Debug, PartialEq, Eq, Structural)]
pub enum WmType {
    Hyprland,
    Sway,
    Niri,
    Unknown,
}

impl WmType {
    /// The name of the window manager, as it is written.
    pub open spec fn name_text(self) -> Seq<char> {
        match self {
            WmType::Hyprland => "Hyprland"@,
            WmType::Sway => "Sway"@,
            WmType::Niri => "Niri"@,
            WmType::Unknown => "Unknown"@,
        }
    }

    /// The name of the window manager.
    pub fn name(&self) -> (text: String)
        ensures
            text@ == self.name_text(),
    {
        let chars = match self {
            WmType::Hyprland => chars_of("Hyprland"),
            WmType::Sway => chars_of("Sway"),
            WmType::Niri => chars_of("Niri"),
            WmType::Unknown => chars_of("Unknown"),
        };
        string_of(chars.as_slice())
    }
}

/// State of a workspace in the taskbar.
#[derive(Clone, Copy, Debug, PartialEq, Eq, Structural)]
pub enum WorkspaceState {
    Empty,
    /// Shown on its monitor, which does not have the focus.
    Visible,
    /// Shown on the monitor that has the focus.
    Active,
    Attention,
}

impl Default for WorkspaceState {
    fn default() -> (state: Self)
        ensures
            state == WorkspaceState::Empty,
    {
        WorkspaceState::Empty
    }
}

/// One workspace.
#[derive(Clone, Debug)]
pub struct WorkspaceInfo {
    /// Number of the workspace on its monitor, from 1, for display.
    pub id: i32,
    /// Number of the workspace in the window manager.
    pub absolute_id: i32,
    pub state: WorkspaceState,
    /// Path of the icon of the first application on the workspace.
    pub icon_path: Option<PathBuf>,
    /// Whether the workspace has any window.
    pub occupied: bool,
    /// Class of the first application on the workspace.
    pub app_class: Option<String>,
}

impl Default for WorkspaceInfo {
    fn default() -> (info: Self)
        ensures
            info.id == 0,
            info.absolute_id == 0,
            info.state == WorkspaceState::Empty,
            info.icon_path is None,
            !info.occupied,
            info.app_class is None,
    {
        WorkspaceInfo {
            id: 0,
            absolute_id: 0,
            state: WorkspaceState::Empty,
            icon_path: None,
            occupied: false,
            app_class: None,
        }
    }
}

/// Mathematical model of a `WorkspaceInfo`.
pub ghost struct WorkspaceModel {
    pub id: int,
    pub absolute_id: int,
    pub state: WorkspaceState,
    pub icon_path: Option<PathBuf>,
    pub occupied: bool,
    pub app_class: Option<Seq<char>>,
}

impl View for WorkspaceInfo {
    type V = WorkspaceModel;

    open spec fn view(&self) -> WorkspaceModel {
        WorkspaceModel {
            id: self.id as int,
            absolute_id: self.absolute_id as int,
            state: self.state,
            icon_path: self.icon_path,
            occupied: self.occupied,
            app_class: opt_text(self.app_class),
        }
    }
}

impl WorkspaceInfo {
    /// A copy of the workspace's data.
    pub fn copy(&self) -> (copy: Self)
        ensures
            copy@ == self@,
    {
        WorkspaceInfo {
            id: self.id,
            absolute_id: self.absolute_id,
            state: self.state,
            icon_path: clone_path(&self.icon_path),
            occupied: self.occupied,
            app_class: match &self.app_class {
                Some(class) => Some(class.clone()),
                None => None,
            },
        }
    }
}

/// The models of a sequence of workspaces.
pub open spec fn workspace_models(workspaces: Seq<WorkspaceInfo>) -> Seq<WorkspaceModel> {
    workspaces.map_values(|w: WorkspaceInfo| w@)
}

/// Mathematical model of a `WorkspacesStatus`.
pub ghost struct StatusModel {
    pub monitor_name: Seq<char>,
    pub workspaces: Seq<WorkspaceModel>,
}

impl View for WorkspacesStatus {
    type V = StatusModel;

    open spec fn view(&self) -> StatusModel {
        StatusModel {
            monitor_name: self.monitor_name@,
            workspaces: workspace_models(self.workspaces@),
        }
    }
}

impl WorkspacesStatus {
    /// A copy of the status.
    pub fn copy(&self) -> (copy: Self)
        ensures
            copy@ == self@,
    {
        let mut workspaces: Vec<WorkspaceInfo> = Vec::new();
        let mut i: usize = 0;
        while i < self.workspaces.len()
            invariant
                i <= self.workspaces.len(),
                workspaces.len() == i,
                forall|j: int| 0 <= j < i ==> workspaces@[j]@ == self.workspaces@[j]@,
            decreases self.workspaces.len() - i,
        {
            workspaces.push(self.workspaces[i].copy());
            i += 1;
        }
        assert(workspace_models(workspaces@) =~= workspace_models(self.workspaces@));
        WorkspacesStatus { monitor_name: self.monitor_name.clone(), workspaces }
    }

    /// The status of a monitor of which nothing is known: no workspaces.
    pub fn empty(monitor_name: &str) -> (status: Self)
        ensures
            status@ == (StatusModel { monitor_name: monitor_name@, workspaces: Seq::empty() }),
    {
        let chars = chars_of(monitor_name);
        let status = WorkspacesStatus {
            monitor_name: string_of(chars.as_slice()),
            workspaces: Vec::new(),
        };
        assert(workspace_models(status.workspaces@) =~= Seq::<WorkspaceModel>::empty());
        status
    }
}

/// The workspaces of one monitor.
#[derive(Clone, Debug)]
pub struct WorkspacesStatus {
    pub monitor_name: String,
    pub workspaces: Vec<WorkspaceInfo>,
}

impl Default for WorkspacesStatus {
    fn default() -> (status: Self)
        ensures
            status@ == (StatusModel { monitor_name: Seq::empty(), workspaces: Seq::empty() }),
    {
        let status = WorkspacesStatus { monitor_name: String::new(), workspaces: Vec::new() };
        assert(workspace_models(status.workspaces@) =~= Seq::<WorkspaceModel>::empty());
        status
    }
}

/// One window.
#[derive(Clone, Debug)]
pub struct WindowInfo {
    pub id: String,
    /// Class of the application.
    pub class: String,
    pub title: String,
    /// Class that the window had when it was created.
    pub initial_class: String,
    /// Workspace that the window is on.
    pub workspace: String,
    pub is_active: bool,
    pub icon_path: Option<PathBuf>,
}

impl Default for WindowInfo {
    fn default() -> (info: Self)
        ensures
            info.id@.len() == 0,
            info.class@.len() == 0,
            info.title@.len() == 0,
            info.initial_class@.len() == 0,
            info.workspace@.len() == 0,
            !info.is_active,
            info.icon_path is None,
    {
        WindowInfo {
            id: String::new(),
            class: String::new(),
            title: String::new(),
            initial_class: String::new(),
            workspace: String::new(),
            is_active: false,
            icon_path: None,
        }
    }
}

/// The window that has the focus.
#[derive(Clone, Debug)]
pub struct ActiveWindowInfo {
    /// Address of the window; empty where no window has the focus.
    pub address: String,
    /// Name of the application.
    pub app: String,
    pub window_title: String,
    pub icon_path: Option<PathBuf>,
    /// Name of the monitor on which the window has the focus.
    pub focused_monitor: String,
}

/// Mathematical model of an `ActiveWindowInfo`.
pub ghost struct ActiveWindowModel {
    pub address: Seq<char>,
    pub app: Seq<char>,
    pub window_title: Seq<char>,
    pub icon_path: Option<PathBuf>,
    pub focused_monitor: Seq<char>,
}

impl ActiveWindowModel {
    /// The model of no window.
    pub open spec fn none() -> ActiveWindowModel {
        ActiveWindowModel {
            address: Seq::empty(),
            app: Seq::empty(),
            window_title: Seq::empty(),
            icon_path: None,
            focused_monitor: Seq::empty(),
        }
    }
}

impl View for ActiveWindowInfo {
    type V = ActiveWindowModel;

    open spec fn view(&self) -> ActiveWindowModel {
        ActiveWindowModel {
            address: self.address@,
            app: self.app@,
            window_title: self.window_title@,
            icon_path: self.icon_path,
            focused_monitor: self.focused_monitor@,
        }
    }
}

impl Default for ActiveWindowInfo {
    fn default() -> (info: Self)
        ensures
            info@ == ActiveWindowModel::none(),
    {
        ActiveWindowInfo {
            address: String::new(),
            app: String::new(),
            window_title: String::new(),
            icon_path: None,
            focused_monitor: String::new(),
        }
    }
}

impl ActiveWindowInfo {
    /// A copy of the window's data.
    pub fn copy(&self) -> (copy: Self)
        ensures
            copy@ == self@,
    {
        ActiveWindowInfo {
            address: self.address.clone(),
            app: self.app.clone(),
            window_title: self.window_title.clone(),
            icon_path: clone_path(&self.icon_path),
            focused_monitor: self.focused_monitor.clone(),
        }
    }
}

/// An event of the window manager.
#[derive(Clone, Debug)]
pub enum WmEvent {
    /// The workspaces of a monitor changed.
    WorkspacesChanged(WorkspacesStatus),
    /// Another window has the focus, or its data changed.
    ActiveWindowChanged(ActiveWindowInfo),
    /// A monitor of this name was added.
    MonitorAdded(String),
    /// The monitor of this name was removed.
    MonitorRemoved(String),
}

} // verus!
