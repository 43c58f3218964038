//! The state of the workspaces page and how it follows the user and the
//! backend.
use vstd::prelude::*;

use crate::contracts::{
    session_items_view, AgentProfile, SessionListItem, WorkspaceBranch, WorkspaceSummary,
};
use crate::accounts_page::{retain_other_profiles, without_profile};
use crate::session_state::opt_view;
use crate::text::{chars_of, concat_str, copy_string, string_from_chars, trim, trim_chars};
use crate::workspaces::{
    default_branch_ref_name, store_sessions_spec, store_workspace_sessions,
    workspace_sessions_view, WorkspaceSessions, WorkspacesRouteAccess,
};
use crate::contracts::SessionItemView;

verus! {

/// Everything the workspaces page keeps.
pub struct WorkspacesPageState {
    pub error: Option<String>,
    pub notice: Option<String>,
    pub access: Option<WorkspacesRouteAccess>,
    pub workspaces: Vec<WorkspaceSummary>,
    pub loading: bool,
    pub workspace_sessions: Vec<WorkspaceSessions>,
    pub show_create_modal: bool,
    pub create_name: String,
    pub create_upstream_url: String,
    pub creating: bool,
    pub editing_workspace_id: Option<String>,
    pub edit_name_draft: String,
    pub saving_workspace_id: Option<String>,
    pub deleting_workspace_id: Option<String>,
    pub opening_chat_workspace_id: Option<String>,
    pub show_start_chat_modal: bool,
    pub start_chat_workspace_id: Option<String>,
    pub start_chat_workspace_name: String,
    pub start_chat_branches: Vec<WorkspaceBranch>,
    pub start_chat_selected_branch: String,
    pub start_chat_loading_branches: bool,
    pub checked: bool,
    pub agent_profiles: Vec<AgentProfile>,
    pub show_agent_settings: bool,
    pub agent_settings_profile_name: String,
    pub agent_settings_command: String,
    pub agent_settings_saving: bool,
}

/// The abstract value of a [`WorkspacesPageState`].
pub ghost struct WorkspacesPageView {
    pub error: Option<Seq<char>>,
    pub notice: Option<Seq<char>>,
    pub access: Option<WorkspacesRouteAccess>,
    pub workspaces: Seq<WorkspaceSummary>,
    pub loading: bool,
    pub workspace_sessions: Seq<(Seq<char>, Seq<SessionItemView>)>,
    pub show_create_modal: bool,
    pub create_name: Seq<char>,
    pub create_upstream_url: Seq<char>,
    pub creating: bool,
    pub editing_workspace_id: Option<Seq<char>>,
    pub edit_name_draft: Seq<char>,
    pub saving_workspace_id: Option<Seq<char>>,
    pub deleting_workspace_id: Option<Seq<char>>,
    pub opening_chat_workspace_id: Option<Seq<char>>,
    pub show_start_chat_modal: bool,
    pub start_chat_workspace_id: Option<Seq<char>>,
    pub start_chat_workspace_name: Seq<char>,
    pub start_chat_branches: Seq<WorkspaceBranch>,
    pub start_chat_selected_branch: Seq<char>,
    pub start_chat_loading_branches: bool,
    pub checked: bool,
    pub agent_profiles: Seq<AgentProfile>,
    pub show_agent_settings: bool,
    pub agent_settings_profile_name: Seq<char>,
    pub agent_settings_command: Seq<char>,
    pub agent_settings_saving: bool,
}

impl View for WorkspacesPageState {
    type V = WorkspacesPageView;

    open spec fn view(&self) -> WorkspacesPageView {
        WorkspacesPageView {
            error: opt_view(self.error),
            notice: opt_view(self.notice),
            access: self.access,
            workspaces: self.workspaces@,
            loading: self.loading,
            workspace_sessions: workspace_sessions_view(self.workspace_sessions@),
            show_create_modal: self.show_create_modal,
            create_name: self.create_name@,
            create_upstream_url: self.create_upstream_url@,
            creating: self.creating,
            editing_workspace_id: opt_view(self.editing_workspace_id),
            edit_name_draft: self.edit_name_draft@,
            saving_workspace_id: opt_view(self.saving_workspace_id),
            deleting_workspace_id: opt_view(self.deleting_workspace_id),
            opening_chat_workspace_id: opt_view(self.opening_chat_workspace_id),
            show_start_chat_modal: self.show_start_chat_modal,
            start_chat_workspace_id: opt_view(self.start_chat_workspace_id),
            start_chat_workspace_name: self.start_chat_workspace_name@,
            start_chat_branches: self.start_chat_branches@,
            start_chat_selected_branch: self.start_chat_selected_branch@,
            start_chat_loading_branches: self.start_chat_loading_branches,
            checked: self.checked,
            agent_profiles: self.agent_profiles@,
            show_agent_settings: self.show_agent_settings,
            agent_settings_profile_name: self.agent_settings_profile_name@,
            agent_settings_command: self.agent_settings_command@,
            agent_settings_saving: self.agent_settings_saving,
        }
    }
}

/// The page after it was marked checked where no backend is at hand: done
/// loading, unless it was checked before.
pub open spec fn workspaces_host_initialized(v: WorkspacesPageView) -> WorkspacesPageView {
    if v.checked {
        v
    } else {
        WorkspacesPageView { checked: true, loading: false, ..v }
    }
}

/// Initializing the page twice is initializing it once: the second call
/// changes nothing, even where the page was changed after the first.
pub proof fn lemma_workspaces_host_initialized_once(v: WorkspacesPageView)
    ensures
        workspaces_host_initialized(v).checked,
        workspaces_host_initialized(workspaces_host_initialized(v)) == workspaces_host_initialized(
            v,
        ),
        forall|w: WorkspacesPageView| w.checked ==> #[trigger] workspaces_host_initialized(w) == w,
{
}

/// The page with a reload of the workspaces started.
pub open spec fn reload_started(v: WorkspacesPageView) -> WorkspacesPageView {
    WorkspacesPageView { loading: true, error: None, workspace_sessions: Seq::empty(), ..v }
}

/// The page with the create dialog closed and emptied.
pub open spec fn create_modal_closed(v: WorkspacesPageView) -> WorkspacesPageView {
    WorkspacesPageView {
        create_name: Seq::empty(),
        create_upstream_url: Seq::empty(),
        error: None,
        show_create_modal: false,
        ..v
    }
}

/// The page with the start-chat dialog closed and emptied.
pub open spec fn start_chat_modal_closed(v: WorkspacesPageView) -> WorkspacesPageView {
    WorkspacesPageView {
        show_start_chat_modal: false,
        start_chat_workspace_id: None,
        start_chat_workspace_name: Seq::empty(),
        start_chat_branches: Seq::empty(),
        start_chat_selected_branch: Seq::empty(),
        start_chat_loading_branches: false,
        error: None,
        ..v
    }
}

/// The message shown when the sessions of a workspace could not be loaded.
pub open spec fn sessions_error_message(name: Seq<char>, message: Seq<char>) -> Seq<char> {
    "Failed to load sessions for workspace "@ + name + ": "@ + message
}

impl WorkspacesPageState {
    /// The page before anything is loaded.
    pub fn new() -> (state: Self)
        ensures
            state@ == (WorkspacesPageView {
                error: None,
                notice: None,
                access: None,
                workspaces: Seq::empty(),
                loading: true,
                workspace_sessions: Seq::empty(),
                show_create_modal: false,
                create_name: Seq::empty(),
                create_upstream_url: Seq::empty(),
                creating: false,
                editing_workspace_id: None,
                edit_name_draft: Seq::empty(),
                saving_workspace_id: None,
                deleting_workspace_id: None,
                opening_chat_workspace_id: None,
                show_start_chat_modal: false,
                start_chat_workspace_id: None,
                start_chat_workspace_name: Seq::empty(),
                start_chat_branches: Seq::empty(),
                start_chat_selected_branch: Seq::empty(),
                start_chat_loading_branches: false,
                checked: false,
                agent_profiles: Seq::empty(),
                show_agent_settings: false,
                agent_settings_profile_name: Seq::empty(),
                agent_settings_command: Seq::empty(),
                agent_settings_saving: false,
            }),
    {
        let state = WorkspacesPageState {
            error: None,
            notice: None,
            access: None,
            workspaces: Vec::new(),
            loading: true,
            workspace_sessions: Vec::new(),
            show_create_modal: false,
            create_name: String::new(),
            create_upstream_url: String::new(),
            creating: false,
            editing_workspace_id: None,
            edit_name_draft: String::new(),
            saving_workspace_id: None,
            deleting_workspace_id: None,
            opening_chat_workspace_id: None,
            show_start_chat_modal: false,
            start_chat_workspace_id: None,
            start_chat_workspace_name: String::new(),
            start_chat_branches: Vec::new(),
            start_chat_selected_branch: String::new(),
            start_chat_loading_branches: false,
            checked: false,
            agent_profiles: Vec::new(),
            show_agent_settings: false,
            agent_settings_profile_name: String::new(),
            agent_settings_command: String::new(),
            agent_settings_saving: false,
        };
        assert(state@.workspace_sessions =~= Seq::empty());
        state
    }

    /// Marks the page checked and done loading where no backend is at hand.
    pub fn initialize_workspaces_page_host(&mut self)
        ensures
            final(self)@ == workspaces_host_initialized(old(self)@),
    {
        if self.checked {
            return ;
        }
        self.checked = true;
        self.loading = false;
    }

    /// Starts the auth check once; returns whether it starts now.
    pub fn begin_auth_check(&mut self) -> (start: bool)
        ensures
            start == !old(self)@.checked,
            final(self)@ == (WorkspacesPageView { checked: true, ..old(self)@ }),
    {
        let start = !self.checked;
        self.checked = true;
        start
    }

    /// Starts a reload of the workspaces.
    pub fn begin_workspace_reload(&mut self)
        ensures
            final(self)@ == reload_started(old(self)@),
    {
        self.loading = true;
        self.error = None;
        self.workspace_sessions = Vec::new();
        assert(workspace_sessions_view(self.workspace_sessions@) =~= Seq::empty());
    }

    /// The backend answered the auth check; returns whether the workspaces
    /// are to be loaded (a reload has then started).
    pub fn finish_auth_check(&mut self, result: Result<WorkspacesRouteAccess, String>) -> (load: bool)
        ensures
            load == (result matches Ok(WorkspacesRouteAccess::SignedIn)),
            final(self)@ == match result {
                Ok(access) => if access == WorkspacesRouteAccess::SignedIn {
                    reload_started(WorkspacesPageView { access: Some(access), ..old(self)@ })
                } else {
                    WorkspacesPageView { access: Some(access), loading: false, ..old(self)@ }
                },
                Err(message) => WorkspacesPageView {
                    loading: false,
                    error: Some(message@),
                    ..old(self)@
                },
            },
    {
        match result {
            Ok(access) => {
                let should_load = access == WorkspacesRouteAccess::SignedIn;
                self.access = Some(access);
                if should_load {
                    self.begin_workspace_reload();
                } else {
                    self.loading = false;
                }
                should_load
            },
            Err(message) => {
                self.loading = false;
                self.error = Some(message);
                false
            },
        }
    }

    /// The backend answered a reload of the workspaces.
    pub fn finish_workspace_reload(&mut self, result: Result<Vec<WorkspaceSummary>, String>)
        ensures
            final(self)@ == match result {
                Ok(workspaces) => WorkspacesPageView {
                    workspaces: workspaces@,
                    loading: false,
                    ..old(self)@
                },
                Err(message) => WorkspacesPageView {
                    loading: false,
                    error: Some(message@),
                    ..old(self)@
                },
            },
    {
        match result {
            Ok(workspaces) => {
                self.workspaces = workspaces;
                self.loading = false;
            },
            Err(message) => {
                self.loading = false;
                self.error = Some(message);
            },
        }
    }

    /// The backend answered a request for the sessions of one workspace; a
    /// failure leaves it with none and says so.
    pub fn finish_workspace_sessions_load(
        &mut self,
        workspace_id: String,
        workspace_name: &str,
        result: Result<Vec<SessionListItem>, String>,
    )
        ensures
            final(self)@ == match result {
                Ok(sessions) => WorkspacesPageView {
                    workspace_sessions: store_sessions_spec(
                        old(self)@.workspace_sessions,
                        workspace_id@,
                        session_items_view(sessions@),
                    ),
                    ..old(self)@
                },
                Err(message) => WorkspacesPageView {
                    workspace_sessions: store_sessions_spec(
                        old(self)@.workspace_sessions,
                        workspace_id@,
                        Seq::empty(),
                    ),
                    error: Some(sessions_error_message(workspace_name@, message@)),
                    ..old(self)@
                },
            },
    {
        match result {
            Ok(sessions) => store_workspace_sessions(
                &mut self.workspace_sessions,
                workspace_id,
                sessions,
            ),
            Err(message) => {
                let empty: Vec<SessionListItem> = Vec::new();
                assert(session_items_view(empty@) =~= Seq::empty());
                store_workspace_sessions(&mut self.workspace_sessions, workspace_id, empty);
                let head = concat_str("Failed to load sessions for workspace ", workspace_name);
                let with_colon = concat_str(head.as_str(), ": ");
                self.error = Some(concat_str(with_colon.as_str(), message.as_str()));
            },
        }
    }

    /// Opens the create-workspace dialog.
    pub fn open_create_workspace_modal(&mut self)
        ensures
            final(self)@ == (WorkspacesPageView { error: None, show_create_modal: true, ..old(self)@ }),
    {
        self.error = None;
        self.show_create_modal = true;
    }

    /// Closes and empties the create-workspace dialog.
    pub fn close_create_workspace_modal(&mut self)
        ensures
            final(self)@ == create_modal_closed(old(self)@),
    {
        self.create_name = String::new();
        self.create_upstream_url = String::new();
        self.error = None;
        self.show_create_modal = false;
    }

    /// Submits the create-workspace dialog: returns the name and repository
    /// URL to send, or `None` while a create runs or when either is blank
    /// (then saying which).
    pub fn begin_create_workspace(&mut self) -> (request: Option<(String, String)>)
        ensures
            old(self)@.creating ==> request is None && final(self)@ == old(self)@,
            !old(self)@.creating && trim(old(self)@.create_name).len() == 0 ==> request is None
                && final(self)@ == (WorkspacesPageView {
                error: Some("Workspace name is required."@),
                ..old(self)@
            }),
            !old(self)@.creating && trim(old(self)@.create_name).len() > 0 && trim(
                old(self)@.create_upstream_url,
            ).len() == 0 ==> request is None && final(self)@ == (WorkspacesPageView {
                error: Some("Repository URL is required."@),
                ..old(self)@
            }),
            !old(self)@.creating && trim(old(self)@.create_name).len() > 0 && trim(
                old(self)@.create_upstream_url,
            ).len() > 0 ==> request is Some && request.unwrap().0@ == old(self)@.create_name
                && request.unwrap().1@ == old(self)@.create_upstream_url && final(self)@ == (
            WorkspacesPageView { creating: true, error: None, notice: None, ..old(self)@ }),
    {
        if self.creating {
            return None;
        }
        let name = chars_of(self.create_name.as_str());
        if trim_chars(name.as_slice()).len() == 0 {
            self.error = Some("Workspace name is required.".to_string());
            return None;
        }
        let url = chars_of(self.create_upstream_url.as_str());
        if trim_chars(url.as_slice()).len() == 0 {
            self.error = Some("Repository URL is required.".to_string());
            return None;
        }
        self.creating = true;
        self.error = None;
        self.notice = None;
        Some((copy_string(&self.create_name), copy_string(&self.create_upstream_url)))
    }

    /// The backend answered a create: on success the dialog closes and the
    /// page says so (a reload is due); on failure the error is shown.
    pub fn finish_create_workspace(&mut self, result: Result<(), String>)
        ensures
            final(self)@ == match result {
                Ok(()) => WorkspacesPageView {
                    notice: Some("Workspace created."@),
                    creating: false,
                    ..create_modal_closed(old(self)@)
                },
                Err(message) => WorkspacesPageView {
                    creating: false,
                    error: Some(message@),
                    ..old(self)@
                },
            },
    {
        match result {
            Ok(()) => {
                self.close_create_workspace_modal();
                self.notice = Some("Workspace created.".to_string());
                self.creating = false;
            },
            Err(message) => {
                self.creating = false;
                self.error = Some(message);
            },
        }
    }

    /// Starts renaming a workspace.
    pub fn begin_workspace_edit(&mut self, workspace_id: &str, workspace_name: &str)
        ensures
            final(self)@ == (WorkspacesPageView {
                editing_workspace_id: Some(workspace_id@),
                edit_name_draft: workspace_name@,
                error: None,
                notice: None,
                ..old(self)@
            }),
    {
        self.editing_workspace_id = Some(workspace_id.to_string());
        self.edit_name_draft = workspace_name.to_string();
        self.error = None;
        self.notice = None;
    }

    /// Leaves renaming `workspace_id`, if that is the one being renamed.
    pub fn cancel_workspace_edit(&mut self, workspace_id: &str)
        ensures
            final(self)@ == (if old(self)@.editing_workspace_id == Some(workspace_id@) {
                WorkspacesPageView {
                    editing_workspace_id: None,
                    edit_name_draft: Seq::empty(),
                    error: None,
                    ..old(self)@
                }
            } else {
                old(self)@
            }),
    {
        let editing = match &self.editing_workspace_id {
            Some(id) => crate::text::str_eq(id.as_str(), workspace_id),
            None => false,
        };
        if editing {
            self.editing_workspace_id = None;
            self.edit_name_draft = String::new();
            self.error = None;
        }
    }

    /// Submits a rename: returns the trimmed name to send, or `None` while a
    /// save runs or when the name is blank (then saying so).
    pub fn begin_workspace_save(&mut self, workspace_id: &str) -> (name: Option<String>)
        ensures
            old(self)@.saving_workspace_id is Some ==> name is None && final(self)@ == old(self)@,
            old(self)@.saving_workspace_id is None && trim(old(self)@.edit_name_draft).len() == 0
                ==> name is None && final(self)@ == (WorkspacesPageView {
                error: Some("Workspace name cannot be empty."@),
                ..old(self)@
            }),
            old(self)@.saving_workspace_id is None && trim(old(self)@.edit_name_draft).len() > 0
                ==> name is Some && name.unwrap()@ == trim(old(self)@.edit_name_draft)
                && final(self)@ == (WorkspacesPageView {
                saving_workspace_id: Some(workspace_id@),
                error: None,
                notice: None,
                ..old(self)@
            }),
    {
        if self.saving_workspace_id.is_some() {
            return None;
        }
        let draft = chars_of(self.edit_name_draft.as_str());
        let trimmed = trim_chars(draft.as_slice());
        if trimmed.len() == 0 {
            self.error = Some("Workspace name cannot be empty.".to_string());
            return None;
        }
        self.saving_workspace_id = Some(workspace_id.to_string());
        self.error = None;
        self.notice = None;
        Some(string_from_chars(trimmed.as_slice()))
    }

    /// The backend answered a rename (a reload is due on success).
    pub fn finish_workspace_save(&mut self, result: Result<(), String>)
        ensures
            final(self)@ == match result {
                Ok(()) => WorkspacesPageView {
                    saving_workspace_id: None,
                    editing_workspace_id: None,
                    notice: Some("Workspace updated."@),
                    ..old(self)@
                },
                Err(message) => WorkspacesPageView {
                    saving_workspace_id: None,
                    error: Some(message@),
                    ..old(self)@
                },
            },
    {
        match result {
            Ok(()) => {
                self.saving_workspace_id = None;
                self.editing_workspace_id = None;
                self.notice = Some("Workspace updated.".to_string());
            },
            Err(message) => {
                self.saving_workspace_id = None;
                self.error = Some(message);
            },
        }
    }

    /// Starts deleting a workspace; returns `false` while another delete runs.
    pub fn begin_workspace_delete(&mut self, workspace_id: &str) -> (start: bool)
        ensures
            start == (old(self)@.deleting_workspace_id is None),
            final(self)@ == (if start {
                WorkspacesPageView {
                    deleting_workspace_id: Some(workspace_id@),
                    error: None,
                    notice: None,
                    ..old(self)@
                }
            } else {
                old(self)@
            }),
    {
        if self.deleting_workspace_id.is_some() {
            return false;
        }
        self.deleting_workspace_id = Some(workspace_id.to_string());
        self.error = None;
        self.notice = None;
        true
    }

    /// The backend answered a delete (a reload is due on success).
    pub fn finish_workspace_delete(&mut self, result: Result<(), String>)
        ensures
            final(self)@ == match result {
                Ok(()) => WorkspacesPageView {
                    deleting_workspace_id: None,
                    notice: Some("Workspace deleted."@),
                    ..old(self)@
                },
                Err(message) => WorkspacesPageView {
                    deleting_workspace_id: None,
                    error: Some(message@),
                    ..old(self)@
                },
            },
    {
        self.deleting_workspace_id = None;
        match result {
            Ok(()) => {
                self.notice = Some("Workspace deleted.".to_string());
            },
            Err(message) => {
                self.error = Some(message);
            },
        }
    }

    /// Opens the start-chat dialog for a workspace (its branches are to be
    /// loaded); returns `false` while a chat is being opened.
    pub fn begin_open_chat(&mut self, workspace_id: &str, workspace_name: &str) -> (start: bool)
        ensures
            start == (old(self)@.opening_chat_workspace_id is None),
            final(self)@ == (if start {
                WorkspacesPageView {
                    error: None,
                    notice: None,
                    start_chat_workspace_id: Some(workspace_id@),
                    start_chat_workspace_name: workspace_name@,
                    start_chat_branches: Seq::empty(),
                    start_chat_selected_branch: Seq::empty(),
                    start_chat_loading_branches: true,
                    show_start_chat_modal: true,
                    ..old(self)@
                }
            } else {
                old(self)@
            }),
    {
        if self.opening_chat_workspace_id.is_some() {
            return false;
        }
        self.error = None;
        self.notice = None;
        self.start_chat_workspace_id = Some(workspace_id.to_string());
        self.start_chat_workspace_name = workspace_name.to_string();
        self.start_chat_branches = Vec::new();
        self.start_chat_selected_branch = String::new();
        self.start_chat_loading_branches = true;
        self.show_start_chat_modal = true;
        true
    }

    /// The branches of a workspace arrived; kept only when the dialog still
    /// shows that workspace, with the first branch selected.
    pub fn store_workspace_start_chat_branches(
        &mut self,
        workspace_id: &str,
        branches: Vec<WorkspaceBranch>,
    )
        ensures
            final(self)@ == (if old(self)@.start_chat_workspace_id == Some(workspace_id@) {
                WorkspacesPageView {
                    start_chat_loading_branches: false,
                    start_chat_selected_branch: if branches@.len() > 0 {
                        branches@[0].ref_name@
                    } else {
                        Seq::empty()
                    },
                    start_chat_branches: branches@,
                    ..old(self)@
                }
            } else {
                old(self)@
            }),
    {
        let current = match &self.start_chat_workspace_id {
            Some(id) => crate::text::str_eq(id.as_str(), workspace_id),
            None => false,
        };
        if !current {
            return ;
        }
        self.start_chat_loading_branches = false;
        self.start_chat_selected_branch = default_branch_ref_name(branches.as_slice());
        self.start_chat_branches = branches;
    }

    /// Loading the branches of a workspace failed; reported only when the
    /// dialog still shows that workspace.
    pub fn fail_workspace_start_chat_branches(&mut self, workspace_id: &str, message: String)
        ensures
            final(self)@ == (if old(self)@.start_chat_workspace_id == Some(workspace_id@) {
                WorkspacesPageView {
                    start_chat_loading_branches: false,
                    error: Some(message@),
                    ..old(self)@
                }
            } else {
                old(self)@
            }),
    {
        let current = match &self.start_chat_workspace_id {
            Some(id) => crate::text::str_eq(id.as_str(), workspace_id),
            None => false,
        };
        if !current {
            return ;
        }
        self.start_chat_loading_branches = false;
        self.error = Some(message);
    }

    /// Submits the start-chat dialog: returns the workspace and branch to
    /// start a chat on, or `None` while a chat is being opened or when the
    /// workspace or branch is missing (then saying which).
    pub fn begin_start_chat(&mut self) -> (request: Option<(String, String)>)
        ensures
            old(self)@.opening_chat_workspace_id is Some ==> request is None && final(self)@ == old(
                self,
            )@,
            old(self)@.opening_chat_workspace_id is None && old(self)@.start_chat_workspace_id is None
                ==> request is None && final(self)@ == (WorkspacesPageView {
                error: Some("Choose a workspace before starting a chat."@),
                ..old(self)@
            }),
            old(self)@.opening_chat_workspace_id is None && old(self)@.start_chat_workspace_id is Some
                && trim(old(self)@.start_chat_selected_branch).len() == 0 ==> request is None
                && final(self)@ == (WorkspacesPageView {
                error: Some("Choose a branch before starting a chat."@),
                ..old(self)@
            }),
            old(self)@.opening_chat_workspace_id is None && old(self)@.start_chat_workspace_id is Some
                && trim(old(self)@.start_chat_selected_branch).len() > 0 ==> request is Some
                && Some(request.unwrap().0@) == old(self)@.start_chat_workspace_id
                && request.unwrap().1@ == old(self)@.start_chat_selected_branch && final(self)@ == (
            WorkspacesPageView {
                opening_chat_workspace_id: old(self)@.start_chat_workspace_id,
                error: None,
                notice: None,
                ..old(self)@
            }),
    {
        if self.opening_chat_workspace_id.is_some() {
            return None;
        }
        let workspace_id = match &self.start_chat_workspace_id {
            Some(id) => copy_string(id),
            None => {
                self.error = Some("Choose a workspace before starting a chat.".to_string());
                return None;
            },
        };
        let branch = chars_of(self.start_chat_selected_branch.as_str());
        if trim_chars(branch.as_slice()).len() == 0 {
            self.error = Some("Choose a branch before starting a chat.".to_string());
            return None;
        }
        self.opening_chat_workspace_id = Some(copy_string(&workspace_id));
        self.error = None;
        self.notice = None;
        Some((workspace_id, copy_string(&self.start_chat_selected_branch)))
    }

    /// Closes and empties the start-chat dialog.
    pub fn close_workspace_start_chat_modal(&mut self)
        ensures
            final(self)@ == start_chat_modal_closed(old(self)@),
    {
        self.show_start_chat_modal = false;
        self.start_chat_workspace_id = None;
        self.start_chat_workspace_name = String::new();
        self.start_chat_branches = Vec::new();
        self.start_chat_selected_branch = String::new();
        self.start_chat_loading_branches = false;
        self.error = None;
    }

    /// The chat was opened (the dialog closes) or could not be (the error is
    /// shown).
    pub fn finish_start_chat(&mut self, result: Result<(), String>)
        ensures
            final(self)@ == match result {
                Ok(()) => WorkspacesPageView {
                    opening_chat_workspace_id: None,
                    ..start_chat_modal_closed(old(self)@)
                },
                Err(message) => WorkspacesPageView {
                    opening_chat_workspace_id: None,
                    error: Some(message@),
                    ..old(self)@
                },
            },
    {
        match result {
            Ok(()) => {
                self.close_workspace_start_chat_modal();
                self.opening_chat_workspace_id = None;
            },
            Err(message) => {
                self.opening_chat_workspace_id = None;
                self.error = Some(message);
            },
        }
    }
}

/// The profiles with any of the id of `profile` replaced by it, at the end.
pub open spec fn profile_stored(s: Seq<AgentProfile>, profile: AgentProfile) -> Seq<AgentProfile> {
    without_profile(s, profile.id@).push(profile)
}

impl WorkspacesPageState {
    /// Opens the agent-settings dialog with a blank new-profile form.
    pub fn agent_settings_open_handler(&mut self)
        ensures
            final(self)@ == (WorkspacesPageView {
                agent_settings_profile_name: Seq::empty(),
                agent_settings_command: Seq::empty(),
                show_agent_settings: true,
                error: None,
                ..old(self)@
            }),
    {
        self.reset_agent_settings_form();
        self.show_agent_settings = true;
        self.error = None;
    }

    /// Empties the new-profile form of the agent-settings dialog.
    pub fn reset_agent_settings_form(&mut self)
        ensures
            final(self)@ == (WorkspacesPageView {
                agent_settings_profile_name: Seq::empty(),
                agent_settings_command: Seq::empty(),
                ..old(self)@
            }),
    {
        self.agent_settings_profile_name = String::new();
        self.agent_settings_command = String::new();
    }

    /// Closes the agent-settings dialog.
    pub fn close_agent_settings(&mut self)
        ensures
            final(self)@ == (WorkspacesPageView { show_agent_settings: false, ..old(self)@ }),
    {
        self.show_agent_settings = false;
    }

    /// Submits the new-profile form: returns its name and command, or `None`
    /// for a user who is not an admin and while a save runs.
    pub fn begin_agent_settings_submit(&mut self, is_admin: bool) -> (request: Option<(String, String)>)
        ensures
            !is_admin || old(self)@.agent_settings_saving ==> request is None && final(self)@ == old(
                self,
            )@,
            is_admin && !old(self)@.agent_settings_saving ==> request is Some && request.unwrap().0@
                == old(self)@.agent_settings_profile_name && request.unwrap().1@ == old(
                self,
            )@.agent_settings_command && final(self)@ == (WorkspacesPageView {
                agent_settings_saving: true,
                error: None,
                ..old(self)@
            }),
    {
        if !is_admin || self.agent_settings_saving {
            return None;
        }
        self.agent_settings_saving = true;
        self.error = None;
        Some((copy_string(&self.agent_settings_profile_name), copy_string(&self.agent_settings_command)))
    }

    /// The backend answered a new profile: it replaces any of its id at the
    /// end of the list and the dialog closes; or the error is shown.
    pub fn finish_agent_settings_submit(&mut self, result: Result<AgentProfile, String>)
        ensures
            final(self)@ == match result {
                Ok(profile) => WorkspacesPageView {
                    agent_profiles: profile_stored(old(self)@.agent_profiles, profile),
                    agent_settings_saving: false,
                    show_agent_settings: false,
                    notice: Some("ACP profile saved."@),
                    ..old(self)@
                },
                Err(message) => WorkspacesPageView {
                    agent_settings_saving: false,
                    error: Some(message@),
                    ..old(self)@
                },
            },
    {
        match result {
            Ok(profile) => {
                let mut profiles: Vec<AgentProfile> = Vec::new();
                std::mem::swap(&mut profiles, &mut self.agent_profiles);
                let mut kept = retain_other_profiles(profiles, profile.id.as_str());
                kept.push(profile);
                self.agent_profiles = kept;
                self.agent_settings_saving = false;
                self.show_agent_settings = false;
                self.notice = Some("ACP profile saved.".to_string());
            },
            Err(message) => {
                self.agent_settings_saving = false;
                self.error = Some(message);
            },
        }
    }
}

} // verus!
