use acp_web_frontend::contracts::{
    AgentProfile, AgentProfileMode, SessionListItem, SessionStatus, WorkspaceBranch,
    WorkspaceSummary,
};
use acp_web_frontend::icons::AppIcon;
use acp_web_frontend::workspaces::{
    create_workspace_button_label, create_workspace_trigger_label, default_branch_ref_name,
    store_workspace_sessions, workspace_cancel_label, workspace_card_display,
    workspace_count_label, workspace_delete_icon, workspace_delete_label, workspace_id_flag,
    workspace_new_chat_icon, workspace_new_chat_label, workspace_rename_label,
    workspace_repository_label, workspace_save_icon, workspace_save_label,
    workspace_sessions_of, workspaces_back_to_chat_path,
    workspaces_back_to_chat_path_from_location, workspaces_path_with_return_to,
    WorkspacesRouteAccess,
};
use acp_web_frontend::workspaces_page::WorkspacesPageState;
use chrono::{TimeZone, Utc};

fn created() -> i64 {
    Utc.with_ymd_and_hms(2026, 4, 17, 1, 0, 0).unwrap().timestamp()
}

fn sample_workspace(id: &str, name: &str) -> WorkspaceSummary {
    WorkspaceSummary {
        workspace_id: id.to_string(),
        name: name.to_string(),
        upstream_url: Some("https://example.com/repo.git".to_string()),
        status: "active".to_string(),
        created_at: created(),
    }
}

fn sample_session(id: &str) -> SessionListItem {
    SessionListItem {
        id: id.to_string(),
        title: format!("Session {id}"),
        status: SessionStatus::Active,
        last_activity_at: created(),
    }
}

fn sample_workspace_branch() -> WorkspaceBranch {
    WorkspaceBranch { name: "feature".to_string(), ref_name: "refs/heads/feature".to_string() }
}

fn seed_workspace_start_chat_state(state: &mut WorkspacesPageState) {
    state.show_start_chat_modal = true;
    state.start_chat_workspace_id = Some("w_1".to_string());
    state.start_chat_workspace_name = "Test Workspace".to_string();
    state.start_chat_branches = vec![sample_workspace_branch()];
    state.start_chat_selected_branch = "refs/heads/feature".to_string();
}

/// Creating a workspace where the backend answers at once.
fn create_workspace_now(state: &mut WorkspacesPageState) {
    if state.begin_create_workspace().is_some() {
        state.finish_create_workspace(Ok(()));
    }
}

#[test]
fn create_workspace_button_label_toggles_with_in_progress_state() {
    assert_eq!(create_workspace_button_label(false), "Create workspace");
    assert_eq!(create_workspace_button_label(true), "Saving…");
}

#[test]
fn create_workspace_trigger_label_is_stable() {
    assert_eq!(create_workspace_trigger_label(), "New workspace");
}

#[test]
fn create_workspace_button_label_signal_tracks_creating_state() {
    let mut state = WorkspacesPageState::new();
    assert_eq!(create_workspace_button_label(state.creating), "Create workspace");
    state.creating = true;
    assert_eq!(create_workspace_button_label(state.creating), "Saving…");
}

#[test]
fn create_workspace_submit_host_closes_modal_and_sets_notice() {
    let mut state = WorkspacesPageState::new();
    state.create_name = "My Workspace".to_string();
    state.create_upstream_url = "https://example.com/repo.git".to_string();
    state.show_create_modal = true;
    let request = state.begin_create_workspace();
    assert_eq!(
        request,
        Some(("My Workspace".to_string(), "https://example.com/repo.git".to_string()))
    );
    state.finish_create_workspace(Ok(()));
    assert!(!state.creating);
    assert!(state.create_name.is_empty());
    assert!(state.create_upstream_url.is_empty());
    assert!(!state.show_create_modal);
    assert_eq!(state.notice, Some("Workspace created.".to_string()));
}

#[test]
fn create_workspace_requires_name_and_repository() {
    let mut state = WorkspacesPageState::new();
    state.create_name = "  ".to_string();
    assert!(state.begin_create_workspace().is_none());
    assert_eq!(state.error, Some("Workspace name is required.".to_string()));
    state.create_name = "Name".to_string();
    assert!(state.begin_create_workspace().is_none());
    assert_eq!(state.error, Some("Repository URL is required.".to_string()));
    assert!(!state.creating);
}

#[test]
fn close_create_workspace_modal_clears_form_state() {
    let mut state = WorkspacesPageState::new();
    state.create_name = "My Workspace".to_string();
    state.create_upstream_url = "https://example.com/repo.git".to_string();
    state.error = Some("Create failed".to_string());
    state.show_create_modal = true;
    state.close_create_workspace_modal();
    assert!(state.create_name.is_empty());
    assert!(state.create_upstream_url.is_empty());
    assert!(state.error.is_none());
    assert!(!state.show_create_modal);
}

#[test]
fn modal_cancel_handler_closes_modal() {
    let mut state = WorkspacesPageState::new();
    state.create_name = "Draft".to_string();
    state.error = Some("Create failed".to_string());
    state.show_create_modal = true;
    state.close_create_workspace_modal();
    assert!(state.create_name.is_empty());
    assert!(state.error.is_none());
    assert!(!state.show_create_modal);
}

#[test]
fn host_callback_leaves_in_progress_state_unchanged() {
    let mut state = WorkspacesPageState::new();
    state.creating = true;
    state.notice = Some("still creating".to_string());
    create_workspace_now(&mut state);
    assert_eq!(state.notice, Some("still creating".to_string()));
}

#[test]
fn opening_the_create_dialog_clears_the_error() {
    let mut state = WorkspacesPageState::new();
    state.error = Some("old".to_string());
    state.open_create_workspace_modal();
    assert!(state.show_create_modal);
    assert!(state.error.is_none());
}

#[test]
fn workspace_count_label_pluralises_correctly() {
    assert_eq!(workspace_count_label(0), "No workspaces");
    assert_eq!(workspace_count_label(1), "1 workspace");
    assert_eq!(workspace_count_label(3), "3 workspaces");
}

#[test]
fn workspace_action_labels_and_icons_cover_busy_states() {
    assert_eq!(workspace_rename_label(), "Rename");
    assert_eq!(workspace_delete_label(false), "Delete");
    assert_eq!(workspace_delete_label(true), "Deleting…");
    assert_eq!(workspace_new_chat_label(false), "New chat");
    assert_eq!(workspace_new_chat_label(true), "Opening…");
    assert_eq!(workspace_save_label(false), "Save");
    assert_eq!(workspace_save_label(true), "Saving…");
    assert_eq!(workspace_cancel_label(), "Cancel");
    assert_eq!(workspace_delete_icon(false), AppIcon::Delete);
    assert_eq!(workspace_delete_icon(true), AppIcon::Busy);
    assert_eq!(workspace_new_chat_icon(false), AppIcon::NewChat);
    assert_eq!(workspace_new_chat_icon(true), AppIcon::Busy);
    assert_eq!(workspace_save_icon(false), AppIcon::Save);
    assert_eq!(workspace_save_icon(true), AppIcon::Busy);
}

#[test]
fn workspace_card_display_preserves_repository_labels_and_dates() {
    let workspace = sample_workspace("w_1", "Test Workspace");
    let display = workspace_card_display(&workspace);
    assert_eq!(display.workspace_id, "w_1");
    assert_eq!(display.workspace_name, "Test Workspace");
    assert_eq!(display.workspace_repository_label, "https://example.com/repo.git");
    assert_eq!(display.workspace_status, "active");
    assert_eq!(display.created_label, "2026-04-17");
}

#[test]
fn local_workspaces_say_so() {
    assert_eq!(workspace_repository_label(None), "Local workspace");
    let mut workspace = sample_workspace("w_2", "Local");
    workspace.upstream_url = None;
    assert_eq!(workspace_card_display(&workspace).workspace_repository_label, "Local workspace");
}

#[test]
fn workspace_start_chat_modal_helpers_build_on_host() {
    let mut state = WorkspacesPageState::new();
    seed_workspace_start_chat_state(&mut state);
    assert_eq!(state.start_chat_workspace_name, "Test Workspace");
    assert_eq!(workspace_new_chat_label(state.opening_chat_workspace_id.is_some()), "New chat");
}

#[test]
fn close_workspace_start_chat_modal_clears_host_state() {
    let mut state = WorkspacesPageState::new();
    seed_workspace_start_chat_state(&mut state);
    state.error = Some("existing error".to_string());
    state.close_workspace_start_chat_modal();
    assert!(!state.show_start_chat_modal);
    assert!(state.start_chat_workspace_id.is_none());
    assert!(state.start_chat_workspace_name.is_empty());
    assert!(state.start_chat_branches.is_empty());
    assert!(state.start_chat_selected_branch.is_empty());
    assert!(!state.start_chat_loading_branches);
    assert!(state.error.is_none());
}

#[test]
fn workspace_start_chat_branch_store_selects_the_first_branch() {
    let mut state = WorkspacesPageState::new();
    state.start_chat_workspace_id = Some("w_1".to_string());
    state.start_chat_loading_branches = true;
    state.store_workspace_start_chat_branches(
        "w_1",
        vec![
            WorkspaceBranch { name: "main".to_string(), ref_name: "refs/heads/main".to_string() },
            sample_workspace_branch(),
        ],
    );
    assert!(!state.start_chat_loading_branches);
    assert_eq!(state.start_chat_selected_branch, "refs/heads/main");
    assert_eq!(state.start_chat_branches.len(), 2);
}

#[test]
fn branches_of_another_workspace_are_ignored() {
    let mut state = WorkspacesPageState::new();
    state.start_chat_workspace_id = Some("w_1".to_string());
    state.start_chat_loading_branches = true;
    state.store_workspace_start_chat_branches("w_2", vec![sample_workspace_branch()]);
    assert!(state.start_chat_loading_branches);
    assert!(state.start_chat_branches.is_empty());
    state.fail_workspace_start_chat_branches("w_1", "no branches".to_string());
    assert!(!state.start_chat_loading_branches);
    assert_eq!(state.error, Some("no branches".to_string()));
}

#[test]
fn workspace_start_chat_host_handlers_close_the_modal() {
    let mut state = WorkspacesPageState::new();
    seed_workspace_start_chat_state(&mut state);
    let request = state.begin_start_chat();
    assert_eq!(request, Some(("w_1".to_string(), "refs/heads/feature".to_string())));
    assert_eq!(state.opening_chat_workspace_id, Some("w_1".to_string()));
    state.finish_start_chat(Ok(()));
    assert!(!state.show_start_chat_modal);
    assert!(state.opening_chat_workspace_id.is_none());

    seed_workspace_start_chat_state(&mut state);
    state.close_workspace_start_chat_modal();
    assert!(!state.show_start_chat_modal);
}

#[test]
fn start_chat_needs_a_workspace_and_a_branch() {
    let mut state = WorkspacesPageState::new();
    assert!(state.begin_start_chat().is_none());
    assert_eq!(state.error, Some("Choose a workspace before starting a chat.".to_string()));
    state.start_chat_workspace_id = Some("w_1".to_string());
    assert!(state.begin_start_chat().is_none());
    assert_eq!(state.error, Some("Choose a branch before starting a chat.".to_string()));
}

#[test]
fn workspace_id_flag_matches_only_the_selected_workspace() {
    let mut state = WorkspacesPageState::new();
    state.editing_workspace_id = Some("w_1".to_string());
    assert!(workspace_id_flag(&state.editing_workspace_id, "w_1"));
    assert!(!workspace_id_flag(&state.editing_workspace_id, "w_2"));
}

#[test]
fn workspace_registry_shows_workspace_scoped_sessions_not_global_list() {
    let mut state = WorkspacesPageState::new();
    state.loading = false;
    state.workspaces = vec![sample_workspace("w_1", "Alpha"), sample_workspace("w_2", "Beta")];
    state.finish_workspace_sessions_load("w_1".to_string(), "Alpha", Ok(vec![sample_session("s_1")]));
    state.finish_workspace_sessions_load(
        "w_2".to_string(),
        "Beta",
        Ok(vec![sample_session("s_2"), sample_session("s_3")]),
    );
    let first = workspace_sessions_of(&state.workspace_sessions, "w_1").unwrap();
    let second = workspace_sessions_of(&state.workspace_sessions, "w_2").unwrap();
    assert_eq!(first.len(), 1);
    assert_eq!(first[0].id, "s_1");
    assert_eq!(second.len(), 2);
    assert!(workspace_sessions_of(&state.workspace_sessions, "w_3").is_none());
}

#[test]
fn failed_session_load_stores_none_and_says_which_workspace() {
    let mut state = WorkspacesPageState::new();
    state.finish_workspace_sessions_load("w_1".to_string(), "Alpha", Err("timeout".to_string()));
    assert_eq!(
        state.error,
        Some("Failed to load sessions for workspace Alpha: timeout".to_string())
    );
    assert_eq!(workspace_sessions_of(&state.workspace_sessions, "w_1"), Some(Vec::new()));
}

#[test]
fn storing_sessions_again_replaces_them() {
    let mut entries = Vec::new();
    store_workspace_sessions(&mut entries, "w_1".to_string(), vec![sample_session("a")]);
    store_workspace_sessions(&mut entries, "w_2".to_string(), vec![sample_session("b")]);
    store_workspace_sessions(&mut entries, "w_1".to_string(), vec![sample_session("c")]);
    assert_eq!(entries.len(), 2);
    assert_eq!(workspace_sessions_of(&entries, "w_1").unwrap()[0].id, "c");
    assert_eq!(workspace_sessions_of(&entries, "w_2").unwrap()[0].id, "b");
}

#[test]
fn workspaces_page_state_starts_with_empty_defaults() {
    let state = WorkspacesPageState::new();
    assert!(state.error.is_none());
    assert!(state.notice.is_none());
    assert!(state.access.is_none());
    assert!(state.workspaces.is_empty());
    assert!(state.loading);
    assert!(state.workspace_sessions.is_empty());
    assert!(!state.show_create_modal);
    assert!(state.create_name.is_empty());
    assert!(state.create_upstream_url.is_empty());
    assert!(!state.creating);
    assert!(state.editing_workspace_id.is_none());
    assert!(state.edit_name_draft.is_empty());
    assert!(state.saving_workspace_id.is_none());
    assert!(state.deleting_workspace_id.is_none());
    assert!(state.opening_chat_workspace_id.is_none());
    assert!(!state.show_start_chat_modal);
    assert!(state.start_chat_workspace_id.is_none());
    assert!(state.start_chat_workspace_name.is_empty());
    assert!(state.start_chat_branches.is_empty());
    assert!(state.start_chat_selected_branch.is_empty());
    assert!(!state.start_chat_loading_branches);
    assert!(!state.checked);
}

#[test]
fn default_branch_ref_name_prefers_the_first_branch() {
    assert!(default_branch_ref_name(&[]).is_empty());
    assert_eq!(
        default_branch_ref_name(&[
            WorkspaceBranch { name: "main".to_string(), ref_name: "refs/heads/main".to_string() },
            WorkspaceBranch {
                name: "release".to_string(),
                ref_name: "refs/heads/release".to_string(),
            },
        ]),
        "refs/heads/main"
    );
}

#[test]
fn workspaces_paths_preserve_only_session_routes() {
    assert_eq!(
        workspaces_path_with_return_to("/app/sessions/s%2F1"),
        "/app/workspaces/?return_to=%2Fapp%2Fsessions%2Fs%252F1"
    );
    assert_eq!(
        workspaces_back_to_chat_path("?return_to=%2Fapp%2Fsessions%2Fs%252F1"),
        Some("/app/sessions/s%2F1".to_string())
    );
    assert_eq!(workspaces_back_to_chat_path("?return_to=%2Fapp%2F"), None);
}

#[test]
fn shared_host_initializer_marks_state_once() {
    let mut state = WorkspacesPageState::new();
    state.initialize_workspaces_page_host();
    assert!(state.checked);
    assert!(!state.loading);
    state.loading = true;
    state.initialize_workspaces_page_host();
    assert!(state.loading);
}

#[test]
fn spawn_workspace_reload_clears_errors_and_loading() {
    let mut state = WorkspacesPageState::new();
    state.error = Some("old error".to_string());
    store_workspace_sessions(&mut state.workspace_sessions, "workspace-1".to_string(), Vec::new());
    state.begin_workspace_reload();
    let workspaces = state.workspaces.clone();
    state.finish_workspace_reload(Ok(workspaces));
    assert!(!state.loading);
    assert!(state.error.is_none());
    assert!(state.workspace_sessions.is_empty());
}

#[test]
fn begin_workspace_reload_resets_loading_error_and_sessions() {
    let mut state = WorkspacesPageState::new();
    state.loading = false;
    state.error = Some("old error".to_string());
    store_workspace_sessions(&mut state.workspace_sessions, "workspace-1".to_string(), Vec::new());
    state.begin_workspace_reload();
    assert!(state.loading);
    assert!(state.error.is_none());
    assert!(state.workspace_sessions.is_empty());
}

#[test]
fn fail_workspace_reload_sets_error_and_clears_loading() {
    let mut state = WorkspacesPageState::new();
    state.loading = true;
    state.finish_workspace_reload(Err("reload failed".to_string()));
    assert!(!state.loading);
    assert_eq!(state.error, Some("reload failed".to_string()));
}

#[test]
fn back_to_chat_path_from_location_returns_none_without_browser() {
    assert_eq!(workspaces_back_to_chat_path_from_location(), None);
}

#[test]
fn auth_check_loads_workspaces_only_when_signed_in() {
    let mut state = WorkspacesPageState::new();
    assert!(state.begin_auth_check());
    assert!(!state.begin_auth_check());
    assert!(state.finish_auth_check(Ok(WorkspacesRouteAccess::SignedIn)));
    assert!(state.loading);
    let mut other = WorkspacesPageState::new();
    assert!(!other.finish_auth_check(Ok(WorkspacesRouteAccess::SignInRequired)));
    assert!(!other.loading);
}

#[test]
fn workspace_edit_save_and_delete_follow_the_backend() {
    let mut state = WorkspacesPageState::new();
    state.begin_workspace_edit("w_1", "Alpha");
    assert_eq!(state.edit_name_draft, "Alpha");
    state.edit_name_draft = "  Beta  ".to_string();
    assert_eq!(state.begin_workspace_save("w_1"), Some("Beta".to_string()));
    assert!(state.begin_workspace_save("w_1").is_none());
    state.finish_workspace_save(Ok(()));
    assert!(state.editing_workspace_id.is_none());
    assert_eq!(state.notice, Some("Workspace updated.".to_string()));

    state.begin_workspace_edit("w_1", "");
    assert!(state.begin_workspace_save("w_1").is_none());
    assert_eq!(state.error, Some("Workspace name cannot be empty.".to_string()));
    state.cancel_workspace_edit("w_2");
    assert_eq!(state.editing_workspace_id, Some("w_1".to_string()));
    state.cancel_workspace_edit("w_1");
    assert!(state.editing_workspace_id.is_none());

    assert!(state.begin_workspace_delete("w_1"));
    assert!(!state.begin_workspace_delete("w_2"));
    state.finish_workspace_delete(Err("in use".to_string()));
    assert!(state.deleting_workspace_id.is_none());
    assert_eq!(state.error, Some("in use".to_string()));
}

#[test]
fn agent_settings_open_resets_add_profile_form() {
    let mut state = WorkspacesPageState::new();
    state.agent_settings_profile_name = "Old profile".to_string();
    state.agent_settings_command = "opencode acp".to_string();
    state.reset_agent_settings_form();
    assert!(state.agent_settings_profile_name.is_empty());
    assert!(state.agent_settings_command.is_empty());
}

#[test]
fn agent_settings_open_handler_shows_blank_add_form() {
    let mut state = WorkspacesPageState::new();
    state.error = Some("old error".to_string());
    state.agent_settings_command = "opencode acp".to_string();
    state.agent_settings_open_handler();
    assert!(state.show_agent_settings);
    assert!(state.error.is_none());
    assert!(state.agent_settings_command.is_empty());
}

#[test]
fn host_agent_settings_submit_handler_closes_modal() {
    let mut state = WorkspacesPageState::new();
    state.show_agent_settings = true;
    state.close_agent_settings();
    assert!(!state.show_agent_settings);
}

#[test]
fn agent_settings_submit_stores_the_profile_for_admins_only() {
    let mut state = WorkspacesPageState::new();
    state.show_agent_settings = true;
    state.agent_settings_profile_name = "Gemini ACP".to_string();
    state.agent_settings_command = "gemini acp --port ${ACP_PORT}".to_string();
    assert!(state.begin_agent_settings_submit(false).is_none());
    let request = state.begin_agent_settings_submit(true);
    assert_eq!(
        request,
        Some(("Gemini ACP".to_string(), "gemini acp --port ${ACP_PORT}".to_string()))
    );
    assert!(state.begin_agent_settings_submit(true).is_none());
    let profile = AgentProfile {
        id: "gemini".to_string(),
        name: "Gemini ACP".to_string(),
        mode: AgentProfileMode::Chroot,
        command_argv: vec!["gemini".to_string(), "acp".to_string()],
    };
    state.agent_profiles = vec![profile.clone()];
    state.finish_agent_settings_submit(Ok(profile));
    assert_eq!(state.agent_profiles.len(), 1);
    assert!(!state.show_agent_settings);
    assert!(!state.agent_settings_saving);
    assert_eq!(state.notice, Some("ACP profile saved.".to_string()));
}
