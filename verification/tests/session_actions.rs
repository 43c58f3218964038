use acp_web_frontend::auth_page::HomeRouteTarget;
use acp_web_frontend::contracts::{
    CompletionCandidate, CompletionKind, ConversationMessage, MessageRole, PermissionDecision,
    PermissionRequest, SessionListItem, SessionSnapshot, SessionStatus,
};
use acp_web_frontend::lifecycle::{SessionLifecycle, TurnState};
use acp_web_frontend::session_actions::{
    available_slash_commands_detail, home_target_path, next_session_destination,
    permission_resolution_detail, permission_resolution_turn_state, remove_session_from_list,
    rename_session_in_list, session_load_failure_lifecycle, should_open_session_stream,
    CancelOutcome,
};
use acp_web_frontend::session_state::SessionState;
use chrono::{TimeZone, Utc};

fn list_item(id: &str, title: &str) -> SessionListItem {
    SessionListItem {
        id: id.to_string(),
        title: title.to_string(),
        status: SessionStatus::Active,
        last_activity_at: Utc.with_ymd_and_hms(2026, 4, 17, 1, 0, 0).unwrap().timestamp(),
    }
}

fn permission(id: &str) -> PermissionRequest {
    PermissionRequest { request_id: id.to_string(), summary: format!("Permission for {id}") }
}

fn candidate(label: &str) -> CompletionCandidate {
    CompletionCandidate {
        label: label.to_string(),
        insert_text: label.to_string(),
        detail: "detail".to_string(),
        kind: CompletionKind::Command,
    }
}

#[test]
fn rename_session_callback_handles_blank_and_non_blank_titles_on_host() {
    let mut state = SessionState::new();
    state.list.rename_draft = "Draft".to_string();
    state.list.renaming_id = Some("session-1".to_string());
    assert_eq!(state.begin_rename_session("session-1", "   "), None);
    assert!(state.list.rename_draft.is_empty());
    assert!(state.list.renaming_id.is_none());

    assert_eq!(state.begin_rename_session("session-2", " New title "), Some("New title".to_string()));
    assert_eq!(state.list.saving_rename_id, Some("session-2".to_string()));
    assert_eq!(state.list.error, None);
}

#[test]
fn rename_session_finishes_with_new_title_or_restores_draft() {
    let mut state = SessionState::new();
    state.list.items = vec![list_item("session-1", "Old")];
    state.begin_rename_session("session-1", "New");
    state.finish_rename_session("session-1", "New", Ok("New".to_string()));
    assert_eq!(state.list.items[0].title, "New");
    assert!(state.list.saving_rename_id.is_none());
    assert!(state.list.renaming_id.is_none());

    state.begin_rename_session("session-1", "Again");
    state.finish_rename_session("session-1", "Again", Err("rename failed".to_string()));
    assert_eq!(state.list.error, Some("rename failed".to_string()));
    assert_eq!(state.list.rename_draft, "Again");
    assert_eq!(state.list.renaming_id, Some("session-1".to_string()));
    assert!(state.list.saving_rename_id.is_none());
}

#[test]
fn delete_session_callback_respects_blockers_on_host() {
    let mut state = SessionState::new();
    state.turn_state = TurnState::AwaitingReply;
    if !state.delete_session_is_blocked("session-1", "session-1", true) {
        state.begin_delete_session("session-1");
    }
    assert!(state.list.deleting_id.is_none());

    state.turn_state = TurnState::Idle;
    if !state.delete_session_is_blocked("session-2", "session-1", false) {
        state.begin_delete_session("session-2");
    }
    assert_eq!(state.list.deleting_id, Some("session-2".to_string()));
    assert_eq!(state.list.error, None);
}

#[test]
fn delete_session_blocked_checks_pending_deletes_and_busy_current_session() {
    let mut state = SessionState::new();
    assert!(!state.delete_session_is_blocked("session-2", "session-1", false));

    state.list.deleting_id = Some("session-3".to_string());
    assert!(state.delete_session_is_blocked("session-2", "session-1", false));

    state.list.deleting_id = None;
    state.turn_state = TurnState::AwaitingReply;
    assert!(state.delete_session_is_blocked("session-1", "session-1", true));
    assert!(!state.delete_session_is_blocked("session-2", "session-1", true));
}

#[test]
fn session_list_helpers_update_errors_and_items() {
    let mut state = SessionState::new();
    state.list.items = vec![list_item("session-1", "Old"), list_item("session-2", "Keep")];
    state.list.deleting_id = Some("session-1".to_string());
    state.pending_permissions = vec![permission("perm")];
    state.turn_state = TurnState::AwaitingPermission;

    state.handle_current_session_delete_navigation_error("nav failed".to_string());
    assert_eq!(state.session_status, SessionLifecycle::Unavailable);
    assert_eq!(state.turn_state, TurnState::Idle);
    assert_eq!(state.list.error, Some("nav failed".to_string()));
    assert!(state.list.deleting_id.is_none());
    assert!(state.pending_permissions.is_empty());

    state.handle_delete_session_error("delete failed".to_string());
    assert_eq!(state.list.error, Some("delete failed".to_string()));

    let mut items = vec![list_item("session-1", "Old"), list_item("session-2", "Keep")];
    remove_session_from_list(&mut items, "session-1");
    rename_session_in_list(&mut items, "session-2", "Renamed".to_string());
    assert_eq!(items.len(), 1);
    assert_eq!(items[0].title, "Renamed");
}

#[test]
fn deleted_session_leaves_the_list_and_next_destination_follows() {
    let mut state = SessionState::new();
    state.list.items = vec![list_item("s/1", "A"), list_item("s2", "B"), list_item("s/1", "C")];
    state.apply_session_deleted("s/1");
    assert_eq!(state.list.items.len(), 1);
    assert_eq!(state.list.items[0].id, "s2");
    assert_eq!(next_session_destination(&state.list.items), "/app/sessions/s2");
    assert_eq!(next_session_destination(&[list_item("s/1", "A")]), "/app/sessions/s%2F1");
    assert_eq!(next_session_destination(&[]), "/app/");
    state.list.deleting_id = Some("s/1".to_string());
    state.finish_other_session_delete();
    assert!(state.list.deleting_id.is_none());
}

#[test]
fn session_list_answer_sets_items_or_error() {
    let mut state = SessionState::new();
    state.list.error = Some("old".to_string());
    state.apply_session_list(Ok(vec![list_item("s1", "A")]));
    assert!(state.list.loaded);
    assert!(state.list.error.is_none());
    assert_eq!(state.list.items.len(), 1);

    state.apply_session_list(Err("offline".to_string()));
    assert_eq!(state.list.error, Some("offline".to_string()));
    assert_eq!(state.list.items.len(), 1);
}

#[test]
fn slash_completion_updates_or_dismisses_candidates() {
    let mut state = SessionState::new();
    state.update_slash_completion(vec![candidate("/help")]);
    assert_eq!(state.slash_candidates.len(), 1);
    assert_eq!(state.slash_selected_index, 0);

    state.update_slash_completion(Vec::new());
    assert!(state.slash_candidates.is_empty());
    assert_eq!(state.slash_selected_index, 0);
}

#[test]
fn bind_slash_completion_uses_the_current_host_draft() {
    let mut state = SessionState::new();
    state.draft = "/".to_string();
    state.update_slash_completion(vec![candidate("/help")]);
    assert_eq!(state.slash_candidates.len(), 1);
}

#[test]
fn slash_candidate_helpers_skip_invalid_indexes() {
    let mut state = SessionState::new();
    state.draft = "/he".to_string();
    state.slash_candidates = vec![candidate("/help")];

    state.apply_slash_completion_at(99, Some("/help".to_string()));
    assert_eq!(state.draft, "/he");

    state.slash_selected_index = 0;
    state.apply_slash_completion_at(0, Some("/help".to_string()));
    assert_eq!(state.draft, "/help");

    state.dismiss_slash_palette();
    assert_eq!(state.slash_selected_index, 0);
    assert!(state.slash_candidates.is_empty());
}

#[test]
fn slash_submit_records_success_and_error_activity_messages() {
    let mut state = SessionState::new();
    state.draft = "/help".to_string();
    state.accept_slash_command();
    state.run_help_slash_command(vec![candidate("/help")]);
    assert!(state.action_error.is_none());
    assert!(state.draft.is_empty());
    assert_eq!(state.entries.len(), 1);
    assert!(state.entries[0].text.contains("Available slash commands"));

    state.reject_slash_command("Unknown slash command /quit. Use the session list to leave.");
    assert_eq!(state.entries.len(), 2);
    assert!(state.entries[1].text.contains("Use the session list"));
    assert_ne!(state.entries[0].id, state.entries[1].id);
}

#[test]
fn host_submit_callback_updates_turn_state_for_prompts() {
    let mut state = SessionState::new();
    state.action_error = Some("old".to_string());
    state.slash_candidates = vec![candidate("/help")];
    state.begin_prompt_submission();
    assert_eq!(state.turn_state, TurnState::Submitting);
    assert!(state.action_error.is_none());
    assert!(state.slash_candidates.is_empty());
}

#[test]
fn host_submit_callback_routes_slash_prompts_to_local_actions() {
    let mut state = SessionState::new();
    state.accept_slash_command();
    state.run_help_slash_command(vec![candidate("/help")]);
    assert_eq!(state.turn_state, TurnState::Idle);
    assert_eq!(state.entries.len(), 1);
    assert!(state.entries[0].text.contains("Available slash commands"));
}

#[test]
fn prompt_submission_answer_awaits_reply_or_shows_error() {
    let mut state = SessionState::new();
    state.draft = "hello".to_string();
    state.begin_prompt_submission();
    state.finish_prompt_submission(Ok(()));
    assert!(state.draft.is_empty());
    assert_eq!(state.turn_state, TurnState::AwaitingReply);

    state.draft = "again".to_string();
    state.begin_prompt_submission();
    state.finish_prompt_submission(Err("send failed".to_string()));
    assert_eq!(state.draft, "again");
    assert_eq!(state.turn_state, TurnState::Idle);
    assert_eq!(state.action_error, Some("send failed".to_string()));
}

#[test]
fn slash_candidate_application_skips_completions_that_do_not_change_the_draft() {
    let mut state = SessionState::new();
    state.draft = "/help".to_string();
    state.slash_candidates = vec![candidate("/help")];
    state.apply_slash_completion_at(0, None);
    assert_eq!(state.draft, "/help");
    assert_eq!(state.slash_selected_index, 0);
}

#[test]
fn slash_candidate_application_ignores_drafts_without_a_completion_prefix() {
    let mut state = SessionState::new();
    state.draft = "hello".to_string();
    state.slash_candidates = vec![candidate("/help")];
    state.apply_slash_completion_at(0, None);
    assert_eq!(state.draft, "hello");
}

#[test]
fn available_slash_commands_detail_mentions_palette_and_controls() {
    assert_eq!(available_slash_commands_detail(&[]), "No browser slash commands are available.");
    assert!(available_slash_commands_detail(&[candidate("/help")]).contains("composer"));
}

#[test]
fn permission_resolution_helpers_match_decisions() {
    assert_eq!(permission_resolution_turn_state(&PermissionDecision::Approve), TurnState::AwaitingReply);
    assert_eq!(permission_resolution_turn_state(&PermissionDecision::Deny), TurnState::Idle);
    assert_eq!(permission_resolution_detail("perm-1", &PermissionDecision::Approve), "perm-1 approved.");
    assert_eq!(permission_resolution_detail("perm-1", &PermissionDecision::Deny), "perm-1 denied.");
}

#[test]
fn permission_resolution_success_removes_requests_and_records_activity() {
    let mut state = SessionState::new();
    state.pending_permissions = vec![permission("perm-1"), permission("perm-2")];
    state.apply_permission_resolution_success("perm-1", &PermissionDecision::Approve);
    assert_eq!(state.pending_permissions.len(), 1);
    assert_eq!(state.pending_permissions[0].request_id, "perm-2");
    assert_eq!(state.turn_state, TurnState::AwaitingReply);
    assert_eq!(state.entries.len(), 1);
    assert!(state.entries[0].text.contains("perm-1 approved."));
}

#[test]
fn permission_callbacks_update_host_busy_and_cancel_state() {
    let mut state = SessionState::new();
    state.action_error = Some("old".to_string());
    state.begin_permission_resolution();
    assert!(state.pending_action_busy);
    assert!(state.action_error.is_none());

    state.pending_action_busy = false;
    state.action_error = Some("old".to_string());
    state.begin_permission_resolution();
    assert!(state.pending_action_busy);
    assert!(state.action_error.is_none());

    state.pending_action_busy = false;
    state.turn_state = TurnState::AwaitingReply;
    state.begin_cancel_turn();
    assert!(state.pending_action_busy);
    assert_eq!(state.turn_state, TurnState::Cancelling);
}

#[test]
fn begin_cancel_turn_preserves_the_previous_state() {
    let mut state = SessionState::new();
    state.turn_state = TurnState::AwaitingPermission;
    state.action_error = Some("old".to_string());
    let previous = state.begin_cancel_turn();
    assert_eq!(previous, TurnState::AwaitingPermission);
    assert!(state.pending_action_busy);
    assert_eq!(state.turn_state, TurnState::Cancelling);
    assert!(state.action_error.is_none());
}

#[test]
fn cancel_outcomes_clear_restore_or_report() {
    let mut state = SessionState::new();
    state.turn_state = TurnState::AwaitingReply;
    state.pending_permissions = vec![permission("perm-1")];
    let previous = state.begin_cancel_turn();
    state.finish_cancel_turn(CancelOutcome::Cancelled, previous);
    assert_eq!(state.turn_state, TurnState::Idle);
    assert!(state.pending_permissions.is_empty());
    assert!(!state.pending_action_busy);
    assert!(state.entries[0].text.contains("Cancel requested for the running turn."));

    state.turn_state = TurnState::AwaitingReply;
    let previous = state.begin_cancel_turn();
    state.finish_cancel_turn(CancelOutcome::NotRunning, previous);
    assert_eq!(state.turn_state, TurnState::AwaitingReply);
    assert_eq!(state.action_error, Some("No running turn is active.".to_string()));

    let previous = state.begin_cancel_turn();
    state.finish_cancel_turn(CancelOutcome::Failed("boom".to_string()), previous);
    assert_eq!(state.turn_state, TurnState::AwaitingReply);
    assert_eq!(state.action_error, Some("boom".to_string()));
    assert!(!state.pending_action_busy);
}

#[test]
fn permission_resolution_failure_keeps_the_request() {
    let mut state = SessionState::new();
    state.pending_permissions = vec![permission("perm-1")];
    state.begin_permission_resolution();
    state.finish_permission_resolution("perm-1", &PermissionDecision::Deny, Err("no".to_string()));
    assert_eq!(state.pending_permissions.len(), 1);
    assert_eq!(state.action_error, Some("no".to_string()));
    assert!(!state.pending_action_busy);
    state.begin_permission_resolution();
    state.finish_permission_resolution("perm-1", &PermissionDecision::Deny, Ok(()));
    assert!(state.pending_permissions.is_empty());
    assert_eq!(state.turn_state, TurnState::Idle);
}

#[test]
fn home_targets_and_load_outcomes_choose_the_next_step() {
    assert_eq!(home_target_path(HomeRouteTarget::Register), Some("/app/register/"));
    assert_eq!(home_target_path(HomeRouteTarget::SignIn), Some("/app/sign-in/"));
    assert_eq!(home_target_path(HomeRouteTarget::PrepareSession), None);
    assert_eq!(session_load_failure_lifecycle(true), SessionLifecycle::Unavailable);
    assert_eq!(session_load_failure_lifecycle(false), SessionLifecycle::Error);
    assert!(should_open_session_stream(SessionStatus::Active));
    assert!(!should_open_session_stream(SessionStatus::Closed));
}

#[test]
fn loaded_session_replaces_transcript_and_reports_whether_to_forget_the_prepared_one() {
    let snapshot = |status: SessionStatus, role: MessageRole| SessionSnapshot {
        id: "s1".to_string(),
        title: "t".to_string(),
        status,
        latest_sequence: 1,
        messages: vec![ConversationMessage {
            id: "m1".to_string(),
            role,
            text: "hi".to_string(),
            created_at: 0,
        }],
        pending_permissions: vec![permission("p1")],
    };
    let mut state = SessionState::new();
    let clear = state.apply_loaded_session(
        snapshot(SessionStatus::Active, MessageRole::Assistant),
        TurnState::AwaitingPermission,
    );
    assert!(!clear);
    assert_eq!(state.session_status, SessionLifecycle::Active);
    assert_eq!(state.turn_state, TurnState::AwaitingPermission);
    assert_eq!(state.pending_permissions.len(), 1);
    assert_eq!(state.entries.len(), 1);
    assert!(state.apply_loaded_session(snapshot(SessionStatus::Active, MessageRole::User), TurnState::Idle));
    assert!(state.apply_loaded_session(snapshot(SessionStatus::Closed, MessageRole::Assistant), TurnState::Idle));

    let mut failed = SessionState::new();
    failed.apply_bootstrap_failure_signals("gone".to_string(), SessionLifecycle::Unavailable);
    assert_eq!(failed.session_status, SessionLifecycle::Unavailable);
    assert_eq!(failed.connection_error, Some("gone".to_string()));
    assert_eq!(failed.entries.len(), 1);
    assert_eq!(failed.entries[0].id, "activity-connection-1");
}
