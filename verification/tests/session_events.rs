use acp_web_frontend::contracts::{
    ConversationMessage, MessageRole, PermissionRequest, SessionListItem, SessionSnapshot,
    SessionStatus, StreamEvent, StreamEventPayload,
};
use acp_web_frontend::entries::SessionEntryRole;
use acp_web_frontend::lifecycle::{SessionLifecycle, TurnState, CLOSED_SESSION_MESSAGE};
use acp_web_frontend::session_state::{
    push_status_entry, SessionState, StreamAction, StreamItem, TurnRules,
};

fn rules(release: bool) -> TurnRules {
    TurnRules {
        apply_snapshot_turn_state: false,
        snapshot_turn_state: TurnState::Idle,
        release_turn_state: release,
    }
}

fn event(sequence: u64, payload: StreamEventPayload) -> StreamEvent {
    StreamEvent { sequence, payload }
}

fn assistant_message(id: &str, text: &str) -> ConversationMessage {
    ConversationMessage {
        id: id.to_string(),
        role: MessageRole::Assistant,
        text: text.to_string(),
        created_at: 1_776_387_600,
    }
}

fn item(id: &str) -> SessionListItem {
    SessionListItem {
        id: id.to_string(),
        title: id.to_string(),
        status: SessionStatus::Active,
        last_activity_at: 1_776_387_600,
    }
}

#[test]
fn assistant_reply_is_appended_once_and_releases_the_turn() {
    let mut state = SessionState::new();
    state.turn_state = TurnState::AwaitingReply;
    let reply = event(3, StreamEventPayload::ConversationMessage { message: assistant_message("m1", "hi") });
    state.handle_sse_event(reply.clone(), rules(true));
    assert_eq!(state.entries.len(), 1);
    assert_eq!(state.entries[0].role, SessionEntryRole::Assistant);
    assert_eq!(state.turn_state, TurnState::Idle);

    state.turn_state = TurnState::AwaitingReply;
    state.handle_sse_event(reply, rules(true));
    assert_eq!(state.entries.len(), 1);
    assert_eq!(state.turn_state, TurnState::AwaitingReply);
}

#[test]
fn reply_keeps_the_turn_when_the_rules_do_not_release_it() {
    let mut state = SessionState::new();
    state.turn_state = TurnState::AwaitingReply;
    state.handle_sse_event(
        event(1, StreamEventPayload::ConversationMessage { message: assistant_message("m1", "hi") }),
        rules(false),
    );
    assert_eq!(state.turn_state, TurnState::AwaitingReply);
}

#[test]
fn permission_request_is_pending_once_and_awaits_the_user() {
    let mut state = SessionState::new();
    let request = PermissionRequest {
        request_id: "req-1".to_string(),
        summary: "read README.md".to_string(),
    };
    let ask = event(4, StreamEventPayload::PermissionRequested { request });
    state.handle_sse_event(ask.clone(), rules(false));
    state.handle_sse_event(ask, rules(false));
    assert_eq!(state.pending_permissions.len(), 1);
    assert_eq!(state.turn_state, TurnState::AwaitingPermission);
    assert_eq!(state.entries.len(), 1);
    assert_eq!(state.entries[0].id, "activity-permission-req-1");
    assert_eq!(state.entries[0].text, "Permission required\nread README.md");
}

#[test]
fn session_closed_event_closes_the_session_once() {
    let mut state = SessionState::new();
    state.session_status = SessionLifecycle::Active;
    state.turn_state = TurnState::AwaitingReply;
    state.pending_action_busy = true;
    state.list.items = vec![item("s1"), item("s2")];
    let closed = event(
        9,
        StreamEventPayload::SessionClosed {
            session_id: "s2".to_string(),
            reason: "closed by user".to_string(),
        },
    );
    state.handle_sse_event(closed.clone(), rules(false));
    state.handle_sse_event(closed, rules(false));
    assert_eq!(state.session_status, SessionLifecycle::Closed);
    assert_eq!(state.turn_state, TurnState::Idle);
    assert!(!state.pending_action_busy);
    assert_eq!(state.list.items[0].status, SessionStatus::Active);
    assert_eq!(state.list.items[1].status, SessionStatus::Closed);
    assert_eq!(state.entries.len(), 1);
    assert_eq!(state.entries[0].id, "status-9");
    assert_eq!(state.entries[0].text, CLOSED_SESSION_MESSAGE);
}

#[test]
fn status_updates_record_non_blank_messages_by_sequence() {
    let mut state = SessionState::new();
    state.handle_sse_event(event(12, StreamEventPayload::Status { message: "   ".to_string() }), rules(false));
    assert!(state.entries.is_empty());
    state.turn_state = TurnState::AwaitingReply;
    state.handle_sse_event(event(12, StreamEventPayload::Status { message: "done".to_string() }), rules(true));
    assert_eq!(state.entries.len(), 1);
    assert_eq!(state.entries[0].id, "status-12");
    assert_eq!(state.turn_state, TurnState::Idle);

    let mut entries = Vec::new();
    push_status_entry(&mut entries, 0, "ready");
    push_status_entry(&mut entries, 0, "ready");
    assert_eq!(entries.len(), 1);
    assert_eq!(entries[0].id, "status-0");
}

#[test]
fn snapshot_event_replaces_transcript_and_permissions() {
    let mut state = SessionState::new();
    state.turn_state = TurnState::AwaitingReply;
    let snapshot = SessionSnapshot {
        id: "s1".to_string(),
        title: "t".to_string(),
        status: SessionStatus::Active,
        latest_sequence: 2,
        messages: vec![assistant_message("m1", "hello")],
        pending_permissions: vec![],
    };
    let apply = TurnRules {
        apply_snapshot_turn_state: true,
        snapshot_turn_state: TurnState::Idle,
        release_turn_state: false,
    };
    state.handle_sse_event(event(2, StreamEventPayload::SessionSnapshot { session: snapshot }), apply);
    assert_eq!(state.session_status, SessionLifecycle::Active);
    assert_eq!(state.turn_state, TurnState::Idle);
    assert_eq!(state.entries.len(), 1);
    assert_eq!(state.entries[0].text, "hello");
}

#[test]
fn tool_activity_ids_count_up() {
    let mut state = SessionState::new();
    assert_eq!(state.next_tool_activity_id("slash"), "slash-1");
    assert_eq!(state.next_tool_activity_id("help"), "help-2");
    assert_eq!(state.tool_activity_serial, 2);
}

#[test]
fn stream_items_update_connection_state_and_decide_whether_to_listen() {
    let mut state = SessionState::new();
    state.session_status = SessionLifecycle::Active;
    assert_eq!(state.handle_stream_item(StreamItem::Disconnected, rules(false)), StreamAction::Continue);
    assert_eq!(
        state.connection_error,
        Some("Event stream disconnected; reconnecting...".to_string())
    );

    let status = event(1, StreamEventPayload::Status { message: "working".to_string() });
    assert_eq!(state.handle_stream_item(StreamItem::Event(status), rules(false)), StreamAction::Continue);
    assert!(state.connection_error.is_none());

    let closed = event(
        2,
        StreamEventPayload::SessionClosed { session_id: "s1".to_string(), reason: " timeout ".to_string() },
    );
    assert_eq!(state.handle_stream_item(StreamItem::Event(closed), rules(false)), StreamAction::Close);
    assert_eq!(state.entries.last().unwrap().text, "timeout");
    assert_eq!(state.handle_stream_item(StreamItem::Disconnected, rules(false)), StreamAction::Close);
    assert!(state.connection_error.is_none());

    let mut other = SessionState::new();
    assert_eq!(
        other.handle_stream_item(StreamItem::ParseError("bad event".to_string()), rules(false)),
        StreamAction::Close
    );
    assert_eq!(other.connection_error, Some("bad event".to_string()));
    other.handle_stream_open_failure("no stream".to_string());
    assert_eq!(other.connection_error, Some("no stream".to_string()));
}
