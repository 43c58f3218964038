//! The records exchanged with the backend, as plain values.
use vstd::prelude::*;

verus! {

/// Whether a session is still running.
#[derive(Clone, Copy, Debug, PartialEq, Eq, Structural)]
pub enum SessionStatus {
    Active,
    Closed,
}

/// Who wrote a conversation message.
#[derive(Clone, Copy, Debug, PartialEq, Eq, Structural)]
pub enum MessageRole {
    User,
    Assistant,
}

/// A message of a conversation; `created_at` is in seconds since the Unix
/// epoch (UTC).
#[derive(Clone, Debug, PartialEq, Eq)]
pub struct ConversationMessage {
    pub id: String,
    pub role: MessageRole,
    pub text: String,
    pub created_at: i64,
}

/// The abstract value of a [`ConversationMessage`].
pub ghost struct MessageView {
    pub id: Seq<char>,
    pub role: MessageRole,
    pub text: Seq<char>,
}

impl View for ConversationMessage {
    type V = MessageView;

    open spec fn view(&self) -> MessageView {
        MessageView { id: self.id@, role: self.role, text: self.text@ }
    }
}

/// A request of the agent for the user's permission.
#[derive(Clone, Debug, PartialEq, Eq)]
pub struct PermissionRequest {
    pub request_id: String,
    pub summary: String,
}

/// The abstract value of a [`PermissionRequest`].
pub ghost struct PermissionView {
    pub request_id: Seq<char>,
    pub summary: Seq<char>,
}

impl View for PermissionRequest {
    type V = PermissionView;

    open spec fn view(&self) -> PermissionView {
        PermissionView { request_id: self.request_id@, summary: self.summary@ }
    }
}

/// The abstract values of a sequence of permission requests.
pub open spec fn permissions_view(s: Seq<PermissionRequest>) -> Seq<PermissionView> {
    s.map_values(|p: PermissionRequest| p@)
}

/// The user's answer to a permission request.
#[derive(Clone, Copy, Debug, PartialEq, Eq, Structural)]
pub enum PermissionDecision {
    Approve,
    Deny,
}

/// A session as the backend describes it when the page loads it.
#[derive(Clone, Debug, PartialEq, Eq)]
pub struct SessionSnapshot {
    pub id: String,
    pub title: String,
    pub status: SessionStatus,
    pub latest_sequence: u64,
    pub messages: Vec<ConversationMessage>,
    pub pending_permissions: Vec<PermissionRequest>,
}

/// A session in the list of the user's sessions; `last_activity_at` is in
/// seconds since the Unix epoch (UTC).
#[derive(Clone, Debug, PartialEq, Eq)]
pub struct SessionListItem {
    pub id: String,
    pub title: String,
    pub status: SessionStatus,
    pub last_activity_at: i64,
}

/// The abstract value of a [`SessionListItem`].
pub ghost struct SessionItemView {
    pub id: Seq<char>,
    pub title: Seq<char>,
    pub status: SessionStatus,
    pub last_activity_at: int,
}

impl View for SessionListItem {
    type V = SessionItemView;

    open spec fn view(&self) -> SessionItemView {
        SessionItemView {
            id: self.id@,
            title: self.title@,
            status: self.status,
            last_activity_at: self.last_activity_at as int,
        }
    }
}

/// The abstract values of a sequence of session list items.
pub open spec fn session_items_view(s: Seq<SessionListItem>) -> Seq<SessionItemView> {
    s.map_values(|item: SessionListItem| item@)
}

/// What a completion candidate completes.
#[derive(Clone, Copy, Debug, PartialEq, Eq, Structural)]
pub enum CompletionKind {
    Command,
}

/// A candidate of the slash-command completion.
#[derive(Clone, Debug, PartialEq, Eq)]
pub struct CompletionCandidate {
    pub label: String,
    pub insert_text: String,
    pub detail: String,
    pub kind: CompletionKind,
}

/// What a server-sent event of a session stream carries.
#[derive(Clone, Debug, PartialEq, Eq)]
pub enum StreamEventPayload {
    SessionSnapshot { session: SessionSnapshot },
    ConversationMessage { message: ConversationMessage },
    PermissionRequested { request: PermissionRequest },
    SessionClosed { session_id: String, reason: String },
    Status { message: String },
}

/// A server-sent event of a session stream, with its sequence number.
#[derive(Clone, Debug, PartialEq, Eq)]
pub struct StreamEvent {
    pub sequence: u64,
    pub payload: StreamEventPayload,
}

/// A local user account; `created_at` is in seconds since the Unix epoch
/// (UTC).
#[derive(Clone, Debug, PartialEq, Eq)]
pub struct LocalAccount {
    pub user_id: String,
    pub username: String,
    pub is_admin: bool,
    pub created_at: i64,
}

/// How an agent profile launches its agent.
#[derive(Clone, Copy, Debug, PartialEq, Eq, Structural)]
pub enum AgentProfileMode {
    Host,
    Chroot,
}

/// A launch profile of an ACP agent.
#[derive(Clone, Debug, PartialEq, Eq)]
pub struct AgentProfile {
    pub id: String,
    pub name: String,
    pub mode: AgentProfileMode,
    pub command_argv: Vec<String>,
}

/// A workspace; `created_at` is in seconds since the Unix epoch (UTC).
#[derive(Clone, Debug, PartialEq, Eq)]
pub struct WorkspaceSummary {
    pub workspace_id: String,
    pub name: String,
    pub upstream_url: Option<String>,
    pub status: String,
    pub created_at: i64,
}

/// A branch of a workspace's repository.
#[derive(Clone, Debug, PartialEq, Eq)]
pub struct WorkspaceBranch {
    pub name: String,
    pub ref_name: String,
}

} // verus!
