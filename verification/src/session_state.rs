//! The state of a session page and how it changes as the user acts and the
//! backend reports.
use vstd::prelude::*;

use crate::activity::{tool_activity_text, tool_activity_text_spec};
use crate::contracts::{
    permissions_view, session_items_view, CompletionCandidate, ConversationMessage, MessageRole,
    PermissionRequest, PermissionView, SessionItemView, SessionListItem, SessionSnapshot,
    SessionStatus, StreamEvent, StreamEventPayload,
};
use crate::entries::{
    bootstrap_entries, entries_view, lifecycle_of, message_entry, session_bootstrap_from_snapshot,
    status_entry, EntryView, SessionEntry, SessionEntryRole,
};
use crate::lifecycle::{session_end_message, session_end_message_spec};
use crate::lifecycle::{SessionLifecycle, TurnState};
use crate::text::{chars_of, concat_str, copy_string, decimal, decimal_string, str_eq, trim, trim_chars};

verus! {

/// The abstract value of an optional string.
pub open spec fn opt_view(o: Option<String>) -> Option<Seq<char>> {
    match o {
        Some(s) => Some(s@),
        None => None,
    }
}

/// The sidebar's list of sessions and its editing state.
pub struct SessionListState {
    pub items: Vec<SessionListItem>,
    pub loaded: bool,
    pub error: Option<String>,
    pub deleting_id: Option<String>,
    pub renaming_id: Option<String>,
    pub saving_rename_id: Option<String>,
    pub rename_draft: String,
}

/// The abstract value of a [`SessionListState`].
pub ghost struct SessionListView {
    pub items: Seq<SessionItemView>,
    pub loaded: bool,
    pub error: Option<Seq<char>>,
    pub deleting_id: Option<Seq<char>>,
    pub renaming_id: Option<Seq<char>>,
    pub saving_rename_id: Option<Seq<char>>,
    pub rename_draft: Seq<char>,
}

impl View for SessionListState {
    type V = SessionListView;

    open spec fn view(&self) -> SessionListView {
        SessionListView {
            items: session_items_view(self.items@),
            loaded: self.loaded,
            error: opt_view(self.error),
            deleting_id: opt_view(self.deleting_id),
            renaming_id: opt_view(self.renaming_id),
            saving_rename_id: opt_view(self.saving_rename_id),
            rename_draft: self.rename_draft@,
        }
    }
}

/// Everything a session page keeps about the session it shows.
pub struct SessionState {
    pub entries: Vec<SessionEntry>,
    pub pending_permissions: Vec<PermissionRequest>,
    pub action_error: Option<String>,
    pub connection_error: Option<String>,
    pub session_status: SessionLifecycle,
    pub turn_state: TurnState,
    pub pending_action_busy: bool,
    pub draft: String,
    pub slash_candidates: Vec<CompletionCandidate>,
    pub slash_selected_index: usize,
    pub list: SessionListState,
    pub tool_activity_serial: u64,
}

/// The abstract value of a [`SessionState`].
pub ghost struct SessionView {
    pub entries: Seq<EntryView>,
    pub pending_permissions: Seq<PermissionView>,
    pub action_error: Option<Seq<char>>,
    pub connection_error: Option<Seq<char>>,
    pub session_status: SessionLifecycle,
    pub turn_state: TurnState,
    pub pending_action_busy: bool,
    pub draft: Seq<char>,
    pub slash_candidates: Seq<CompletionCandidate>,
    pub slash_selected_index: nat,
    pub list: SessionListView,
    pub tool_activity_serial: nat,
}

impl View for SessionState {
    type V = SessionView;

    open spec fn view(&self) -> SessionView {
        SessionView {
            entries: entries_view(self.entries@),
            pending_permissions: permissions_view(self.pending_permissions@),
            action_error: opt_view(self.action_error),
            connection_error: opt_view(self.connection_error),
            session_status: self.session_status,
            turn_state: self.turn_state,
            pending_action_busy: self.pending_action_busy,
            draft: self.draft@,
            slash_candidates: self.slash_candidates@,
            slash_selected_index: self.slash_selected_index as nat,
            list: self.list@,
            tool_activity_serial: self.tool_activity_serial as nat,
        }
    }
}

impl SessionState {
    /// The state of a session page before anything is loaded.
    pub fn new() -> (state: Self)
        ensures
            state@.entries.len() == 0,
            state@.pending_permissions.len() == 0,
            state@.action_error is None,
            state@.connection_error is None,
            state@.session_status == SessionLifecycle::Loading,
            state@.turn_state == TurnState::Idle,
            !state@.pending_action_busy,
            state@.draft.len() == 0,
            state@.slash_candidates.len() == 0,
            state@.slash_selected_index == 0,
            state@.list.items.len() == 0,
            !state@.list.loaded,
            state@.list.error is None,
            state@.list.deleting_id is None,
            state@.list.renaming_id is None,
            state@.list.saving_rename_id is None,
            state@.list.rename_draft.len() == 0,
            state@.tool_activity_serial == 0,
    {
        SessionState {
            entries: Vec::new(),
            pending_permissions: Vec::new(),
            action_error: None,
            connection_error: None,
            session_status: SessionLifecycle::Loading,
            turn_state: TurnState::Idle,
            pending_action_busy: false,
            draft: String::new(),
            slash_candidates: Vec::new(),
            slash_selected_index: 0,
            list: SessionListState {
                items: Vec::new(),
                loaded: false,
                error: None,
                deleting_id: None,
                renaming_id: None,
                saving_rename_id: None,
                rename_draft: String::new(),
            },
            tool_activity_serial: 0,
        }
    }
}

/// Whether some entry has the given id.
pub open spec fn has_entry_id(s: Seq<EntryView>, id: Seq<char>) -> bool {
    exists|i: int| 0 <= i < s.len() && (#[trigger] s[i]).id == id
}

/// The transcript after recording a status entry with the given id and
/// text: unchanged when the text is blank or an entry has that id already.
pub open spec fn with_status_entry(s: Seq<EntryView>, id: Seq<char>, text: Seq<char>) -> Seq<
    EntryView,
> {
    if trim(text).len() == 0 || has_entry_id(s, id) {
        s
    } else {
        s.push(status_entry(id, text))
    }
}

/// The id of the status entry recorded for a stream event.
pub open spec fn status_entry_id(sequence: nat) -> Seq<char> {
    "status-"@ + decimal(sequence)
}

/// Whether some entry of `entries` has the id `id`.
pub fn entries_contain_id(entries: &Vec<SessionEntry>, id: &str) -> (r: bool)
    ensures
        r == has_entry_id(entries_view(entries@), id@),
{
    let mut i: usize = 0;
    while i < entries.len()
        invariant
            i <= entries.len(),
            forall|j: int| 0 <= j < i ==> (#[trigger] entries@[j]).id@ != id@,
        decreases entries.len() - i,
    {
        if str_eq(entries[i].id.as_str(), id) {
            assert(entries_view(entries@)[i as int].id == id@);
            return true;
        }
        i = i + 1;
    }
    proof {
        let s = entries_view(entries@);
        assert forall|j: int| 0 <= j < s.len() implies (#[trigger] s[j]).id != id@ by {
            assert(s[j] == entries@[j]@);
        }
    }
    false
}

/// Records a status entry with the given id and text, unless the text is
/// blank or an entry with that id is there already.
pub fn push_activity_entry(entries: &mut Vec<SessionEntry>, id: &str, text: &str)
    ensures
        entries_view(final(entries)@) == with_status_entry(entries_view(old(entries)@), id@, text@),
{
    let text_chars = chars_of(text);
    let trimmed = trim_chars(text_chars.as_slice());
    if trimmed.len() == 0 {
        return ;
    }
    if entries_contain_id(entries, id) {
        return ;
    }
    let ghost before = entries@;
    entries.push(SessionEntry::status(id, text));
    assert(entries_view(entries@) =~= entries_view(before).push(status_entry(id@, text@)));
}

/// Records the status entry of the stream event numbered `sequence`.
pub fn push_status_entry(entries: &mut Vec<SessionEntry>, sequence: u64, text: &str)
    ensures
        entries_view(final(entries)@) == with_status_entry(
            entries_view(old(entries)@),
            status_entry_id(sequence as nat),
            text@,
        ),
{
    let number = decimal_string(sequence);
    let id = concat_str("status-", number.as_str());
    push_activity_entry(entries, id.as_str(), text);
}

/// The id of the next tool activity with the given prefix: the prefix, `-`
/// and the serial number after `serial`.
pub open spec fn tool_activity_id(prefix: Seq<char>, serial: nat) -> Seq<char> {
    prefix + "-"@ + decimal(serial + 1)
}

/// The state after recording a tool-activity entry under the id `id`.
pub open spec fn with_tool_activity(
    v: SessionView,
    id: Seq<char>,
    title: Seq<char>,
    detail: Seq<char>,
    commands: Seq<CompletionCandidate>,
) -> SessionView {
    SessionView {
        entries: with_status_entry(
            v.entries,
            "activity-"@ + id,
            tool_activity_text_spec(title, detail, commands),
        ),
        ..v
    }
}

/// The state after recording a tool-activity entry under the next serial
/// number with the given prefix.
pub open spec fn with_next_tool_activity(
    v: SessionView,
    prefix: Seq<char>,
    title: Seq<char>,
    detail: Seq<char>,
    commands: Seq<CompletionCandidate>,
) -> SessionView {
    with_tool_activity(
        SessionView { tool_activity_serial: v.tool_activity_serial + 1, ..v },
        tool_activity_id(prefix, v.tool_activity_serial),
        title,
        detail,
        commands,
    )
}

impl SessionState {
    /// Takes the next tool-activity serial number and returns the id made of
    /// `prefix` and that number.
    pub fn next_tool_activity_id(&mut self, prefix: &str) -> (id: String)
        requires
            old(self).tool_activity_serial < u64::MAX,
        ensures
            id@ == tool_activity_id(prefix@, old(self)@.tool_activity_serial),
            final(self)@ == (SessionView {
                tool_activity_serial: old(self)@.tool_activity_serial + 1,
                ..old(self)@
            }),
    {
        let next = self.tool_activity_serial + 1;
        self.tool_activity_serial = next;
        let number = decimal_string(next);
        let with_dash = concat_str(prefix, "-");
        concat_str(with_dash.as_str(), number.as_str())
    }

    /// Records a tool-activity entry under the id `activity-` + `id`.
    pub fn push_tool_activity_entry(
        &mut self,
        id: &str,
        title: &str,
        detail: &str,
        commands: &[CompletionCandidate],
    )
        ensures
            final(self)@ == with_tool_activity(old(self)@, id@, title@, detail@, commands@),
    {
        let entry_id = concat_str("activity-", id);
        let text = tool_activity_text(title, detail, commands);
        push_activity_entry(&mut self.entries, entry_id.as_str(), text.as_str());
    }

    /// Records a tool-activity entry under the next serial number with the
    /// given prefix.
    pub fn record_tool_activity(
        &mut self,
        prefix: &str,
        title: &str,
        detail: &str,
        commands: &[CompletionCandidate],
    )
        requires
            old(self).tool_activity_serial < u64::MAX,
        ensures
            final(self)@ == with_next_tool_activity(old(self)@, prefix@, title@, detail@, commands@),
    {
        let id = self.next_tool_activity_id(prefix);
        self.push_tool_activity_entry(id.as_str(), title, detail, commands);
    }
}

/// The index of the first item with the given id, or the length of `s`.
pub open spec fn index_of_item(s: Seq<SessionItemView>, id: Seq<char>) -> int
    decreases s.len(),
{
    if s.len() == 0 {
        0
    } else if s[0].id == id {
        0
    } else {
        1 + index_of_item(s.drop_first(), id)
    }
}

proof fn lemma_index_of_item(s: Seq<SessionItemView>, id: Seq<char>)
    ensures
        0 <= index_of_item(s, id) <= s.len(),
        index_of_item(s, id) < s.len() ==> s[index_of_item(s, id)].id == id,
        forall|j: int| 0 <= j < index_of_item(s, id) ==> (#[trigger] s[j]).id != id,
    decreases s.len(),
{
    if s.len() > 0 && s[0].id != id {
        lemma_index_of_item(s.drop_first(), id);
        assert forall|j: int| 0 <= j < index_of_item(s, id) implies (#[trigger] s[j]).id != id by {
            if j > 0 {
                assert(s[j] == s.drop_first()[j - 1]);
            }
        }
    }
}

proof fn lemma_index_of_item_unique(s: Seq<SessionItemView>, id: Seq<char>, k: int)
    requires
        0 <= k <= s.len(),
        k < s.len() ==> s[k].id == id,
        forall|j: int| 0 <= j < k ==> (#[trigger] s[j]).id != id,
    ensures
        index_of_item(s, id) == k,
    decreases s.len(),
{
    if s.len() > 0 && k > 0 {
        assert(s[0].id != id);
        assert forall|j: int| 0 <= j < k - 1 implies (#[trigger] s.drop_first()[j]).id != id by {
            assert(s.drop_first()[j] == s[j + 1]);
        }
        lemma_index_of_item_unique(s.drop_first(), id, k - 1);
    }
}

/// The index of the first item of `items` with the id `id`, or its length.
pub fn find_session_item(items: &Vec<SessionListItem>, id: &str) -> (k: usize)
    ensures
        k == index_of_item(session_items_view(items@), id@),
        k <= items.len(),
{
    let ghost s = session_items_view(items@);
    let mut i: usize = 0;
    while i < items.len()
        invariant
            i <= items.len(),
            s == session_items_view(items@),
            forall|j: int| 0 <= j < i ==> (#[trigger] s[j]).id != id@,
        decreases items.len() - i,
    {
        if str_eq(items[i].id.as_str(), id) {
            proof {
                lemma_index_of_item_unique(s, id@, i as int);
            }
            return i;
        }
        i = i + 1;
    }
    proof {
        lemma_index_of_item_unique(s, id@, i as int);
    }
    i
}

/// The list with the first session of the given id marked closed.
pub open spec fn mark_closed_spec(s: Seq<SessionItemView>, id: Seq<char>) -> Seq<SessionItemView> {
    let k = index_of_item(s, id);
    if 0 <= k < s.len() {
        s.update(k, SessionItemView { status: SessionStatus::Closed, ..s[k] })
    } else {
        s
    }
}

/// Marks the first session with the given id closed.
pub fn mark_session_closed(sessions: &mut Vec<SessionListItem>, session_id: &str)
    ensures
        session_items_view(final(sessions)@) == mark_closed_spec(
            session_items_view(old(sessions)@),
            session_id@,
        ),
{
    let k = find_session_item(sessions, session_id);
    proof {
        lemma_index_of_item(session_items_view(sessions@), session_id@);
    }
    if k < sessions.len() {
        let ghost before = sessions@;
        let mut item = sessions.remove(k);
        item.status = SessionStatus::Closed;
        sessions.insert(k, item);
        assert(session_items_view(sessions@) =~= session_items_view(before).update(
            k as int,
            SessionItemView { status: SessionStatus::Closed, ..session_items_view(before)[k as int] },
        ));
    }
}

/// Whether some pending permission has the given request id.
pub open spec fn has_permission_id(s: Seq<PermissionView>, id: Seq<char>) -> bool {
    exists|i: int| 0 <= i < s.len() && (#[trigger] s[i]).request_id == id
}

/// Whether the request ids of the pending permissions are all different.
pub open spec fn unique_permission_ids(s: Seq<PermissionView>) -> bool {
    forall|i: int, j: int|
        0 <= i < s.len() && 0 <= j < s.len() && i != j ==> (#[trigger] s[i]).request_id != (
        #[trigger] s[j]).request_id
}

/// Whether some pending permission of `permissions` has the request id `id`.
pub fn permissions_contain_id(permissions: &Vec<PermissionRequest>, id: &str) -> (r: bool)
    ensures
        r == has_permission_id(permissions_view(permissions@), id@),
{
    let mut i: usize = 0;
    while i < permissions.len()
        invariant
            i <= permissions.len(),
            forall|j: int| 0 <= j < i ==> (#[trigger] permissions@[j]).request_id@ != id@,
        decreases permissions.len() - i,
    {
        if str_eq(permissions[i].request_id.as_str(), id) {
            assert(permissions_view(permissions@)[i as int].request_id == id@);
            return true;
        }
        i = i + 1;
    }
    proof {
        let s = permissions_view(permissions@);
        assert forall|j: int| 0 <= j < s.len() implies (#[trigger] s[j]).request_id != id@ by {
            assert(s[j] == permissions@[j]@);
        }
    }
    false
}

/// What the page learns about turn states from the rules of the session
/// domain when an event arrives: whether a snapshot may set the turn state
/// and to what, and whether a reply or status update ends the turn.
#[derive(Clone, Copy, Debug, PartialEq, Eq, Structural)]
pub struct TurnRules {
    pub apply_snapshot_turn_state: bool,
    pub snapshot_turn_state: TurnState,
    pub release_turn_state: bool,
}

/// The state after a snapshot of the session arrives.
pub open spec fn snapshot_applied(v: SessionView, session: SessionSnapshot, rules: TurnRules) -> SessionView {
    SessionView {
        session_status: lifecycle_of(session.status),
        turn_state: if rules.apply_snapshot_turn_state {
            rules.snapshot_turn_state
        } else {
            v.turn_state
        },
        pending_permissions: permissions_view(session.pending_permissions@),
        entries: bootstrap_entries(session),
        ..v
    }
}

/// The state after a conversation message arrives: the message is appended
/// unless an entry with its id is there, and a newly appended assistant
/// reply ends the turn when the rules say so.
pub open spec fn message_applied(v: SessionView, message: ConversationMessage, rules: TurnRules) -> SessionView {
    let appended = !has_entry_id(v.entries, message.id@);
    SessionView {
        entries: if appended {
            v.entries.push(message_entry(message@))
        } else {
            v.entries
        },
        turn_state: if appended && message.role == MessageRole::Assistant
            && rules.release_turn_state {
            TurnState::Idle
        } else {
            v.turn_state
        },
        ..v
    }
}

/// The state after the agent asks for a permission: the request is pending
/// (once), the turn awaits the user, and an activity entry shows the request.
pub open spec fn permission_requested(v: SessionView, request: PermissionView) -> SessionView {
    with_tool_activity(
        SessionView {
            pending_permissions: if has_permission_id(v.pending_permissions, request.request_id) {
                v.pending_permissions
            } else {
                v.pending_permissions.push(request)
            },
            turn_state: TurnState::AwaitingPermission,
            ..v
        },
        "permission-"@ + request.request_id,
        "Permission required"@,
        request.summary,
        Seq::empty(),
    )
}

/// The state after the backend reports that a session closed.
pub open spec fn session_closed(
    v: SessionView,
    sequence: nat,
    session_id: Seq<char>,
    reason: Seq<char>,
) -> SessionView {
    SessionView {
        session_status: SessionLifecycle::Closed,
        turn_state: TurnState::Idle,
        pending_permissions: Seq::empty(),
        pending_action_busy: false,
        list: SessionListView { items: mark_closed_spec(v.list.items, session_id), ..v.list },
        entries: with_status_entry(
            v.entries,
            status_entry_id(sequence),
            session_end_message_spec(Some(reason)),
        ),
        ..v
    }
}

/// The state after a status message arrives.
pub open spec fn status_applied(v: SessionView, sequence: nat, message: Seq<char>, rules: TurnRules) -> SessionView {
    SessionView {
        turn_state: if rules.release_turn_state {
            TurnState::Idle
        } else {
            v.turn_state
        },
        entries: with_status_entry(v.entries, status_entry_id(sequence), message),
        ..v
    }
}

/// The state after a stream event arrives.
pub open spec fn event_applied(v: SessionView, event: StreamEvent, rules: TurnRules) -> SessionView {
    match event.payload {
        StreamEventPayload::SessionSnapshot { session } => snapshot_applied(v, session, rules),
        StreamEventPayload::ConversationMessage { message } => message_applied(v, message, rules),
        StreamEventPayload::PermissionRequested { request } => permission_requested(v, request@),
        StreamEventPayload::SessionClosed { session_id, reason } => session_closed(
            v,
            event.sequence as nat,
            session_id@,
            reason@,
        ),
        StreamEventPayload::Status { message } => status_applied(
            v,
            event.sequence as nat,
            message@,
            rules,
        ),
    }
}

impl SessionState {
    /// Applies a snapshot of the session sent by the stream.
    pub fn apply_session_snapshot(&mut self, session: SessionSnapshot, rules: TurnRules)
        ensures
            final(self)@ == snapshot_applied(old(self)@, session, rules),
    {
        let bootstrap = session_bootstrap_from_snapshot(session);
        self.session_status = bootstrap.session_status;
        if rules.apply_snapshot_turn_state {
            self.turn_state = rules.snapshot_turn_state;
        }
        self.pending_permissions = bootstrap.pending_permissions;
        self.entries = bootstrap.entries;
    }

    /// Applies a conversation message sent by the stream.
    pub fn apply_conversation_message(&mut self, message: ConversationMessage, rules: TurnRules)
        ensures
            final(self)@ == message_applied(old(self)@, message, rules),
    {
        let is_assistant_message = message.role == MessageRole::Assistant;
        let appended = !entries_contain_id(&self.entries, message.id.as_str());
        if appended {
            let ghost before = self.entries@;
            let ghost m = message;
            self.entries.push(SessionEntry::from_message(message));
            assert(entries_view(self.entries@) =~= entries_view(before).push(message_entry(m@)));
        }
        if appended && is_assistant_message && rules.release_turn_state {
            self.turn_state = TurnState::Idle;
        }
    }

    /// Applies a permission request sent by the stream.
    pub fn apply_permission_request(&mut self, request: PermissionRequest)
        ensures
            final(self)@ == permission_requested(old(self)@, request@),
    {
        let request_id = copy_string(&request.request_id);
        let summary = copy_string(&request.summary);
        if !permissions_contain_id(&self.pending_permissions, request_id.as_str()) {
            let ghost before = self.pending_permissions@;
            let ghost r = request;
            self.pending_permissions.push(request);
            assert(permissions_view(self.pending_permissions@) =~= permissions_view(before).push(r@));
        }
        self.turn_state = TurnState::AwaitingPermission;
        let id = concat_str("permission-", request_id.as_str());
        self.push_tool_activity_entry(id.as_str(), "Permission required", summary.as_str(), &[]);
    }

    /// Applies the report that a session closed.
    pub fn apply_session_closed(&mut self, sequence: u64, session_id: &str, reason: &str)
        ensures
            final(self)@ == session_closed(old(self)@, sequence as nat, session_id@, reason@),
    {
        self.session_status = SessionLifecycle::Closed;
        self.turn_state = TurnState::Idle;
        self.pending_permissions = Vec::new();
        self.pending_action_busy = false;
        mark_session_closed(&mut self.list.items, session_id);
        let message = session_end_message(Some(reason));
        push_status_entry(&mut self.entries, sequence, message.as_str());
        assert(permissions_view(self.pending_permissions@) =~= Seq::<PermissionView>::empty());
    }

    /// Applies a status message sent by the stream.
    pub fn apply_status_update(&mut self, sequence: u64, message: &str, rules: TurnRules)
        ensures
            final(self)@ == status_applied(old(self)@, sequence as nat, message@, rules),
    {
        if rules.release_turn_state {
            self.turn_state = TurnState::Idle;
        }
        push_status_entry(&mut self.entries, sequence, message);
    }

    /// Applies an event of the session's stream.
    pub fn handle_sse_event(&mut self, event: StreamEvent, rules: TurnRules)
        ensures
            final(self)@ == event_applied(old(self)@, event, rules),
    {
        let sequence = event.sequence;
        match event.payload {
            StreamEventPayload::SessionSnapshot { session } => self.apply_session_snapshot(
                session,
                rules,
            ),
            StreamEventPayload::ConversationMessage { message } => self.apply_conversation_message(
                message,
                rules,
            ),
            StreamEventPayload::PermissionRequested { request } => self.apply_permission_request(
                request,
            ),
            StreamEventPayload::SessionClosed { session_id, reason } => self.apply_session_closed(
                sequence,
                session_id.as_str(),
                reason.as_str(),
            ),
            StreamEventPayload::Status { message } => self.apply_status_update(
                sequence,
                message.as_str(),
                rules,
            ),
        }
    }
}

/// What the session's event stream delivers.
#[derive(Clone, Debug, PartialEq, Eq)]
pub enum StreamItem {
    Event(StreamEvent),
    Disconnected,
    ParseError(String),
}

/// Whether the page keeps listening to the event stream.
#[derive(Clone, Copy, Debug, PartialEq, Eq, Structural)]
pub enum StreamAction {
    Continue,
    Close,
}

/// The message shown while the event stream reconnects.
pub open spec fn reconnecting_message() -> Seq<char> {
    "Event stream disconnected; reconnecting..."@
}

/// The state after the stream delivered `item`.
pub open spec fn stream_item_applied(v: SessionView, item: StreamItem, rules: TurnRules) -> SessionView {
    match item {
        StreamItem::Event(event) => event_applied(
            SessionView { connection_error: None, ..v },
            event,
            rules,
        ),
        StreamItem::Disconnected => if v.session_status == SessionLifecycle::Closed {
            v
        } else {
            SessionView { connection_error: Some(reconnecting_message()), ..v }
        },
        StreamItem::ParseError(message) => SessionView { connection_error: Some(message@), ..v },
    }
}

/// Whether the page stops listening after the stream delivered `item`: once
/// the session is closed, or when an event could not be read.
pub open spec fn stream_item_action(v: SessionView, item: StreamItem, rules: TurnRules) -> StreamAction {
    match item {
        StreamItem::ParseError(_) => StreamAction::Close,
        _ => if stream_item_applied(v, item, rules).session_status == SessionLifecycle::Closed {
            StreamAction::Close
        } else {
            StreamAction::Continue
        },
    }
}

impl SessionState {
    /// Applies what the event stream delivered and says whether to keep
    /// listening: an event clears the connection error and is applied; a
    /// disconnect is shown while the stream reconnects; an unreadable event
    /// is shown and ends the stream; a closed session ends it too.
    pub fn handle_stream_item(&mut self, item: StreamItem, rules: TurnRules) -> (action: StreamAction)
        ensures
            final(self)@ == stream_item_applied(old(self)@, item, rules),
            action == stream_item_action(old(self)@, item, rules),
    {
        match item {
            StreamItem::Event(event) => {
                self.connection_error = None;
                self.handle_sse_event(event, rules);
            },
            StreamItem::Disconnected => {
                if self.session_status != SessionLifecycle::Closed {
                    self.connection_error = Some(
                        "Event stream disconnected; reconnecting...".to_string(),
                    );
                }
            },
            StreamItem::ParseError(message) => {
                self.connection_error = Some(message);
                return StreamAction::Close;
            },
        }
        if self.session_status == SessionLifecycle::Closed {
            StreamAction::Close
        } else {
            StreamAction::Continue
        }
    }

    /// The event stream could not be opened: the reason is shown.
    pub fn handle_stream_open_failure(&mut self, message: String)
        ensures
            final(self)@ == (SessionView { connection_error: Some(message@), ..old(self)@ }),
    {
        self.connection_error = Some(message);
    }
}

/// Recording the same status entry twice records it once.
pub proof fn lemma_status_entry_idempotent(s: Seq<EntryView>, id: Seq<char>, text: Seq<char>)
    ensures
        with_status_entry(with_status_entry(s, id, text), id, text) == with_status_entry(s, id, text),
{
    if !(trim(text).len() == 0 || has_entry_id(s, id)) {
        let t = s.push(status_entry(id, text));
        assert(t[s.len() as int].id == id);
        assert(has_entry_id(t, id));
    }
}

/// Marking the same session closed twice marks it once.
proof fn lemma_mark_closed_idempotent(s: Seq<SessionItemView>, id: Seq<char>)
    ensures
        mark_closed_spec(mark_closed_spec(s, id), id) == mark_closed_spec(s, id),
{
    lemma_index_of_item(s, id);
    let k = index_of_item(s, id);
    if k < s.len() {
        let t = mark_closed_spec(s, id);
        assert forall|j: int| 0 <= j < k implies (#[trigger] t[j]).id != id by {
            assert(t[j] == s[j]);
        }
        lemma_index_of_item_unique(t, id, k);
        assert(t.update(k, SessionItemView { status: SessionStatus::Closed, ..t[k] }) =~= t);
    }
}

/// Replaying a stream event changes nothing: for every state, event and set
/// of turn rules, applying the event twice gives the state that applying it
/// once gives. (The stream may deliver an event again after it reconnects.)
pub proof fn lemma_event_replay_idempotent(v: SessionView, event: StreamEvent, rules: TurnRules)
    ensures
        event_applied(event_applied(v, event, rules), event, rules) == event_applied(v, event, rules),
{
    match event.payload {
        StreamEventPayload::SessionSnapshot { session } => {},
        StreamEventPayload::ConversationMessage { message } => {
            if !has_entry_id(v.entries, message.id@) {
                let t = v.entries.push(message_entry(message@));
                assert(t[v.entries.len() as int].id == message.id@);
                assert(has_entry_id(t, message.id@));
            }
        },
        StreamEventPayload::PermissionRequested { request } => {
            let r = request@;
            let once = permission_requested(v, r);
            if !has_permission_id(v.pending_permissions, r.request_id) {
                let t = v.pending_permissions.push(r);
                assert(t[v.pending_permissions.len() as int].request_id == r.request_id);
                assert(has_permission_id(t, r.request_id));
            }
            lemma_status_entry_idempotent(
                v.entries,
                "activity-"@ + ("permission-"@ + r.request_id),
                tool_activity_text_spec("Permission required"@, r.summary, Seq::empty()),
            );
        },
        StreamEventPayload::SessionClosed { session_id, reason } => {
            lemma_mark_closed_idempotent(v.list.items, session_id@);
            lemma_status_entry_idempotent(
                v.entries,
                status_entry_id(event.sequence as nat),
                session_end_message_spec(Some(reason@)),
            );
        },
        StreamEventPayload::Status { message } => {
            lemma_status_entry_idempotent(
                v.entries,
                status_entry_id(event.sequence as nat),
                message@,
            );
        },
    }
}

/// Pending permission requests never share a request id: a new request is
/// added only when no pending request has its id.
pub proof fn lemma_permission_request_keeps_ids_unique(v: SessionView, request: PermissionView)
    requires
        unique_permission_ids(v.pending_permissions),
    ensures
        unique_permission_ids(permission_requested(v, request).pending_permissions),
{
    let s = v.pending_permissions;
    if !has_permission_id(s, request.request_id) {
        let t = s.push(request);
        assert forall|i: int, j: int|
            0 <= i < t.len() && 0 <= j < t.len() && i != j implies (#[trigger] t[i]).request_id != (
            #[trigger] t[j]).request_id by {
            if i == s.len() {
                assert(t[j] == s[j]);
            } else if j == s.len() {
                assert(t[i] == s[i]);
            } else {
                assert(t[i] == s[i] && t[j] == s[j]);
            }
        }
    }
}

/// A message from the user never ends the turn: for every state, set of
/// turn rules and event carrying a user's message, the turn state stays as it
/// was (the backend echoes the prompt while the reply is awaited), and the
/// message is shown once, as a user entry.
pub proof fn lemma_user_message_keeps_turn_state(v: SessionView, event: StreamEvent, rules: TurnRules)
    requires
        event.payload matches StreamEventPayload::ConversationMessage { message } && message.role
            == MessageRole::User,
    ensures
        event_applied(v, event, rules).turn_state == v.turn_state,
        event.payload matches StreamEventPayload::ConversationMessage { message } && (
        !has_entry_id(v.entries, message.id@) ==> event_applied(v, event, rules).entries
            == v.entries.push(
            (EntryView { id: message.id@, role: SessionEntryRole::User, text: message.text@ }),
        )) && (has_entry_id(v.entries, message.id@) ==> event_applied(v, event, rules).entries
            == v.entries),
{
}

/// A new reply of the assistant ends the turn when the rules say so: for
/// every state and event carrying an assistant's message whose id no entry
/// has, the turn becomes idle under releasing rules and stays otherwise.
pub proof fn lemma_assistant_reply_releases_turn(v: SessionView, event: StreamEvent, rules: TurnRules)
    requires
        event.payload matches StreamEventPayload::ConversationMessage { message } && message.role
            == MessageRole::Assistant && !has_entry_id(v.entries, message.id@),
    ensures
        event_applied(v, event, rules).turn_state == (if rules.release_turn_state {
            TurnState::Idle
        } else {
            v.turn_state
        }),
{
}

} // verus!
