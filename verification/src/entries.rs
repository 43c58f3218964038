//! Transcript entries of a session page and the state loaded with a session.
use vstd::prelude::*;

use crate::contracts::{
    permissions_view, ConversationMessage, MessageRole, MessageView, PermissionRequest,
    SessionSnapshot, SessionStatus,
};
use crate::lifecycle::{session_status_label, SessionLifecycle, CLOSED_SESSION_MESSAGE};
use crate::text::{copy_string, str_eq};

verus! {

/// Who an entry of a session's transcript comes from.
#[derive(Clone, Copy, Debug, PartialEq, Eq, Structural)]
pub enum SessionEntryRole {
    User,
    Assistant,
    Status,
}

/// The role of a transcript row as the transcript component draws it.
#[derive(Clone, Copy, Debug, PartialEq, Eq, Structural)]
pub enum EntryRole {
    User,
    Assistant,
    Status,
}

/// The entry role that a message role means.
pub open spec fn entry_role_of(role: MessageRole) -> SessionEntryRole {
    match role {
        MessageRole::User => SessionEntryRole::User,
        MessageRole::Assistant => SessionEntryRole::Assistant,
    }
}

impl From<MessageRole> for SessionEntryRole {
    fn from(role: MessageRole) -> (r: Self) {
        match role {
            MessageRole::User => SessionEntryRole::User,
            MessageRole::Assistant => SessionEntryRole::Assistant,
        }
    }
}

impl vstd::std_specs::convert::FromSpecImpl<MessageRole> for SessionEntryRole {
    open spec fn obeys_from_spec() -> bool {
        true
    }

    open spec fn from_spec(role: MessageRole) -> Self {
        entry_role_of(role)
    }
}

/// One entry of a session's transcript.
#[derive(Clone, Debug, PartialEq, Eq)]
pub struct SessionEntry {
    pub id: String,
    pub role: SessionEntryRole,
    pub text: String,
}

/// The abstract value of a [`SessionEntry`].
pub ghost struct EntryView {
    pub id: Seq<char>,
    pub role: SessionEntryRole,
    pub text: Seq<char>,
}

impl View for SessionEntry {
    type V = EntryView;

    open spec fn view(&self) -> EntryView {
        EntryView { id: self.id@, role: self.role, text: self.text@ }
    }
}

/// The abstract values of a sequence of entries.
pub open spec fn entries_view(s: Seq<SessionEntry>) -> Seq<EntryView> {
    s.map_values(|e: SessionEntry| e@)
}

/// The entry that shows a conversation message.
pub open spec fn message_entry(m: MessageView) -> EntryView {
    EntryView { id: m.id, role: entry_role_of(m.role), text: m.text }
}

/// The entries that show a sequence of messages.
pub open spec fn message_entries(s: Seq<ConversationMessage>) -> Seq<EntryView> {
    s.map_values(|m: ConversationMessage| message_entry(m@))
}

/// A status entry.
pub open spec fn status_entry(id: Seq<char>, text: Seq<char>) -> EntryView {
    EntryView { id, role: SessionEntryRole::Status, text }
}

/// The transcript role of an entry role.
pub open spec fn transcript_role_of(role: SessionEntryRole) -> EntryRole {
    match role {
        SessionEntryRole::User => EntryRole::User,
        SessionEntryRole::Assistant => EntryRole::Assistant,
        SessionEntryRole::Status => EntryRole::Status,
    }
}

impl SessionEntry {
    /// The entry that shows a conversation message.
    pub fn from_message(message: ConversationMessage) -> (entry: Self)
        ensures
            entry@ == message_entry(message@),
    {
        let role = match message.role {
            MessageRole::User => SessionEntryRole::User,
            MessageRole::Assistant => SessionEntryRole::Assistant,
        };
        SessionEntry { id: message.id, role, text: message.text }
    }

    /// A status entry with the given id and text.
    pub fn status(id: &str, text: &str) -> (entry: Self)
        ensures
            entry@ == status_entry(id@, text@),
    {
        SessionEntry { id: id.to_string(), role: SessionEntryRole::Status, text: text.to_string() }
    }

    /// The id the transcript keys this entry by.
    pub fn transcript_id(&self) -> (id: &str)
        ensures
            id@ == self.id@,
    {
        self.id.as_str()
    }

    /// The role the transcript draws this entry with.
    pub fn transcript_role(&self) -> (role: EntryRole)
        ensures
            role == transcript_role_of(self.role),
    {
        match self.role {
            SessionEntryRole::User => EntryRole::User,
            SessionEntryRole::Assistant => EntryRole::Assistant,
            SessionEntryRole::Status => EntryRole::Status,
        }
    }

    /// The text the transcript shows for this entry.
    pub fn transcript_text(&self) -> (text: &str)
        ensures
            text@ == self.text@,
    {
        self.text.as_str()
    }
}

/// A copy of an entry.
pub fn copy_entry(e: &SessionEntry) -> (r: SessionEntry)
    ensures
        r@ == e@,
{
    SessionEntry { id: copy_string(&e.id), role: e.role, text: copy_string(&e.text) }
}

/// What a session page starts from once the session is loaded.
#[derive(Clone, Debug, PartialEq, Eq)]
pub struct SessionBootstrap {
    pub entries: Vec<SessionEntry>,
    pub pending_permissions: Vec<PermissionRequest>,
    pub session_status: SessionLifecycle,
}

/// Whether the transcript already shows that the session ended.
pub open spec fn has_closed_status(s: Seq<EntryView>) -> bool {
    exists|i: int|
        0 <= i < s.len() && (#[trigger] s[i]).role == SessionEntryRole::Status && s[i].text
            == CLOSED_SESSION_MESSAGE@
}

/// The entry recording that the session ended.
pub open spec fn closed_status_entry() -> EntryView {
    status_entry("status-session-ended"@, CLOSED_SESSION_MESSAGE@)
}

/// The transcript with the session-ended entry added, unless it already
/// shows one.
pub open spec fn with_closed_status(s: Seq<EntryView>) -> Seq<EntryView> {
    if has_closed_status(s) {
        s
    } else {
        s.push(closed_status_entry())
    }
}

/// The lifecycle that a backend status means.
pub open spec fn lifecycle_of(status: SessionStatus) -> SessionLifecycle {
    match status {
        SessionStatus::Active => SessionLifecycle::Active,
        SessionStatus::Closed => SessionLifecycle::Closed,
    }
}

/// The entries a loaded session starts with: its messages, and the
/// session-ended entry when it is closed.
pub open spec fn bootstrap_entries(snapshot: SessionSnapshot) -> Seq<EntryView> {
    if snapshot.status == SessionStatus::Closed {
        with_closed_status(message_entries(snapshot.messages@))
    } else {
        message_entries(snapshot.messages@)
    }
}

/// Adds the session-ended entry to a transcript unless it shows one already.
pub fn push_bootstrap_closed_status_entry(entries: &mut Vec<SessionEntry>)
    ensures
        entries_view(final(entries)@) == with_closed_status(entries_view(old(entries)@)),
{
    let mut i: usize = 0;
    while i < entries.len()
        invariant
            i <= entries.len(),
            forall|j: int|
                0 <= j < i ==> !((#[trigger] entries@[j]).role == SessionEntryRole::Status
                    && entries@[j].text@ == CLOSED_SESSION_MESSAGE@),
        decreases entries.len() - i,
    {
        if entries[i].role == SessionEntryRole::Status && str_eq(
            entries[i].text.as_str(),
            CLOSED_SESSION_MESSAGE,
        ) {
            proof {
                assert(entries_view(entries@)[i as int] == entries@[i as int]@);
            }
            return ;
        }
        i = i + 1;
    }
    proof {
        let s = entries_view(entries@);
        assert forall|j: int|
            0 <= j < s.len() implies !((#[trigger] s[j]).role == SessionEntryRole::Status && s[j].text
            == CLOSED_SESSION_MESSAGE@) by {
            assert(s[j] == entries@[j]@);
        }
    }
    let ghost before = entries@;
    entries.push(SessionEntry::status("status-session-ended", CLOSED_SESSION_MESSAGE));
    assert(entries_view(entries@) =~= entries_view(before).push(closed_status_entry()));
}

/// The pending permissions a loaded session starts with: all of them.
pub fn pending_permissions_to_items(pending_permissions: Vec<PermissionRequest>) -> (items: Vec<
    PermissionRequest,
>)
    ensures
        items@ == pending_permissions@,
{
    pending_permissions
}

/// The entries showing a sequence of messages, in order.
fn entries_from_messages(messages: Vec<ConversationMessage>) -> (entries: Vec<SessionEntry>)
    ensures
        entries_view(entries@) == message_entries(messages@),
{
    let ghost ms = messages@;
    let mut entries: Vec<SessionEntry> = Vec::new();
    for m in it: messages
        invariant
            it.seq() == ms,
            entries_view(entries@) == message_entries(ms.take(it.index() as int)),
    {
        let ghost before = entries@;
        entries.push(SessionEntry::from_message(m));
        assert(ms.take(it.index() as int + 1) =~= ms.take(it.index() as int).push(m));
        assert(entries_view(entries@) =~= entries_view(before).push(message_entry(m@)));
        assert(message_entries(ms.take(it.index() as int + 1)) =~= message_entries(
            ms.take(it.index() as int),
        ).push(message_entry(m@)));
    }
    assert(ms.take(ms.len() as int) =~= ms);
    entries
}

/// The state a session page starts from once the backend has described the
/// session.
pub fn session_bootstrap_from_snapshot(session: SessionSnapshot) -> (bootstrap: SessionBootstrap)
    ensures
        bootstrap.session_status == lifecycle_of(session.status),
        entries_view(bootstrap.entries@) == bootstrap_entries(session),
        bootstrap.pending_permissions@ == session.pending_permissions@,
{
    let ghost snapshot = session;
    let SessionSnapshot { status, messages, pending_permissions, .. } = session;
    let session_status = session_status_label(status);
    let mut entries = entries_from_messages(messages);
    if session_status == SessionLifecycle::Closed {
        push_bootstrap_closed_status_entry(&mut entries);
    }
    SessionBootstrap {
        entries,
        pending_permissions: pending_permissions_to_items(pending_permissions),
        session_status,
    }
}

/// Recording that a session ended is idempotent: adding the session-ended
/// entry to a transcript that went through it once changes nothing.
pub proof fn lemma_closed_status_idempotent(s: Seq<EntryView>)
    ensures
        with_closed_status(with_closed_status(s)) == with_closed_status(s),
        has_closed_status(with_closed_status(s)),
{
    if !has_closed_status(s) {
        let t = s.push(closed_status_entry());
        assert(t[s.len() as int] == closed_status_entry());
        assert(has_closed_status(t));
    }
}

} // verus!
