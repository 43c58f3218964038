//! What the session page shows: labels, CSS classes, the sidebar's rows and
//! the flags that enable its controls.
use vstd::prelude::*;

use crate::contracts::{session_items_view, SessionItemView, SessionListItem, SessionStatus};
use crate::lifecycle::{BadgeTone, TurnState};
use crate::routing::{app_session_path, encode_component_spec};
use crate::session_state::{opt_view, SessionListView, SessionState, SessionView};
use crate::text::{chars_of, concat_str, copy_string, str_eq, string_from_chars, trim, trim_chars};
use crate::time_format::{in_chrono_range, utc_minute_stamp, utc_timestamp_text};

verus! {

/// The message of the home page while it prepares a chat, or after it failed.
pub fn home_message(preparing: bool) -> (message: &'static str)
    ensures
        message@ == (if preparing {
            "Preparing chat..."@
        } else {
            "Unable to prepare a new chat."@
        }),
{
    if preparing {
        "Preparing chat..."
    } else {
        "Unable to prepare a new chat."
    }
}

/// The state of the home page's redirect to a prepared chat.
pub struct HomePageState {
    pub started: bool,
    pub error: Option<String>,
    pub preparing: bool,
}

impl HomePageState {
    /// Starts the redirect unless it started already; returns whether it
    /// started now (and the preparation must be spawned).
    pub fn bind_home_redirect(&mut self) -> (start: bool)
        ensures
            start == !old(self).started,
            final(self).started,
            final(self).preparing == old(self).preparing,
            start ==> final(self).error is None,
            !start ==> final(self).error == old(self).error,
    {
        if self.started {
            return false;
        }
        self.started = true;
        self.error = None;
        true
    }

    /// The preparation failed with `message`.
    pub fn set_home_redirect_error(&mut self, message: String)
        ensures
            final(self).started == old(self).started,
            opt_view(final(self).error) == Some(message@),
            !final(self).preparing,
    {
        self.error = Some(message);
        self.preparing = false;
    }
}

/// The icon of the button that shows or hides the sidebar.
pub fn topbar_toggle_icon(sidebar_open: bool) -> (icon: &'static str)
    ensures
        icon@ == (if sidebar_open {
            "←"@
        } else {
            "☰"@
        }),
{
    if sidebar_open {
        "←"
    } else {
        "☰"
    }
}

/// The label of the button that shows or hides the sidebar.
pub fn topbar_toggle_label(sidebar_open: bool) -> (label: &'static str)
    ensures
        label@ == (if sidebar_open {
            "Hide sessions"@
        } else {
            "Show sessions"@
        }),
{
    if sidebar_open {
        "Hide sessions"
    } else {
        "Show sessions"
    }
}

/// The screen-reader label of a session's delete button.
pub fn sidebar_delete_sr_label(is_deleting: bool) -> (label: &'static str)
    ensures
        label@ == (if is_deleting {
            "Deleting…"@
        } else {
            "Delete session"@
        }),
{
    if is_deleting {
        "Deleting…"
    } else {
        "Delete session"
    }
}

/// The CSS class of the session page's layout.
pub fn session_layout_class(sidebar_open: bool) -> (class: &'static str)
    ensures
        class@ == (if sidebar_open {
            "session-layout session-layout--sidebar-open"@
        } else {
            "session-layout"@
        }),
{
    if sidebar_open {
        "session-layout session-layout--sidebar-open"
    } else {
        "session-layout"
    }
}

/// The CSS class of the sessions sidebar.
pub fn session_sidebar_class(sidebar_open: bool) -> (class: &'static str)
    ensures
        class@ == (if sidebar_open {
            "session-sidebar session-sidebar--open"@
        } else {
            "session-sidebar"@
        }),
{
    if sidebar_open {
        "session-sidebar session-sidebar--open"
    } else {
        "session-sidebar"
    }
}

/// The CSS class of a row of the sessions sidebar.
pub fn session_sidebar_item_class(is_current: bool, is_closed: bool) -> (class: &'static str)
    ensures
        class@ == (if is_current && is_closed {
            "session-sidebar__item session-sidebar__item--current session-sidebar__item--closed"@
        } else if is_current {
            "session-sidebar__item session-sidebar__item--current"@
        } else if is_closed {
            "session-sidebar__item session-sidebar__item--closed"@
        } else {
            "session-sidebar__item"@
        }),
{
    if is_current && is_closed {
        "session-sidebar__item session-sidebar__item--current session-sidebar__item--closed"
    } else if is_current {
        "session-sidebar__item session-sidebar__item--current"
    } else if is_closed {
        "session-sidebar__item session-sidebar__item--closed"
    } else {
        "session-sidebar__item"
    }
}

/// The message of an empty sessions sidebar.
pub fn session_sidebar_empty_message(has_error: bool) -> (message: &'static str)
    ensures
        message@ == (if has_error {
            "Unable to load sessions right now."@
        } else {
            "No sessions yet. Start a new one."@
        }),
{
    if has_error {
        "Unable to load sessions right now."
    } else {
        "No sessions yet. Start a new one."
    }
}

/// The status word of a sidebar row.
pub fn session_sidebar_status_label(is_closed: bool) -> (label: &'static str)
    ensures
        label@ == (if is_closed {
            "closed"@
        } else {
            "active"@
        }),
{
    if is_closed {
        "closed"
    } else {
        "active"
    }
}

/// The CSS class of a sidebar row's status pill.
pub fn session_sidebar_status_pill_class(is_closed: bool) -> (class: &'static str)
    ensures
        class@ == (if is_closed {
            "session-sidebar__status-pill session-sidebar__status-pill--neutral"@
        } else {
            "session-sidebar__status-pill session-sidebar__status-pill--success"@
        }),
{
    if is_closed {
        "session-sidebar__status-pill session-sidebar__status-pill--neutral"
    } else {
        "session-sidebar__status-pill session-sidebar__status-pill--success"
    }
}

/// The CSS class of a status badge of the given tone.
pub fn status_badge_class(tone: BadgeTone) -> (class: &'static str)
    ensures
        class@ == match tone {
            BadgeTone::Neutral => "status-badge status-badge--neutral"@,
            BadgeTone::Success => "status-badge status-badge--success"@,
            BadgeTone::Warning => "status-badge status-badge--warning"@,
            BadgeTone::Danger => "status-badge status-badge--danger"@,
        },
{
    match tone {
        BadgeTone::Neutral => "status-badge status-badge--neutral",
        BadgeTone::Success => "status-badge status-badge--success",
        BadgeTone::Warning => "status-badge status-badge--warning",
        BadgeTone::Danger => "status-badge status-badge--danger",
    }
}

/// A row of the sessions sidebar.
#[derive(Clone, Debug, PartialEq, Eq)]
pub struct SidebarSession {
    pub id: String,
    pub href: String,
    pub title: String,
    pub activity_label: String,
    pub is_current: bool,
    pub is_closed: bool,
}

/// The abstract value of a [`SidebarSession`].
pub ghost struct SidebarSessionView {
    pub id: Seq<char>,
    pub href: Seq<char>,
    pub title: Seq<char>,
    pub activity_label: Seq<char>,
    pub is_current: bool,
    pub is_closed: bool,
}

impl View for SidebarSession {
    type V = SidebarSessionView;

    open spec fn view(&self) -> SidebarSessionView {
        SidebarSessionView {
            id: self.id@,
            href: self.href@,
            title: self.title@,
            activity_label: self.activity_label@,
            is_current: self.is_current,
            is_closed: self.is_closed,
        }
    }
}

/// The sidebar row of a session: a link to it, its title (`New chat` when it
/// has none), when it was last active, and whether it is the current one and
/// whether it is closed.
pub open spec fn sidebar_row(item: SessionItemView, current_id: Seq<char>) -> SidebarSessionView {
    SidebarSessionView {
        id: item.id,
        href: "/app/sessions/"@ + encode_component_spec(item.id),
        title: if item.title.len() == 0 {
            "New chat"@
        } else {
            item.title
        },
        activity_label: "Updated "@ + utc_timestamp_text(
            item.last_activity_at,
            "%Y-%m-%d %H:%M UTC"@,
        ).unwrap(),
        is_current: item.id == current_id,
        is_closed: item.status == SessionStatus::Closed,
    }
}

fn sidebar_session(item: &SessionListItem, current_session_id: &str) -> (row: SidebarSession)
    requires
        in_chrono_range(item.last_activity_at as int),
    ensures
        row@ == sidebar_row(item@, current_session_id@),
{
    let stamp = utc_minute_stamp(item.last_activity_at);
    SidebarSession {
        href: app_session_path(item.id.as_str()),
        title: if item.title.as_str().is_empty() {
            "New chat".to_string()
        } else {
            copy_string(&item.title)
        },
        activity_label: concat_str("Updated ", stamp.as_str()),
        id: copy_string(&item.id),
        is_current: str_eq(item.id.as_str(), current_session_id),
        is_closed: item.status == SessionStatus::Closed,
    }
}

/// The rows of the sessions sidebar, one per session in the list's order.
pub fn sidebar_sessions(sessions: &[SessionListItem], current_session_id: &str) -> (rows: Vec<
    SidebarSession,
>)
    requires
        forall|i: int| 0 <= i < sessions@.len() ==> in_chrono_range(
            #[trigger] sessions@[i].last_activity_at as int,
        ),
    ensures
        rows@.len() == sessions@.len(),
        forall|i: int|
            0 <= i < sessions@.len() ==> (#[trigger] rows@[i])@ == sidebar_row(
                sessions@[i]@,
                current_session_id@,
            ),
{
    let mut rows: Vec<SidebarSession> = Vec::new();
    let mut i: usize = 0;
    while i < sessions.len()
        invariant
            i <= sessions.len(),
            rows@.len() == i,
            forall|k: int| 0 <= k < sessions@.len() ==> in_chrono_range(
                #[trigger] sessions@[k].last_activity_at as int,
            ),
            forall|k: int|
                0 <= k < i ==> (#[trigger] rows@[k])@ == sidebar_row(
                    sessions@[k]@,
                    current_session_id@,
                ),
        decreases sessions.len() - i,
    {
        rows.push(sidebar_session(&sessions[i], current_session_id));
        i = i + 1;
    }
    rows
}

/// Whether the optional active id is `session_id`.
pub fn session_id_matches(active_id: &Option<String>, session_id: &str) -> (r: bool)
    ensures
        r == (opt_view(*active_id) == Some(session_id@)),
{
    match active_id {
        Some(id) => str_eq(id.as_str(), session_id),
        None => false,
    }
}

/// The flags that enable the controls of one sidebar row.
#[derive(Clone, Copy, Debug, PartialEq, Eq, Structural)]
pub struct SessionSidebarItemFlags {
    pub is_renaming: bool,
    pub is_deleting: bool,
    pub is_saving_rename: bool,
    pub rename_action_disabled: bool,
    pub delete_action_disabled: bool,
    pub save_rename_disabled: bool,
}

/// The flags of the sidebar row of `session_id`: it is being renamed,
/// deleted or saved when the corresponding id is its own; renaming waits for
/// a delete of it and for any rename being saved; deleting waits for any
/// delete or rename save, and for the current session when it is busy; a
/// rename can be saved when none is being saved and the draft is not blank.
pub fn session_sidebar_item_signals(
    session_id: &str,
    is_current: bool,
    deleting_session_id: &Option<String>,
    delete_disabled: bool,
    renaming_session_id: &Option<String>,
    saving_rename_session_id: &Option<String>,
    rename_draft: &str,
) -> (flags: SessionSidebarItemFlags)
    ensures
        flags.is_renaming == (opt_view(*renaming_session_id) == Some(session_id@)),
        flags.is_deleting == (opt_view(*deleting_session_id) == Some(session_id@)),
        flags.is_saving_rename == (opt_view(*saving_rename_session_id) == Some(session_id@)),
        flags.rename_action_disabled == (flags.is_deleting || saving_rename_session_id is Some),
        flags.delete_action_disabled == (flags.is_deleting || deleting_session_id is Some
            || saving_rename_session_id is Some || (is_current && delete_disabled)),
        flags.save_rename_disabled == (flags.is_saving_rename || trim(rename_draft@).len() == 0),
{
    let is_renaming = session_id_matches(renaming_session_id, session_id);
    let is_deleting = session_id_matches(deleting_session_id, session_id);
    let is_saving_rename = session_id_matches(saving_rename_session_id, session_id);
    let draft_chars = chars_of(rename_draft);
    let trimmed = trim_chars(draft_chars.as_slice());
    SessionSidebarItemFlags {
        is_renaming,
        is_deleting,
        is_saving_rename,
        rename_action_disabled: is_deleting || saving_rename_session_id.is_some(),
        delete_action_disabled: is_deleting || deleting_session_id.is_some()
            || saving_rename_session_id.is_some() || (is_current && delete_disabled),
        save_rename_disabled: is_saving_rename || trimmed.len() == 0,
    }
}

/// The message above the transcript: the action error, or else the
/// connection error.
pub fn topbar_message(action_error: Option<String>, connection_error: Option<String>) -> (message:
    Option<String>)
    ensures
        opt_view(message) == (if action_error is Some {
            opt_view(action_error)
        } else {
            opt_view(connection_error)
        }),
{
    match action_error {
        Some(m) => Some(m),
        None => connection_error,
    }
}

/// Whether the composer's cancel button shows as busy.
pub fn session_composer_cancel_busy(
    turn_state: TurnState,
    pending_action_busy: bool,
    current_session_deleting: bool,
) -> (busy: bool)
    ensures
        busy == (pending_action_busy || current_session_deleting || turn_state
            == TurnState::Cancelling),
{
    pending_action_busy || current_session_deleting || turn_state == TurnState::Cancelling
}

/// Puts a stored draft into the composer, unless it is empty.
pub fn apply_restored_session_draft(draft: &mut String, stored_draft: String)
    ensures
        final(draft)@ == (if stored_draft@.len() == 0 {
            old(draft)@
        } else {
            stored_draft@
        }),
{
    if !stored_draft.as_str().is_empty() {
        *draft = stored_draft;
    }
}

impl SessionState {
    /// Starts renaming a session from the sidebar with its current title.
    pub fn begin_sidebar_rename(&mut self, session_id: &str, title: &str)
        ensures
            final(self)@ == (SessionView {
                list: SessionListView {
                    rename_draft: title@,
                    renaming_id: Some(session_id@),
                    ..old(self)@.list
                },
                ..old(self)@
            }),
    {
        self.list.rename_draft = title.to_string();
        self.list.renaming_id = Some(session_id.to_string());
    }

    /// Leaves rename mode.
    pub fn cancel_sidebar_rename(&mut self)
        ensures
            final(self)@ == (SessionView {
                list: SessionListView {
                    rename_draft: Seq::empty(),
                    renaming_id: None,
                    ..old(self)@.list
                },
                ..old(self)@
            }),
    {
        self.list.rename_draft = String::new();
        self.list.renaming_id = None;
    }

    /// Commits the rename being typed: returns the trimmed title to rename
    /// the session to, or `None` (leaving rename mode when the draft is
    /// blank); nothing happens while a rename is being saved.
    pub fn commit_sidebar_rename(&mut self, is_saving_rename: bool) -> (title: Option<String>)
        ensures
            is_saving_rename ==> title is None && final(self)@ == old(self)@,
            !is_saving_rename && trim(old(self)@.list.rename_draft).len() > 0 ==> title is Some
                && title.unwrap()@ == trim(old(self)@.list.rename_draft) && final(self)@ == old(
                self,
            )@,
            !is_saving_rename && trim(old(self)@.list.rename_draft).len() == 0 ==> title is None
                && final(self)@ == (SessionView {
                list: SessionListView { renaming_id: None, ..old(self)@.list },
                ..old(self)@
            }),
    {
        if is_saving_rename {
            return None;
        }
        let draft = chars_of(self.list.rename_draft.as_str());
        let trimmed = trim_chars(draft.as_slice());
        if trimmed.len() > 0 {
            Some(string_from_chars(trimmed.as_slice()))
        } else {
            self.list.renaming_id = None;
            None
        }
    }
}

} // verus!
