//! What the user's actions on a session page do to its state, and what the
//! answers of the backend to them do.
use vstd::prelude::*;

use crate::activity::tool_activity_text_spec;
use crate::auth_page::HomeRouteTarget;
use crate::contracts::{
    permissions_view, session_items_view, CompletionCandidate, PermissionDecision,
    PermissionRequest, PermissionView, SessionItemView, SessionListItem, SessionSnapshot,
    SessionStatus,
};
use crate::entries::{
    bootstrap_entries, entries_view, lifecycle_of, session_bootstrap_from_snapshot, EntryView,
    SessionEntry, SessionEntryRole,
};
use crate::lifecycle::{SessionLifecycle, TurnState};
use crate::routing::{app_session_path, encode_component_spec};
use crate::session_state::{
    find_session_item, index_of_item, opt_view, with_next_tool_activity, SessionListView,
    SessionState, SessionView,
};
use crate::text::{
    chars_of, concat_str, copy_string, str_eq, string_from_chars, trim, trim_chars,
};

verus! {

/// The turn state after the user answered a permission request.
pub open spec fn resolution_turn_state(decision: PermissionDecision) -> TurnState {
    match decision {
        PermissionDecision::Approve => TurnState::AwaitingReply,
        PermissionDecision::Deny => TurnState::Idle,
    }
}

/// The turn state after the user answered a permission request: an approval
/// lets the agent go on, a denial ends the turn.
pub fn permission_resolution_turn_state(decision: &PermissionDecision) -> (state: TurnState)
    ensures
        state == resolution_turn_state(*decision),
{
    match decision {
        PermissionDecision::Approve => TurnState::AwaitingReply,
        PermissionDecision::Deny => TurnState::Idle,
    }
}

/// The detail of the activity entry for an answered permission request.
pub open spec fn resolution_detail(request_id: Seq<char>, decision: PermissionDecision) -> Seq<
    char,
> {
    request_id + (if decision == PermissionDecision::Approve {
        " approved."@
    } else {
        " denied."@
    })
}

/// `<request id> approved.` or `<request id> denied.`.
pub fn permission_resolution_detail(request_id: &str, decision: &PermissionDecision) -> (detail:
    String)
    ensures
        detail@ == resolution_detail(request_id@, *decision),
{
    if *decision == PermissionDecision::Approve {
        concat_str(request_id, " approved.")
    } else {
        concat_str(request_id, " denied.")
    }
}

/// The pending permissions without those with the given request id.
pub open spec fn without_permission(s: Seq<PermissionView>, id: Seq<char>) -> Seq<PermissionView>
    decreases s.len(),
{
    if s.len() == 0 {
        s
    } else {
        (if s[0].request_id == id {
            Seq::empty()
        } else {
            seq![s[0]]
        }) + without_permission(s.drop_first(), id)
    }
}

/// Answering a permission request removes exactly that request: no request
/// with its id is left, and every other request stays.
pub proof fn lemma_without_permission_removes_only(s: Seq<PermissionView>, id: Seq<char>)
    ensures
        forall|i: int|
            0 <= i < without_permission(s, id).len() ==> (#[trigger] without_permission(
                s,
                id,
            )[i]).request_id != id,
        forall|i: int|
            0 <= i < s.len() && (#[trigger] s[i]).request_id != id ==> without_permission(
                s,
                id,
            ).contains(s[i]),
    decreases s.len(),
{
    if s.len() > 0 {
        let rest = s.drop_first();
        lemma_without_permission_removes_only(rest, id);
        let head: Seq<PermissionView> = if s[0].request_id == id {
            Seq::empty()
        } else {
            seq![s[0]]
        };
        let r = without_permission(s, id);
        assert(r == head + without_permission(rest, id));
        assert forall|i: int| 0 <= i < r.len() implies (#[trigger] r[i]).request_id != id by {
            if i >= head.len() {
                assert(r[i] == without_permission(rest, id)[i - head.len()]);
            }
        }
        assert forall|i: int| 0 <= i < s.len() && (#[trigger] s[i]).request_id != id implies r.contains(
            s[i],
        ) by {
            if i == 0 {
                assert(r[0] == s[0]);
            } else {
                assert(s[i] == rest[i - 1]);
                let j = choose|j: int| 0 <= j < without_permission(rest, id).len() && without_permission(
                    rest,
                    id,
                )[j] == rest[i - 1];
                assert(r[j + head.len()] == s[i]);
            }
        }
    }
}

/// The permission requests of `permissions` whose id is not `id`, in order.
fn retain_other_permissions(permissions: Vec<PermissionRequest>, id: &str) -> (kept: Vec<
    PermissionRequest,
>)
    ensures
        permissions_view(kept@) == without_permission(permissions_view(permissions@), id@),
{
    let ghost ps = permissions@;
    let ghost all = permissions_view(ps);
    let mut kept: Vec<PermissionRequest> = Vec::new();
    assert(all.skip(0) =~= all);
    for p in it: permissions
        invariant
            it.seq() == ps,
            all == permissions_view(ps),
            without_permission(all, id@) == permissions_view(kept@) + without_permission(
                all.skip(it.index() as int),
                id@,
            ),
    {
        let i = Ghost(it.index() as int);
        let ghost before = kept@;
        assert(all.skip(i@).drop_first() =~= all.skip(i@ + 1));
        assert(all.skip(i@)[0] == p@);
        if !str_eq(p.request_id.as_str(), id) {
            kept.push(p);
            assert(permissions_view(kept@) =~= permissions_view(before) + seq![all[i@]]);
        } else {
            assert(permissions_view(before) + (Seq::<PermissionView>::empty() + without_permission(
                all.skip(i@ + 1),
                id@,
            )) =~= permissions_view(before) + without_permission(all.skip(i@ + 1), id@));
        }
    }
    assert(all.skip(ps.len() as int) =~= Seq::<PermissionView>::empty());
    assert(permissions_view(kept@) + Seq::<PermissionView>::empty() =~= permissions_view(kept@));
    kept
}

/// The state after the backend accepted the user's answer to a permission
/// request.
pub open spec fn resolution_succeeded(
    v: SessionView,
    request_id: Seq<char>,
    decision: PermissionDecision,
) -> SessionView {
    with_next_tool_activity(
        SessionView {
            pending_permissions: without_permission(v.pending_permissions, request_id),
            turn_state: resolution_turn_state(decision),
            ..v
        },
        "permission"@,
        "Permission resolved"@,
        resolution_detail(request_id, decision),
        Seq::empty(),
    )
}

/// How the backend answered a request to cancel the running turn.
#[derive(Clone, Debug, PartialEq, Eq)]
pub enum CancelOutcome {
    Cancelled,
    NotRunning,
    Failed(String),
}

/// The message shown when there is no running turn to cancel.
pub open spec fn no_running_turn_message() -> Seq<char> {
    "No running turn is active."@
}

/// The state after the backend answered a cancel request; `previous` is the
/// turn state from before the request.
pub open spec fn cancel_finished(v: SessionView, outcome: CancelOutcome, previous: TurnState) -> SessionView {
    let restored = if v.turn_state == TurnState::Cancelling {
        previous
    } else {
        v.turn_state
    };
    match outcome {
        CancelOutcome::Cancelled => SessionView {
            pending_action_busy: false,
            ..with_next_tool_activity(
                SessionView {
                    pending_permissions: Seq::empty(),
                    turn_state: TurnState::Idle,
                    ..v
                },
                "cancel"@,
                "Cancel turn"@,
                "Cancel requested for the running turn."@,
                Seq::empty(),
            )
        },
        CancelOutcome::NotRunning => SessionView {
            action_error: Some(no_running_turn_message()),
            turn_state: restored,
            pending_action_busy: false,
            ..v
        },
        CancelOutcome::Failed(message) => SessionView {
            action_error: Some(message@),
            turn_state: restored,
            pending_action_busy: false,
            ..v
        },
    }
}

/// The list without the sessions of the given id.
pub open spec fn without_session(s: Seq<SessionItemView>, id: Seq<char>) -> Seq<SessionItemView>
    decreases s.len(),
{
    if s.len() == 0 {
        s
    } else {
        (if s[0].id == id {
            Seq::empty()
        } else {
            seq![s[0]]
        }) + without_session(s.drop_first(), id)
    }
}

/// Removing a session from the list removes exactly that session: no item
/// with its id is left, and every other item stays.
pub proof fn lemma_without_session_removes_only(s: Seq<SessionItemView>, id: Seq<char>)
    ensures
        forall|i: int|
            0 <= i < without_session(s, id).len() ==> (#[trigger] without_session(s, id)[i]).id
                != id,
        forall|i: int|
            0 <= i < s.len() && (#[trigger] s[i]).id != id ==> without_session(s, id).contains(
                s[i],
            ),
    decreases s.len(),
{
    if s.len() > 0 {
        let rest = s.drop_first();
        lemma_without_session_removes_only(rest, id);
        let head: Seq<SessionItemView> = if s[0].id == id {
            Seq::empty()
        } else {
            seq![s[0]]
        };
        let r = without_session(s, id);
        assert(r == head + without_session(rest, id));
        assert forall|i: int| 0 <= i < r.len() implies (#[trigger] r[i]).id != id by {
            if i >= head.len() {
                assert(r[i] == without_session(rest, id)[i - head.len()]);
            }
        }
        assert forall|i: int| 0 <= i < s.len() && (#[trigger] s[i]).id != id implies r.contains(
            s[i],
        ) by {
            if i == 0 {
                assert(r[0] == s[0]);
            } else {
                assert(s[i] == rest[i - 1]);
                let j = choose|j: int| 0 <= j < without_session(rest, id).len() && without_session(
                    rest,
                    id,
                )[j] == rest[i - 1];
                assert(r[j + head.len()] == s[i]);
            }
        }
    }
}

/// The list with the first session of the given id renamed.
pub open spec fn renamed_spec(s: Seq<SessionItemView>, id: Seq<char>, title: Seq<char>) -> Seq<
    SessionItemView,
> {
    let k = index_of_item(s, id);
    if 0 <= k < s.len() {
        s.update(k, SessionItemView { title, ..s[k] })
    } else {
        s
    }
}

/// Removes every session with the given id from the list.
pub fn remove_session_from_list(sessions: &mut Vec<SessionListItem>, session_id: &str)
    ensures
        session_items_view(final(sessions)@) == without_session(
            session_items_view(old(sessions)@),
            session_id@,
        ),
{
    let mut taken: Vec<SessionListItem> = Vec::new();
    std::mem::swap(&mut taken, sessions);
    let ghost ps = taken@;
    let ghost all = session_items_view(ps);
    let mut kept: Vec<SessionListItem> = Vec::new();
    assert(all.skip(0) =~= all);
    for p in it: taken
        invariant
            it.seq() == ps,
            all == session_items_view(ps),
            without_session(all, session_id@) == session_items_view(kept@) + without_session(
                all.skip(it.index() as int),
                session_id@,
            ),
    {
        let i = Ghost(it.index() as int);
        let ghost before = kept@;
        assert(all.skip(i@).drop_first() =~= all.skip(i@ + 1));
        assert(all.skip(i@)[0] == p@);
        if !str_eq(p.id.as_str(), session_id) {
            kept.push(p);
            assert(session_items_view(kept@) =~= session_items_view(before) + seq![all[i@]]);
        } else {
            assert(session_items_view(before) + (Seq::<SessionItemView>::empty() + without_session(
                all.skip(i@ + 1),
                session_id@,
            )) =~= session_items_view(before) + without_session(all.skip(i@ + 1), session_id@));
        }
    }
    assert(all.skip(ps.len() as int) =~= Seq::<SessionItemView>::empty());
    assert(session_items_view(kept@) + Seq::<SessionItemView>::empty() =~= session_items_view(
        kept@,
    ));
    *sessions = kept;
}

/// Gives the first session with the given id a new title.
pub fn rename_session_in_list(sessions: &mut Vec<SessionListItem>, session_id: &str, title: String)
    ensures
        session_items_view(final(sessions)@) == renamed_spec(
            session_items_view(old(sessions)@),
            session_id@,
            title@,
        ),
{
    let k = find_session_item(sessions, session_id);
    if k < sessions.len() {
        let ghost before = sessions@;
        let ghost t = title;
        let mut item = sessions.remove(k);
        item.title = title;
        sessions.insert(k, item);
        assert(session_items_view(sessions@) =~= session_items_view(before).update(
            k as int,
            SessionItemView { title: t@, ..session_items_view(before)[k as int] },
        ));
    }
}

/// Where to go after the current session was deleted: the first remaining
/// session, or the home page.
pub open spec fn next_destination_spec(s: Seq<SessionItemView>) -> Seq<char> {
    if s.len() > 0 {
        "/app/sessions/"@ + encode_component_spec(s[0].id)
    } else {
        "/app/"@
    }
}

/// The page to show after the current session was deleted.
pub fn next_session_destination(sessions: &[SessionListItem]) -> (path: String)
    ensures
        path@ == next_destination_spec(session_items_view(sessions@)),
{
    if sessions.len() > 0 {
        app_session_path(sessions[0].id.as_str())
    } else {
        "/app/".to_string()
    }
}

/// Where the home page sends a visitor: the register or sign-in page, or
/// (`None`) into a prepared chat.
pub fn home_target_path(target: HomeRouteTarget) -> (path: Option<&'static str>)
    ensures
        match target {
            HomeRouteTarget::Register => path is Some && path.unwrap()@ == "/app/register/"@,
            HomeRouteTarget::SignIn => path is Some && path.unwrap()@ == "/app/sign-in/"@,
            HomeRouteTarget::PrepareSession => path is None,
        },
{
    match target {
        HomeRouteTarget::Register => Some("/app/register/"),
        HomeRouteTarget::SignIn => Some("/app/sign-in/"),
        HomeRouteTarget::PrepareSession => None,
    }
}

/// How a session that could not be loaded is shown: unavailable when the
/// backend cannot resume it, failed otherwise.
pub fn session_load_failure_lifecycle(resume_unavailable: bool) -> (lifecycle: SessionLifecycle)
    ensures
        lifecycle == (if resume_unavailable {
            SessionLifecycle::Unavailable
        } else {
            SessionLifecycle::Error
        }),
{
    if resume_unavailable {
        SessionLifecycle::Unavailable
    } else {
        SessionLifecycle::Error
    }
}

/// Whether the live stream of a loaded session is opened: only while the
/// session is not closed.
pub fn should_open_session_stream(status: SessionStatus) -> (open: bool)
    ensures
        open == (status != SessionStatus::Closed),
{
    status != SessionStatus::Closed
}

/// Whether a loaded session no longer needs the session prepared on the home
/// page: it is closed, or the user has written in it.
pub open spec fn should_clear_prepared_spec(status: SessionLifecycle, entries: Seq<EntryView>) -> bool {
    status == SessionLifecycle::Closed || exists|i: int|
        0 <= i < entries.len() && (#[trigger] entries[i]).role == SessionEntryRole::User
}

/// Whether the session prepared on the home page can be forgotten once this
/// session is loaded.
pub fn should_clear_prepared_session_on_load(
    session_status: SessionLifecycle,
    entries: &[SessionEntry],
) -> (r: bool)
    ensures
        r == should_clear_prepared_spec(session_status, entries_view(entries@)),
{
    if session_status == SessionLifecycle::Closed {
        return true;
    }
    let mut i: usize = 0;
    while i < entries.len()
        invariant
            i <= entries.len(),
            forall|j: int| 0 <= j < i ==> (#[trigger] entries@[j]).role != SessionEntryRole::User,
        decreases entries.len() - i,
    {
        if entries[i].role == SessionEntryRole::User {
            assert(entries_view(entries@)[i as int].role == SessionEntryRole::User);
            return true;
        }
        i = i + 1;
    }
    proof {
        let s = entries_view(entries@);
        assert forall|j: int| 0 <= j < s.len() implies (#[trigger] s[j]).role
            != SessionEntryRole::User by {
            assert(s[j] == entries@[j]@);
        }
    }
    false
}

/// The detail of the help activity entry.
pub open spec fn slash_commands_detail_spec(count: nat) -> Seq<char> {
    if count == 0 {
        "No browser slash commands are available."@
    } else {
        "Use the composer for `/help` and the on-screen controls for cancel or permission actions."@
    }
}

/// The detail shown with the list of browser slash commands.
pub fn available_slash_commands_detail(commands: &[CompletionCandidate]) -> (detail: String)
    ensures
        detail@ == slash_commands_detail_spec(commands@.len()),
{
    if commands.len() == 0 {
        "No browser slash commands are available.".to_string()
    } else {
        "Use the composer for `/help` and the on-screen controls for cancel or permission actions.".to_string()
    }
}

/// The state with the slash palette closed.
pub open spec fn palette_dismissed(v: SessionView) -> SessionView {
    SessionView { slash_candidates: Seq::empty(), slash_selected_index: 0, ..v }
}

impl SessionState {
    /// Closes the slash-command palette.
    pub fn dismiss_slash_palette(&mut self)
        ensures
            final(self)@ == palette_dismissed(old(self)@),
    {
        self.slash_candidates = Vec::new();
        self.slash_selected_index = 0;
    }

    /// Shows the completions of the draft in the slash palette, or closes it
    /// when there are none.
    pub fn update_slash_completion(&mut self, candidates: Vec<CompletionCandidate>)
        ensures
            final(self)@ == (if candidates@.len() == 0 {
                palette_dismissed(old(self)@)
            } else {
                SessionView {
                    slash_candidates: candidates@,
                    slash_selected_index: 0,
                    ..old(self)@
                }
            }),
    {
        if candidates.len() == 0 {
            self.dismiss_slash_palette();
        } else {
            self.slash_candidates = candidates;
            self.slash_selected_index = 0;
        }
    }

    /// Puts the completion of the candidate at `index` into the draft, when
    /// there is such a candidate and a completion of the draft by it.
    pub fn apply_slash_completion_at(&mut self, index: usize, completion: Option<String>)
        ensures
            final(self)@ == (if index < old(self)@.slash_candidates.len() && completion is Some {
                SessionView {
                    draft: completion.unwrap()@,
                    slash_selected_index: index as nat,
                    ..old(self)@
                }
            } else {
                old(self)@
            }),
    {
        if index >= self.slash_candidates.len() {
            return ;
        }
        match completion {
            Some(next_draft) => {
                self.draft = next_draft;
                self.slash_selected_index = index;
            },
            None => {},
        }
    }

    /// A slash command was accepted: the draft and palette are cleared.
    pub fn accept_slash_command(&mut self)
        ensures
            final(self)@ == palette_dismissed(
                SessionView { action_error: None, draft: Seq::empty(), ..old(self)@ },
            ),
    {
        self.action_error = None;
        self.draft = String::new();
        self.dismiss_slash_palette();
    }

    /// A slash command could not be parsed: the reason is shown as activity.
    pub fn reject_slash_command(&mut self, message: &str)
        requires
            old(self).tool_activity_serial < u64::MAX,
        ensures
            final(self)@ == with_next_tool_activity(
                old(self)@,
                "slash"@,
                "Slash command"@,
                message@,
                Seq::empty(),
            ),
    {
        self.record_tool_activity("slash", "Slash command", message, &[]);
    }

    /// Runs the `/help` slash command: lists the browser slash commands.
    pub fn run_help_slash_command(&mut self, commands: Vec<CompletionCandidate>)
        requires
            old(self).tool_activity_serial < u64::MAX,
        ensures
            final(self)@ == with_next_tool_activity(
                old(self)@,
                "help"@,
                "Available slash commands"@,
                slash_commands_detail_spec(commands@.len()),
                commands@,
            ),
    {
        let detail = available_slash_commands_detail(commands.as_slice());
        self.record_tool_activity(
            "help",
            "Available slash commands",
            detail.as_str(),
            commands.as_slice(),
        );
    }

    /// A prompt is being sent.
    pub fn begin_prompt_submission(&mut self)
        ensures
            final(self)@ == palette_dismissed(
                SessionView {
                    turn_state: TurnState::Submitting,
                    action_error: None,
                    ..old(self)@
                },
            ),
    {
        self.turn_state = TurnState::Submitting;
        self.action_error = None;
        self.dismiss_slash_palette();
    }

    /// The backend answered a prompt: on success the draft is cleared and the
    /// reply awaited, on failure the error is shown and the turn ends.
    pub fn finish_prompt_submission(&mut self, result: Result<(), String>)
        ensures
            final(self)@ == match result {
                Ok(()) => SessionView {
                    draft: Seq::empty(),
                    turn_state: TurnState::AwaitingReply,
                    ..old(self)@
                },
                Err(message) => SessionView {
                    action_error: Some(message@),
                    turn_state: TurnState::Idle,
                    ..old(self)@
                },
            },
    {
        match result {
            Ok(()) => {
                self.draft = String::new();
                self.turn_state = TurnState::AwaitingReply;
            },
            Err(message) => {
                self.action_error = Some(message);
                self.turn_state = TurnState::Idle;
            },
        }
    }

    /// An answer to a permission request is being sent.
    pub fn begin_permission_resolution(&mut self)
        ensures
            final(self)@ == (SessionView {
                pending_action_busy: true,
                action_error: None,
                ..old(self)@
            }),
    {
        self.pending_action_busy = true;
        self.action_error = None;
    }

    /// The backend accepted the answer to a permission request: the request
    /// is no longer pending, the turn goes on or ends, and the answer is shown
    /// as activity.
    pub fn apply_permission_resolution_success(
        &mut self,
        request_id: &str,
        decision: &PermissionDecision,
    )
        requires
            old(self).tool_activity_serial < u64::MAX,
        ensures
            final(self)@ == resolution_succeeded(old(self)@, request_id@, *decision),
    {
        let mut pending: Vec<PermissionRequest> = Vec::new();
        std::mem::swap(&mut pending, &mut self.pending_permissions);
        self.pending_permissions = retain_other_permissions(pending, request_id);
        self.turn_state = permission_resolution_turn_state(decision);
        let detail = permission_resolution_detail(request_id, decision);
        self.record_tool_activity("permission", "Permission resolved", detail.as_str(), &[]);
    }

    /// The backend answered the answer to a permission request.
    pub fn finish_permission_resolution(
        &mut self,
        request_id: &str,
        decision: &PermissionDecision,
        result: Result<(), String>,
    )
        requires
            old(self).tool_activity_serial < u64::MAX,
        ensures
            final(self)@ == (SessionView {
                pending_action_busy: false,
                ..match result {
                    Ok(()) => resolution_succeeded(old(self)@, request_id@, *decision),
                    Err(message) => SessionView { action_error: Some(message@), ..old(self)@ },
                }
            }),
    {
        match result {
            Ok(()) => self.apply_permission_resolution_success(request_id, decision),
            Err(message) => {
                self.action_error = Some(message);
            },
        }
        self.pending_action_busy = false;
    }

    /// A request to cancel the running turn is being sent; returns the turn
    /// state from before.
    pub fn begin_cancel_turn(&mut self) -> (previous: TurnState)
        ensures
            previous == old(self)@.turn_state,
            final(self)@ == (SessionView {
                pending_action_busy: true,
                turn_state: TurnState::Cancelling,
                action_error: None,
                ..old(self)@
            }),
    {
        let previous = self.turn_state;
        self.pending_action_busy = true;
        self.turn_state = TurnState::Cancelling;
        self.action_error = None;
        previous
    }

    /// The backend answered a cancel request.
    pub fn finish_cancel_turn(&mut self, outcome: CancelOutcome, previous: TurnState)
        requires
            old(self).tool_activity_serial < u64::MAX,
        ensures
            final(self)@ == cancel_finished(old(self)@, outcome, previous),
    {
        match outcome {
            CancelOutcome::Cancelled => {
                self.pending_permissions = Vec::new();
                self.turn_state = TurnState::Idle;
                assert(permissions_view(self.pending_permissions@) =~= Seq::<PermissionView>::empty());
                self.record_tool_activity(
                    "cancel",
                    "Cancel turn",
                    "Cancel requested for the running turn.",
                    &[],
                );
            },
            CancelOutcome::NotRunning => {
                self.action_error = Some("No running turn is active.".to_string());
                if self.turn_state == TurnState::Cancelling {
                    self.turn_state = previous;
                }
            },
            CancelOutcome::Failed(message) => {
                self.action_error = Some(message);
                if self.turn_state == TurnState::Cancelling {
                    self.turn_state = previous;
                }
            },
        }
        self.pending_action_busy = false;
    }

    /// Starts renaming a session; returns the trimmed title to send, or
    /// `None` (and leaves rename mode) when it is blank.
    pub fn begin_rename_session(&mut self, session_id: &str, new_title: &str) -> (title: Option<
        String,
    >)
        ensures
            trim(new_title@).len() == 0 ==> title is None && final(self)@ == (SessionView {
                list: SessionListView {
                    rename_draft: Seq::empty(),
                    renaming_id: None,
                    ..old(self)@.list
                },
                ..old(self)@
            }),
            trim(new_title@).len() > 0 ==> title is Some && title.unwrap()@ == trim(new_title@)
                && final(self)@ == (SessionView {
                list: SessionListView {
                    error: None,
                    saving_rename_id: Some(session_id@),
                    ..old(self)@.list
                },
                ..old(self)@
            }),
    {
        let chars = chars_of(new_title);
        let trimmed = trim_chars(chars.as_slice());
        if trimmed.len() == 0 {
            self.list.rename_draft = String::new();
            self.list.renaming_id = None;
            return None;
        }
        self.list.error = None;
        self.list.saving_rename_id = Some(session_id.to_string());
        Some(string_from_chars(trimmed.as_slice()))
    }

    /// The backend answered a rename: on success the list shows the new
    /// title and rename mode ends; on failure the error is shown and the
    /// draft kept for another try.
    pub fn finish_rename_session(
        &mut self,
        session_id: &str,
        new_title: &str,
        result: Result<String, String>,
    )
        ensures
            final(self)@ == (SessionView {
                list: SessionListView {
                    saving_rename_id: None,
                    ..match result {
                        Ok(title) => SessionListView {
                            items: renamed_spec(old(self)@.list.items, session_id@, title@),
                            rename_draft: Seq::empty(),
                            renaming_id: None,
                            ..old(self)@.list
                        },
                        Err(message) => SessionListView {
                            error: Some(message@),
                            rename_draft: new_title@,
                            renaming_id: Some(session_id@),
                            ..old(self)@.list
                        },
                    }
                },
                ..old(self)@
            }),
    {
        match result {
            Ok(title) => {
                rename_session_in_list(&mut self.list.items, session_id, title);
                self.list.rename_draft = String::new();
                self.list.renaming_id = None;
            },
            Err(message) => {
                self.list.error = Some(message);
                self.list.rename_draft = new_title.to_string();
                self.list.renaming_id = Some(session_id.to_string());
            },
        }
        self.list.saving_rename_id = None;
    }

    /// Whether deleting `session_id` must wait: another delete is running, or
    /// it is the current session and that session is busy.
    pub fn delete_session_is_blocked(
        &self,
        session_id: &str,
        current_session_id: &str,
        current_session_busy: bool,
    ) -> (blocked: bool)
        ensures
            blocked == (self@.list.deleting_id is Some || (session_id@ == current_session_id@
                && current_session_busy)),
    {
        self.list.deleting_id.is_some() || (str_eq(session_id, current_session_id)
            && current_session_busy)
    }

    /// A session is being deleted.
    pub fn begin_delete_session(&mut self, session_id: &str)
        ensures
            final(self)@ == (SessionView {
                list: SessionListView {
                    deleting_id: Some(session_id@),
                    error: None,
                    ..old(self)@.list
                },
                ..old(self)@
            }),
    {
        self.list.deleting_id = Some(session_id.to_string());
        self.list.error = None;
    }

    /// The backend deleted a session: it leaves the list.
    pub fn apply_session_deleted(&mut self, session_id: &str)
        ensures
            final(self)@ == (SessionView {
                list: SessionListView {
                    items: without_session(old(self)@.list.items, session_id@),
                    ..old(self)@.list
                },
                ..old(self)@
            }),
    {
        remove_session_from_list(&mut self.list.items, session_id);
    }

    /// The delete of another session finished.
    pub fn finish_other_session_delete(&mut self)
        ensures
            final(self)@ == (SessionView {
                list: SessionListView { deleting_id: None, ..old(self)@.list },
                ..old(self)@
            }),
    {
        self.list.deleting_id = None;
    }

    /// The current session was deleted but the page could not leave it: the
    /// session is shown as unavailable and the error in the list.
    pub fn handle_current_session_delete_navigation_error(&mut self, message: String)
        ensures
            final(self)@ == (SessionView {
                pending_permissions: Seq::empty(),
                turn_state: TurnState::Idle,
                session_status: SessionLifecycle::Unavailable,
                list: SessionListView {
                    error: Some(message@),
                    deleting_id: None,
                    ..old(self)@.list
                },
                ..old(self)@
            }),
    {
        self.pending_permissions = Vec::new();
        self.turn_state = TurnState::Idle;
        self.session_status = SessionLifecycle::Unavailable;
        self.list.error = Some(message);
        self.list.deleting_id = None;
        assert(permissions_view(self.pending_permissions@) =~= Seq::<PermissionView>::empty());
    }

    /// The backend refused to delete a session.
    pub fn handle_delete_session_error(&mut self, message: String)
        ensures
            final(self)@ == (SessionView {
                list: SessionListView {
                    error: Some(message@),
                    deleting_id: None,
                    ..old(self)@.list
                },
                ..old(self)@
            }),
    {
        self.list.error = Some(message);
        self.list.deleting_id = None;
    }

    /// The backend answered a request for the list of sessions.
    pub fn apply_session_list(&mut self, result: Result<Vec<SessionListItem>, String>)
        ensures
            final(self)@ == (SessionView {
                list: match result {
                    Ok(items) => SessionListView {
                        items: session_items_view(items@),
                        loaded: true,
                        error: None,
                        ..old(self)@.list
                    },
                    Err(message) => SessionListView {
                        loaded: true,
                        error: Some(message@),
                        ..old(self)@.list
                    },
                },
                ..old(self)@
            }),
    {
        self.list.error = None;
        match result {
            Ok(items) => {
                self.list.items = items;
                self.list.loaded = true;
            },
            Err(message) => {
                self.list.loaded = true;
                self.list.error = Some(message);
            },
        }
    }

    /// Applies a session loaded when the page opens, with the turn state
    /// that its pending permissions call for; returns whether the session
    /// prepared on the home page can be forgotten.
    pub fn apply_loaded_session(&mut self, session: SessionSnapshot, turn_state_for_session: TurnState) -> (clear_prepared: bool)
        ensures
            final(self)@ == (SessionView {
                entries: bootstrap_entries(session),
                pending_permissions: permissions_view(session.pending_permissions@),
                session_status: lifecycle_of(session.status),
                turn_state: turn_state_for_session,
                ..old(self)@
            }),
            clear_prepared == should_clear_prepared_spec(
                lifecycle_of(session.status),
                bootstrap_entries(session),
            ),
    {
        let bootstrap = session_bootstrap_from_snapshot(session);
        let should_clear = should_clear_prepared_session_on_load(
            bootstrap.session_status,
            bootstrap.entries.as_slice(),
        );
        self.entries = bootstrap.entries;
        self.pending_permissions = bootstrap.pending_permissions;
        self.session_status = bootstrap.session_status;
        self.turn_state = turn_state_for_session;
        should_clear
    }

    /// The session could not be loaded: the error is shown as the connection
    /// error and as activity, and the session takes the given lifecycle.
    pub fn apply_bootstrap_failure_signals(&mut self, message: String, session_lifecycle: SessionLifecycle)
        requires
            old(self).tool_activity_serial < u64::MAX,
        ensures
            final(self)@ == (SessionView {
                session_status: session_lifecycle,
                turn_state: TurnState::Idle,
                ..with_next_tool_activity(
                    SessionView { connection_error: Some(message@), ..old(self)@ },
                    "connection"@,
                    "Connection"@,
                    message@,
                    Seq::empty(),
                )
            }),
    {
        let detail = copy_string(&message);
        self.connection_error = Some(message);
        self.record_tool_activity("connection", "Connection", detail.as_str(), &[]);
        self.session_status = session_lifecycle;
        self.turn_state = TurnState::Idle;
    }
}

/// Removing a session keeps the other sessions in their order: for every
/// list and id, the result is the list filtered to the sessions of other
/// ids.
pub proof fn lemma_without_session_keeps_order(s: Seq<SessionItemView>, id: Seq<char>)
    ensures
        without_session(s, id) == s.filter(|x: SessionItemView| x.id != id),
    decreases s.len(),
{
    let pred = |x: SessionItemView| x.id != id;
    if s.len() == 0 {
        reveal_with_fuel(Seq::filter, 1);
    } else {
        lemma_without_session_keeps_order(s.drop_first(), id);
        let head = seq![s[0]];
        assert(s =~= head + s.drop_first());
        Seq::filter_distributes_over_add(head, s.drop_first(), pred);
        reveal_with_fuel(Seq::filter, 2);
        assert(head.drop_last() =~= Seq::<SessionItemView>::empty());
        assert(head.filter(pred) =~= (if s[0].id == id {
            Seq::<SessionItemView>::empty()
        } else {
            head
        }));
    }
}

/// The session prepared on the home page is forgotten once the loaded
/// session shows that the user wrote in it, or once it is closed; an open
/// session without any entry of the user keeps it.
pub proof fn lemma_prepared_session_cleared_by_user_entry(
    status: SessionLifecycle,
    entries: Seq<EntryView>,
    i: int,
)
    ensures
        0 <= i < entries.len() && entries[i].role == SessionEntryRole::User
            ==> should_clear_prepared_spec(status, entries),
        status == SessionLifecycle::Closed ==> should_clear_prepared_spec(status, entries),
        status != SessionLifecycle::Closed && (forall|j: int|
            0 <= j < entries.len() ==> (#[trigger] entries[j]).role != SessionEntryRole::User)
            ==> !should_clear_prepared_spec(status, entries),
{
}

} // verus!
