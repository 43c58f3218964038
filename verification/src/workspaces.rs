//! The workspaces page: what its cards and buttons say, and how the page
//! state follows the user and the backend.
use vstd::prelude::*;

use crate::contracts::{
    session_items_view, SessionItemView, SessionListItem, WorkspaceBranch, WorkspaceSummary,
};
use crate::icons::{busy_or, AppIcon};
use crate::return_to::{
    path_with_return_to, session_return_to_path, session_return_to_path_from_location,
    session_return_to_spec,
};
use crate::routing::encode_component_spec;
use crate::session_state::opt_view;
use crate::text::{
    chars_of, concat_str, copy_string, decimal, decimal_string, str_eq, trim, trim_chars,
};
use crate::time_format::{in_chrono_range, utc_date_stamp, utc_timestamp_text};

verus! {

/// Who may see the workspaces page.
#[derive(Clone, Copy, Debug, PartialEq, Eq, Structural)]
pub enum WorkspacesRouteAccess {
    SignedIn,
    RegisterRequired,
    SignInRequired,
}

/// The branch a new chat starts on: the first one listed, or none.
pub fn default_branch_ref_name(branches: &[WorkspaceBranch]) -> (ref_name: String)
    ensures
        ref_name@ == (if branches@.len() > 0 {
            branches@[0].ref_name@
        } else {
            Seq::empty()
        }),
{
    if branches.len() > 0 {
        copy_string(&branches[0].ref_name)
    } else {
        String::new()
    }
}

/// The workspaces page, with a link back to `return_to_path`.
pub fn workspaces_path_with_return_to(return_to_path: &str) -> (path: String)
    ensures
        path@ == "/app/workspaces/"@ + "?return_to="@ + encode_component_spec(return_to_path@),
{
    path_with_return_to("/app/workspaces/", return_to_path)
}

/// The session the workspaces page links back to, given its query string.
pub fn workspaces_back_to_chat_path(search: &str) -> (path: Option<String>)
    ensures
        opt_view(path) == session_return_to_spec(search@),
{
    session_return_to_path(search)
}

/// The session the workspaces page links back to where no browser window is
/// at hand: none.
pub fn workspaces_back_to_chat_path_from_location() -> (path: Option<String>)
    ensures
        path is None,
{
    session_return_to_path_from_location()
}

/// What a workspace card says about its repository.
pub fn workspace_repository_label(upstream_url: Option<&str>) -> (label: String)
    ensures
        label@ == match upstream_url {
            Some(url) => url@,
            None => "Local workspace"@,
        },
{
    match upstream_url {
        Some(url) => url.to_string(),
        None => "Local workspace".to_string(),
    }
}

/// What a workspace card shows.
#[derive(Clone, Debug, PartialEq, Eq)]
pub struct WorkspaceCardDisplay {
    pub workspace_id: String,
    pub workspace_name: String,
    pub workspace_repository_label: String,
    pub workspace_status: String,
    pub created_label: String,
}

/// What a workspace card shows: the workspace's id, name, repository (or
/// `Local workspace`), status and creation date.
pub fn workspace_card_display(workspace: &WorkspaceSummary) -> (display: WorkspaceCardDisplay)
    requires
        in_chrono_range(workspace.created_at as int),
    ensures
        display.workspace_id@ == workspace.workspace_id@,
        display.workspace_name@ == workspace.name@,
        display.workspace_repository_label@ == match workspace.upstream_url {
            Some(url) => url@,
            None => "Local workspace"@,
        },
        display.workspace_status@ == workspace.status@,
        utc_timestamp_text(workspace.created_at as int, "%Y-%m-%d"@) == Some(
            display.created_label@,
        ),
{
    let repository = match &workspace.upstream_url {
        Some(url) => workspace_repository_label(Some(url.as_str())),
        None => workspace_repository_label(None),
    };
    WorkspaceCardDisplay {
        workspace_id: copy_string(&workspace.workspace_id),
        workspace_name: copy_string(&workspace.name),
        workspace_repository_label: repository,
        workspace_status: copy_string(&workspace.status),
        created_label: utc_date_stamp(workspace.created_at),
    }
}

/// The label of a card's rename button.
pub fn workspace_rename_label() -> (label: &'static str)
    ensures
        label@ == "Rename"@,
{
    "Rename"
}

/// The label of a card's delete button.
pub fn workspace_delete_label(is_deleting: bool) -> (label: &'static str)
    ensures
        label@ == (if is_deleting {
            "Deleting…"@
        } else {
            "Delete"@
        }),
{
    if is_deleting {
        "Deleting…"
    } else {
        "Delete"
    }
}

/// The label of a card's new-chat button.
pub fn workspace_new_chat_label(is_opening: bool) -> (label: &'static str)
    ensures
        label@ == (if is_opening {
            "Opening…"@
        } else {
            "New chat"@
        }),
{
    if is_opening {
        "Opening…"
    } else {
        "New chat"
    }
}

/// The label of a card's save button.
pub fn workspace_save_label(is_saving: bool) -> (label: &'static str)
    ensures
        label@ == (if is_saving {
            "Saving…"@
        } else {
            "Save"@
        }),
{
    if is_saving {
        "Saving…"
    } else {
        "Save"
    }
}

/// The label of a card's cancel button.
pub fn workspace_cancel_label() -> (label: &'static str)
    ensures
        label@ == "Cancel"@,
{
    "Cancel"
}

/// The icon of a card's delete button.
pub fn workspace_delete_icon(is_deleting: bool) -> (icon: AppIcon)
    ensures
        icon == (if is_deleting {
            AppIcon::Busy
        } else {
            AppIcon::Delete
        }),
{
    busy_or(is_deleting, AppIcon::Delete)
}

/// The icon of a card's new-chat button.
pub fn workspace_new_chat_icon(is_opening: bool) -> (icon: AppIcon)
    ensures
        icon == (if is_opening {
            AppIcon::Busy
        } else {
            AppIcon::NewChat
        }),
{
    busy_or(is_opening, AppIcon::NewChat)
}

/// The icon of a card's save button.
pub fn workspace_save_icon(is_saving: bool) -> (icon: AppIcon)
    ensures
        icon == (if is_saving {
            AppIcon::Busy
        } else {
            AppIcon::Save
        }),
{
    busy_or(is_saving, AppIcon::Save)
}

/// The label of the button that opens the create-workspace dialog.
pub fn create_workspace_trigger_label() -> (label: &'static str)
    ensures
        label@ == "New workspace"@,
{
    "New workspace"
}

/// The label of the create-workspace dialog's submit button.
pub fn create_workspace_button_label(creating: bool) -> (label: &'static str)
    ensures
        label@ == (if creating {
            "Saving…"@
        } else {
            "Create workspace"@
        }),
{
    if creating {
        "Saving…"
    } else {
        "Create workspace"
    }
}

/// `No workspaces`, `1 workspace`, else the count and `workspaces`.
pub open spec fn workspace_count_label_spec(count: nat) -> Seq<char> {
    if count == 0 {
        "No workspaces"@
    } else if count == 1 {
        "1 workspace"@
    } else {
        decimal(count) + " workspaces"@
    }
}

/// How many workspaces the registry lists.
pub fn workspace_count_label(count: usize) -> (label: String)
    ensures
        label@ == workspace_count_label_spec(count as nat),
{
    if count == 0 {
        "No workspaces".to_string()
    } else if count == 1 {
        "1 workspace".to_string()
    } else {
        let number = decimal_string(count as u64);
        concat_str(number.as_str(), " workspaces")
    }
}

/// Whether the optional selected workspace id is `workspace_id`.
pub fn workspace_id_flag(selected: &Option<String>, workspace_id: &str) -> (r: bool)
    ensures
        r == (opt_view(*selected) == Some(workspace_id@)),
{
    match selected {
        Some(id) => str_eq(id.as_str(), workspace_id),
        None => false,
    }
}

/// The sessions of one workspace, once loaded.
#[derive(Clone, Debug, PartialEq, Eq)]
pub struct WorkspaceSessions {
    pub workspace_id: String,
    pub sessions: Vec<SessionListItem>,
}

/// The abstract value of loaded workspace sessions: workspace id and its
/// sessions.
pub open spec fn workspace_sessions_view(s: Seq<WorkspaceSessions>) -> Seq<(Seq<char>, Seq<SessionItemView>)> {
    s.map_values(|w: WorkspaceSessions| (w.workspace_id@, session_items_view(w.sessions@)))
}

/// The index of the first entry for a workspace, or the length.
pub open spec fn index_of_workspace(s: Seq<(Seq<char>, Seq<SessionItemView>)>, id: Seq<char>) -> int
    decreases s.len(),
{
    if s.len() == 0 {
        0
    } else if s[0].0 == id {
        0
    } else {
        1 + index_of_workspace(s.drop_first(), id)
    }
}

proof fn lemma_index_of_workspace(s: Seq<(Seq<char>, Seq<SessionItemView>)>, id: Seq<char>)
    ensures
        0 <= index_of_workspace(s, id) <= s.len(),
        index_of_workspace(s, id) < s.len() ==> s[index_of_workspace(s, id)].0 == id,
        forall|j: int| 0 <= j < index_of_workspace(s, id) ==> (#[trigger] s[j]).0 != id,
    decreases s.len(),
{
    if s.len() > 0 && s[0].0 != id {
        lemma_index_of_workspace(s.drop_first(), id);
        assert forall|j: int| 0 <= j < index_of_workspace(s, id) implies (#[trigger] s[j]).0 != id by {
            if j > 0 {
                assert(s[j] == s.drop_first()[j - 1]);
            }
        }
    }
}

proof fn lemma_index_of_workspace_unique(
    s: Seq<(Seq<char>, Seq<SessionItemView>)>,
    id: Seq<char>,
    k: int,
)
    requires
        0 <= k <= s.len(),
        k < s.len() ==> s[k].0 == id,
        forall|j: int| 0 <= j < k ==> (#[trigger] s[j]).0 != id,
    ensures
        index_of_workspace(s, id) == k,
    decreases s.len(),
{
    if s.len() > 0 && k > 0 {
        assert(s[0].0 != id);
        assert forall|j: int| 0 <= j < k - 1 implies (#[trigger] s.drop_first()[j]).0 != id by {
            assert(s.drop_first()[j] == s[j + 1]);
        }
        lemma_index_of_workspace_unique(s.drop_first(), id, k - 1);
    }
}

/// The loaded sessions of a workspace, if any.
pub open spec fn lookup_workspace_sessions(
    s: Seq<(Seq<char>, Seq<SessionItemView>)>,
    id: Seq<char>,
) -> Option<Seq<SessionItemView>> {
    let k = index_of_workspace(s, id);
    if 0 <= k < s.len() {
        Some(s[k].1)
    } else {
        None
    }
}

/// The loaded sessions with those of one workspace set.
pub open spec fn store_sessions_spec(
    s: Seq<(Seq<char>, Seq<SessionItemView>)>,
    id: Seq<char>,
    sessions: Seq<SessionItemView>,
) -> Seq<(Seq<char>, Seq<SessionItemView>)> {
    let k = index_of_workspace(s, id);
    if 0 <= k < s.len() {
        s.update(k, (id, sessions))
    } else {
        s.push((id, sessions))
    }
}

fn find_workspace_sessions(entries: &Vec<WorkspaceSessions>, id: &str) -> (k: usize)
    ensures
        k == index_of_workspace(workspace_sessions_view(entries@), id@),
        k <= entries.len(),
{
    let ghost s = workspace_sessions_view(entries@);
    let mut i: usize = 0;
    while i < entries.len()
        invariant
            i <= entries.len(),
            s == workspace_sessions_view(entries@),
            forall|j: int| 0 <= j < i ==> (#[trigger] s[j]).0 != id@,
        decreases entries.len() - i,
    {
        if str_eq(entries[i].workspace_id.as_str(), id) {
            proof {
                lemma_index_of_workspace_unique(s, id@, i as int);
            }
            return i;
        }
        i = i + 1;
    }
    proof {
        lemma_index_of_workspace_unique(s, id@, i as int);
    }
    i
}

fn copy_session_item(item: &SessionListItem) -> (r: SessionListItem)
    ensures
        r@ == item@,
{
    SessionListItem {
        id: copy_string(&item.id),
        title: copy_string(&item.title),
        status: item.status,
        last_activity_at: item.last_activity_at,
    }
}

fn copy_session_items(items: &Vec<SessionListItem>) -> (r: Vec<SessionListItem>)
    ensures
        session_items_view(r@) == session_items_view(items@),
{
    let mut r: Vec<SessionListItem> = Vec::new();
    let mut i: usize = 0;
    while i < items.len()
        invariant
            i <= items.len(),
            session_items_view(r@) == session_items_view(items@).take(i as int),
        decreases items.len() - i,
    {
        let ghost before = r@;
        r.push(copy_session_item(&items[i]));
        assert(session_items_view(r@) =~= session_items_view(before).push(items@[i as int]@));
        assert(session_items_view(items@).take(i + 1) =~= session_items_view(items@).take(
            i as int,
        ).push(items@[i as int]@));
        i = i + 1;
    }
    assert(session_items_view(items@).take(items.len() as int) =~= session_items_view(items@));
    r
}

/// The loaded sessions of a workspace, if they were loaded.
pub fn workspace_sessions_of(entries: &Vec<WorkspaceSessions>, workspace_id: &str) -> (sessions:
    Option<Vec<SessionListItem>>)
    ensures
        match sessions {
            Some(list) => lookup_workspace_sessions(
                workspace_sessions_view(entries@),
                workspace_id@,
            ) == Some(session_items_view(list@)),
            None => lookup_workspace_sessions(workspace_sessions_view(entries@), workspace_id@)
                is None,
        },
{
    let k = find_workspace_sessions(entries, workspace_id);
    proof {
        lemma_index_of_workspace(workspace_sessions_view(entries@), workspace_id@);
    }
    if k < entries.len() {
        let list = copy_session_items(&entries[k].sessions);
        assert(workspace_sessions_view(entries@)[k as int].1 == session_items_view(
            entries@[k as int].sessions@,
        ));
        Some(list)
    } else {
        None
    }
}

/// Sets the loaded sessions of a workspace.
pub fn store_workspace_sessions(
    entries: &mut Vec<WorkspaceSessions>,
    workspace_id: String,
    sessions: Vec<SessionListItem>,
)
    ensures
        workspace_sessions_view(final(entries)@) == store_sessions_spec(
            workspace_sessions_view(old(entries)@),
            workspace_id@,
            session_items_view(sessions@),
        ),
{
    let k = find_workspace_sessions(entries, workspace_id.as_str());
    proof {
        lemma_index_of_workspace(workspace_sessions_view(entries@), workspace_id@);
    }
    let ghost before = entries@;
    let ghost entry_view = (workspace_id@, session_items_view(sessions@));
    let entry = WorkspaceSessions { workspace_id, sessions };
    if k < entries.len() {
        entries.remove(k);
        entries.insert(k, entry);
        assert(workspace_sessions_view(entries@) =~= workspace_sessions_view(before).update(
            k as int,
            entry_view,
        ));
    } else {
        entries.push(entry);
        assert(workspace_sessions_view(entries@) =~= workspace_sessions_view(before).push(
            entry_view,
        ));
    }
}

/// The loaded sessions of a workspace are what was last stored for it: for
/// every list of loaded sessions, workspace and sessions, looking the
/// workspace up after storing gives those sessions.
pub proof fn lemma_lookup_after_store(
    s: Seq<(Seq<char>, Seq<SessionItemView>)>,
    id: Seq<char>,
    sessions: Seq<SessionItemView>,
)
    ensures
        lookup_workspace_sessions(store_sessions_spec(s, id, sessions), id) == Some(sessions),
{
    lemma_index_of_workspace(s, id);
    let k = index_of_workspace(s, id);
    let t = store_sessions_spec(s, id, sessions);
    assert forall|j: int| 0 <= j < k implies (#[trigger] t[j]).0 != id by {
        assert(t[j] == s[j]);
    }
    lemma_index_of_workspace_unique(t, id, k);
}

/// Storing the sessions of one workspace leaves those of the others: for
/// every other workspace, the lookup gives what it gave before.
pub proof fn lemma_lookup_other_after_store(
    s: Seq<(Seq<char>, Seq<SessionItemView>)>,
    id: Seq<char>,
    other: Seq<char>,
    sessions: Seq<SessionItemView>,
)
    requires
        other != id,
    ensures
        lookup_workspace_sessions(store_sessions_spec(s, id, sessions), other)
            == lookup_workspace_sessions(s, other),
{
    lemma_index_of_workspace(s, id);
    lemma_index_of_workspace(s, other);
    let t = store_sessions_spec(s, id, sessions);
    let k = index_of_workspace(s, other);
    assert forall|j: int| 0 <= j < k && j < t.len() implies (#[trigger] t[j]).0 != other by {
        if j < s.len() {
            assert(t[j] == s[j] || t[j].0 == id);
        }
    }
    if k < s.len() {
        assert(t[k] == s[k] || t[k].0 == id);
        lemma_index_of_workspace_unique(t, other, k);
    } else {
        if t.len() > s.len() {
            assert(t[s.len() as int].0 == id);
        }
        lemma_index_of_workspace_unique(t, other, t.len() as int);
    }
}

} // verus!
