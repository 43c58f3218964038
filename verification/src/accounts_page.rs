//! The state of the settings page (accounts and ACP profiles) and how it
//! follows the user and the backend.
use vstd::prelude::*;

use crate::accounts::{password_update, AccountsRouteAccess};
use crate::agent_profiles::{
    agent_command_preview, agent_profile_values_changed, command_preview, strings_view,
    values_changed_spec,
};
use crate::contracts::{AgentProfile, AgentProfileMode, LocalAccount};
use crate::session_state::opt_view;
use crate::text::{copy_string, str_eq, trim};

verus! {

/// Everything the settings page keeps.
pub struct AccountsPageState {
    pub error: Option<String>,
    pub notice: Option<String>,
    pub access: Option<AccountsRouteAccess>,
    pub current_user_id: String,
    pub accounts: Vec<LocalAccount>,
    pub loading_accounts: bool,
    pub create_username: String,
    pub create_password: String,
    pub create_admin: bool,
    pub creating: bool,
    pub checked: bool,
    pub agent_profiles: Vec<AgentProfile>,
    pub agent_profiles_loading: bool,
    pub agent_profile_name: String,
    pub agent_profile_command: String,
    pub agent_profile_mode: AgentProfileMode,
    pub agent_profile_saving: bool,
    pub deleting_agent_profile_id: Option<String>,
}

/// The abstract value of an [`AccountsPageState`].
pub ghost struct AccountsPageView {
    pub error: Option<Seq<char>>,
    pub notice: Option<Seq<char>>,
    pub access: Option<AccountsRouteAccess>,
    pub current_user_id: Seq<char>,
    pub accounts: Seq<LocalAccount>,
    pub loading_accounts: bool,
    pub create_username: Seq<char>,
    pub create_password: Seq<char>,
    pub create_admin: bool,
    pub creating: bool,
    pub checked: bool,
    pub agent_profiles: Seq<AgentProfile>,
    pub agent_profiles_loading: bool,
    pub agent_profile_name: Seq<char>,
    pub agent_profile_command: Seq<char>,
    pub agent_profile_mode: AgentProfileMode,
    pub agent_profile_saving: bool,
    pub deleting_agent_profile_id: Option<Seq<char>>,
}

impl View for AccountsPageState {
    type V = AccountsPageView;

    open spec fn view(&self) -> AccountsPageView {
        AccountsPageView {
            error: opt_view(self.error),
            notice: opt_view(self.notice),
            access: self.access,
            current_user_id: self.current_user_id@,
            accounts: self.accounts@,
            loading_accounts: self.loading_accounts,
            create_username: self.create_username@,
            create_password: self.create_password@,
            create_admin: self.create_admin,
            creating: self.creating,
            checked: self.checked,
            agent_profiles: self.agent_profiles@,
            agent_profiles_loading: self.agent_profiles_loading,
            agent_profile_name: self.agent_profile_name@,
            agent_profile_command: self.agent_profile_command@,
            agent_profile_mode: self.agent_profile_mode,
            agent_profile_saving: self.agent_profile_saving,
            deleting_agent_profile_id: opt_view(self.deleting_agent_profile_id),
        }
    }
}

/// The page with a reload of the accounts started.
pub open spec fn account_reload_started(v: AccountsPageView) -> AccountsPageView {
    AccountsPageView { loading_accounts: true, error: None, ..v }
}

/// The page with a request on its way: no error and no notice shown.
pub open spec fn request_started(v: AccountsPageView) -> AccountsPageView {
    AccountsPageView { error: None, notice: None, ..v }
}

/// The page after a request that failed with `message`.
pub open spec fn request_failed(v: AccountsPageView, message: Seq<char>) -> AccountsPageView {
    AccountsPageView { error: Some(message), ..v }
}

/// The page after it was marked checked where no backend is at hand: done
/// loading, unless it was checked before.
pub open spec fn accounts_host_initialized(v: AccountsPageView) -> AccountsPageView {
    if v.checked {
        v
    } else {
        AccountsPageView { checked: true, loading_accounts: false, ..v }
    }
}

/// Initializing the page twice is initializing it once: the second call
/// changes nothing, even where the page was changed after the first.
pub proof fn lemma_accounts_host_initialized_once(v: AccountsPageView)
    ensures
        accounts_host_initialized(v).checked,
        accounts_host_initialized(accounts_host_initialized(v)) == accounts_host_initialized(v),
        forall|w: AccountsPageView| w.checked ==> #[trigger] accounts_host_initialized(w) == w,
{
}

impl AccountsPageState {
    /// The page before anything is loaded.
    pub fn new() -> (state: Self)
        ensures
            state@ == (AccountsPageView {
                error: None,
                notice: None,
                access: None,
                current_user_id: Seq::empty(),
                accounts: Seq::empty(),
                loading_accounts: true,
                create_username: Seq::empty(),
                create_password: Seq::empty(),
                create_admin: false,
                creating: false,
                checked: false,
                agent_profiles: Seq::empty(),
                agent_profiles_loading: true,
                agent_profile_name: Seq::empty(),
                agent_profile_command: Seq::empty(),
                agent_profile_mode: AgentProfileMode::Host,
                agent_profile_saving: false,
                deleting_agent_profile_id: None,
            }),
    {
        AccountsPageState {
            error: None,
            notice: None,
            access: None,
            current_user_id: String::new(),
            accounts: Vec::new(),
            loading_accounts: true,
            create_username: String::new(),
            create_password: String::new(),
            create_admin: false,
            creating: false,
            checked: false,
            agent_profiles: Vec::new(),
            agent_profiles_loading: true,
            agent_profile_name: String::new(),
            agent_profile_command: String::new(),
            agent_profile_mode: AgentProfileMode::Host,
            agent_profile_saving: false,
            deleting_agent_profile_id: None,
        }
    }

    /// Marks the page checked and done loading where no backend is at hand;
    /// a second call changes nothing.
    pub fn initialize_accounts_page_host(&mut self)
        ensures
            final(self)@ == accounts_host_initialized(old(self)@),
    {
        if self.checked {
            return ;
        }
        self.checked = true;
        self.loading_accounts = false;
    }

    /// Starts the auth check once; returns whether it starts now.
    pub fn begin_auth_check(&mut self) -> (start: bool)
        ensures
            start == !old(self)@.checked,
            final(self)@ == (AccountsPageView { checked: true, ..old(self)@ }),
    {
        let start = !self.checked;
        self.checked = true;
        start
    }

    /// Starts a reload of the accounts.
    pub fn spawn_account_reload(&mut self)
        ensures
            final(self)@ == account_reload_started(old(self)@),
    {
        self.loading_accounts = true;
        self.error = None;
    }

    /// The backend answered the auth check; returns whether the accounts are
    /// to be loaded (only for an admin; a reload has then started).
    pub fn finish_auth_check(&mut self, result: Result<AccountsRouteAccess, String>) -> (load: bool)
        ensures
            load == (result matches Ok(AccountsRouteAccess::Admin(_))),
            final(self)@ == match result {
                Ok(access) => if access is Admin {
                    account_reload_started(AccountsPageView { access: Some(access), ..old(self)@ })
                } else {
                    AccountsPageView { access: Some(access), loading_accounts: false, ..old(self)@ }
                },
                Err(message) => AccountsPageView {
                    loading_accounts: false,
                    error: Some(message@),
                    ..old(self)@
                },
            },
    {
        match result {
            Ok(access) => {
                let should_load = match &access {
                    AccountsRouteAccess::Admin(_) => true,
                    _ => false,
                };
                self.access = Some(access);
                if should_load {
                    self.spawn_account_reload();
                } else {
                    self.loading_accounts = false;
                }
                should_load
            },
            Err(message) => {
                self.loading_accounts = false;
                self.error = Some(message);
                false
            },
        }
    }

    /// The backend answered a reload: the signed-in user's id and the
    /// accounts, or an error.
    pub fn finish_account_reload(&mut self, result: Result<(String, Vec<LocalAccount>), String>)
        ensures
            final(self)@ == match result {
                Ok((current_user_id, accounts)) => AccountsPageView {
                    current_user_id: current_user_id@,
                    accounts: accounts@,
                    loading_accounts: false,
                    ..old(self)@
                },
                Err(message) => AccountsPageView {
                    loading_accounts: false,
                    error: Some(message@),
                    ..old(self)@
                },
            },
    {
        match result {
            Ok((current_user_id, accounts)) => {
                self.current_user_id = current_user_id;
                self.accounts = accounts;
                self.loading_accounts = false;
            },
            Err(message) => {
                self.loading_accounts = false;
                self.error = Some(message);
            },
        }
    }

    /// Submits the create-account form: returns the user name, password and
    /// admin flag to send, or `None` while a create runs.
    pub fn begin_create_account(&mut self) -> (request: Option<(String, String, bool)>)
        ensures
            old(self)@.creating ==> request is None && final(self)@ == old(self)@,
            !old(self)@.creating ==> request is Some && request.unwrap().0@ == old(
                self,
            )@.create_username && request.unwrap().1@ == old(self)@.create_password
                && request.unwrap().2 == old(self)@.create_admin && final(self)@ == request_started(
                AccountsPageView { creating: true, ..old(self)@ },
            ),
    {
        if self.creating {
            return None;
        }
        self.creating = true;
        self.error = None;
        self.notice = None;
        Some((copy_string(&self.create_username), copy_string(&self.create_password), self.create_admin))
    }

    /// The backend answered a create: on success the form is emptied, the
    /// page says so and the accounts reload; on failure the error is shown.
    pub fn finish_create_account(&mut self, result: Result<(), String>)
        ensures
            final(self)@ == match result {
                Ok(()) => account_reload_started(
                    AccountsPageView {
                        create_username: Seq::empty(),
                        create_password: Seq::empty(),
                        create_admin: false,
                        notice: Some("Account created."@),
                        creating: false,
                        ..old(self)@
                    },
                ),
                Err(message) => request_failed(
                    AccountsPageView { creating: false, ..old(self)@ },
                    message@,
                ),
            },
    {
        match result {
            Ok(()) => {
                self.create_username = String::new();
                self.create_password = String::new();
                self.create_admin = false;
                self.notice = Some("Account created.".to_string());
                self.creating = false;
                self.spawn_account_reload();
            },
            Err(message) => {
                self.creating = false;
                self.error = Some(message);
            },
        }
    }
}

/// What one account row of the registry keeps.
pub struct AccountRowState {
    pub password: String,
    pub admin_checked: bool,
    pub saving: bool,
    pub deleting: bool,
}

impl AccountRowState {
    /// A row for `account`: no new password, the admin box as stored.
    pub fn new(account: &LocalAccount) -> (row: Self)
        ensures
            row.password@ == Seq::<char>::empty(),
            row.admin_checked == account.is_admin,
            !row.saving,
            !row.deleting,
    {
        AccountRowState {
            password: String::new(),
            admin_checked: account.is_admin,
            saving: false,
            deleting: false,
        }
    }

    /// Saves the row: returns the password update (`None` keeps the
    /// password) and the admin flag to send, or `None` while a save runs.
    pub fn begin_account_save(&mut self, page: &mut AccountsPageState) -> (request: Option<
        (Option<String>, Option<bool>),
    >)
        ensures
            old(self).saving ==> request is None && *final(self) == *old(self) && final(page)@ == old(
                page,
            )@,
            !old(self).saving ==> request is Some && final(self).saving && final(self).password
                == old(self).password && final(self).admin_checked == old(self).admin_checked
                && final(self).deleting == old(self).deleting && final(page)@ == request_started(
                old(page)@,
            ) && request.unwrap().1 == Some(old(self).admin_checked) && (trim(
                old(self).password@,
            ).len() == 0 ==> request.unwrap().0 is None) && (trim(old(self).password@).len() > 0
                ==> opt_view(request.unwrap().0) == Some(old(self).password@)),
    {
        if self.saving {
            return None;
        }
        self.saving = true;
        page.error = None;
        page.notice = None;
        let update = password_update(copy_string(&self.password));
        Some((update, Some(self.admin_checked)))
    }

    /// The backend answered a save: on success the typed password is
    /// cleared, the page says so and the accounts reload.
    pub fn finish_account_save(&mut self, page: &mut AccountsPageState, result: Result<(), String>)
        ensures
            !final(self).saving,
            final(self).admin_checked == old(self).admin_checked,
            final(self).deleting == old(self).deleting,
            match result {
                Ok(()) => final(self).password@ == Seq::<char>::empty() && final(page)@
                    == account_reload_started(
                    AccountsPageView { notice: Some("Account updated."@), ..old(page)@ },
                ),
                Err(message) => final(self).password == old(self).password && final(page)@
                    == request_failed(old(page)@, message@),
            },
    {
        match result {
            Ok(()) => {
                self.password = String::new();
                self.saving = false;
                page.notice = Some("Account updated.".to_string());
                page.spawn_account_reload();
            },
            Err(message) => {
                self.saving = false;
                page.error = Some(message);
            },
        }
    }

    /// Deletes the row's account: returns whether the request goes out (not
    /// while a delete runs).
    pub fn begin_account_delete(&mut self, page: &mut AccountsPageState) -> (start: bool)
        ensures
            start == !old(self).deleting,
            old(self).deleting ==> *final(self) == *old(self) && final(page)@ == old(page)@,
            !old(self).deleting ==> final(self).deleting && final(self).password == old(
                self,
            ).password && final(self).admin_checked == old(self).admin_checked && final(self).saving
                == old(self).saving && final(page)@ == request_started(old(page)@),
    {
        if self.deleting {
            return false;
        }
        self.deleting = true;
        page.error = None;
        page.notice = None;
        true
    }

    /// The backend answered a delete: on success the page says so and the
    /// accounts reload.
    pub fn finish_account_delete(&mut self, page: &mut AccountsPageState, result: Result<(), String>)
        ensures
            !final(self).deleting,
            final(self).password == old(self).password,
            final(self).admin_checked == old(self).admin_checked,
            final(self).saving == old(self).saving,
            final(page)@ == match result {
                Ok(()) => account_reload_started(
                    AccountsPageView { notice: Some("Account deleted."@), ..old(page)@ },
                ),
                Err(message) => request_failed(old(page)@, message@),
            },
    {
        match result {
            Ok(()) => {
                self.deleting = false;
                page.notice = Some("Account deleted.".to_string());
                page.spawn_account_reload();
            },
            Err(message) => {
                self.deleting = false;
                page.error = Some(message);
            },
        }
    }
}

/// Starts signing out, unless it already runs: returns whether the request
/// goes out; the shown error is cleared.
pub fn sign_out_host(error: &mut Option<String>, signing_out: &mut bool) -> (start: bool)
    ensures
        start == !*old(signing_out),
        *old(signing_out) ==> *final(error) == *old(error),
        !*old(signing_out) ==> *final(error) is None,
        *final(signing_out),
{
    if *signing_out {
        return false;
    }
    *signing_out = true;
    *error = None;
    true
}

/// The sign-out request (and the move to the sign-in page) ended: a failure
/// is shown and the button comes back; on success nothing changes here.
pub fn finish_sign_out(error: &mut Option<String>, signing_out: &mut bool, result: Result<(), String>)
    ensures
        match result {
            Ok(()) => *final(error) == *old(error) && *final(signing_out) == *old(signing_out),
            Err(message) => opt_view(*final(error)) == Some(message@) && !*final(signing_out),
        },
{
    match result {
        Ok(()) => {},
        Err(message) => {
            *signing_out = false;
            *error = Some(message);
        },
    }
}


/// The index of the first profile with the given id, or the length of `s`.
pub open spec fn index_of_profile(s: Seq<AgentProfile>, id: Seq<char>) -> int
    decreases s.len(),
{
    if s.len() == 0 {
        0
    } else if s[0].id@ == id {
        0
    } else {
        1 + index_of_profile(s.drop_first(), id)
    }
}

proof fn lemma_index_of_profile_unique(s: Seq<AgentProfile>, id: Seq<char>, k: int)
    requires
        0 <= k <= s.len(),
        k < s.len() ==> s[k].id@ == id,
        forall|j: int| 0 <= j < k ==> (#[trigger] s[j]).id@ != id,
    ensures
        index_of_profile(s, id) == k,
    decreases s.len(),
{
    if s.len() > 0 && k > 0 {
        assert(s[0].id@ != id);
        assert forall|j: int| 0 <= j < k - 1 implies (#[trigger] s.drop_first()[j]).id@ != id by {
            assert(s.drop_first()[j] == s[j + 1]);
        }
        lemma_index_of_profile_unique(s.drop_first(), id, k - 1);
    }
}

/// The profiles with the first one of `profile`'s id replaced by it; the
/// list is unchanged when no profile has that id.
pub open spec fn profile_replaced(s: Seq<AgentProfile>, profile: AgentProfile) -> Seq<AgentProfile> {
    let k = index_of_profile(s, profile.id@);
    if 0 <= k < s.len() {
        s.update(k, profile)
    } else {
        s
    }
}

/// The profiles whose id is not `id`, in order.
pub open spec fn without_profile(s: Seq<AgentProfile>, id: Seq<char>) -> Seq<AgentProfile> {
    s.filter(keeps_profile(id))
}

/// Whether a profile is kept when the one with id `id` is removed.
pub open spec fn keeps_profile(id: Seq<char>) -> spec_fn(AgentProfile) -> bool {
    |p: AgentProfile| p.id@ != id
}

/// Deleting a profile removes exactly that profile: none with its id is
/// left, and every other profile stays.
pub proof fn lemma_without_profile_removes_only(s: Seq<AgentProfile>, id: Seq<char>)
    ensures
        forall|i: int|
            0 <= i < without_profile(s, id).len() ==> (#[trigger] without_profile(s, id)[i]).id@
                != id,
        forall|i: int|
            0 <= i < s.len() && (#[trigger] s[i]).id@ != id ==> without_profile(s, id).contains(
                s[i],
            ),
{
    let pred = keeps_profile(id);
    assert forall|i: int| 0 <= i < without_profile(s, id).len() implies (#[trigger] without_profile(
        s,
        id,
    )[i]).id@ != id by {
        s.lemma_filter_pred(pred, i);
    }
    assert forall|i: int| 0 <= i < s.len() && (#[trigger] s[i]).id@ != id implies without_profile(
        s,
        id,
    ).contains(s[i]) by {
        s.lemma_filter_contains(pred, i);
    }
}

/// Saving a profile keeps the list's length, and where a profile of its id
/// was listed, the first such now is the saved one.
pub proof fn lemma_profile_replaced_in_place(s: Seq<AgentProfile>, profile: AgentProfile)
    ensures
        profile_replaced(s, profile).len() == s.len(),
        (exists|i: int| 0 <= i < s.len() && (#[trigger] s[i]).id@ == profile.id@)
            ==> profile_replaced(s, profile).contains(profile),
        (forall|i: int| 0 <= i < s.len() ==> (#[trigger] s[i]).id@ != profile.id@)
            ==> profile_replaced(s, profile) == s,
{
    lemma_index_of_profile(s, profile.id@);
    let k = index_of_profile(s, profile.id@);
    if exists|i: int| 0 <= i < s.len() && (#[trigger] s[i]).id@ == profile.id@ {
        let i = choose|i: int| 0 <= i < s.len() && (#[trigger] s[i]).id@ == profile.id@;
        assert(k <= i);
        assert(profile_replaced(s, profile)[k] == profile);
    }
}

proof fn lemma_index_of_profile(s: Seq<AgentProfile>, id: Seq<char>)
    ensures
        0 <= index_of_profile(s, id) <= s.len(),
        index_of_profile(s, id) < s.len() ==> s[index_of_profile(s, id)].id@ == id,
        forall|j: int| 0 <= j < index_of_profile(s, id) ==> (#[trigger] s[j]).id@ != id,
    decreases s.len(),
{
    if s.len() > 0 && s[0].id@ != id {
        lemma_index_of_profile(s.drop_first(), id);
        assert forall|j: int| 0 <= j < index_of_profile(s, id) implies (#[trigger] s[j]).id@ != id by {
            if j > 0 {
                assert(s[j] == s.drop_first()[j - 1]);
            }
        }
    }
}

/// The index of the first profile with the id `id`, or the length of the
/// list.
pub fn find_agent_profile(profiles: &Vec<AgentProfile>, id: &str) -> (k: usize)
    ensures
        k == index_of_profile(profiles@, id@),
        k <= profiles.len(),
{
    let mut i: usize = 0;
    while i < profiles.len()
        invariant
            i <= profiles.len(),
            forall|j: int| 0 <= j < i ==> (#[trigger] profiles@[j]).id@ != id@,
        decreases profiles.len() - i,
    {
        if str_eq(profiles[i].id.as_str(), id) {
            proof {
                lemma_index_of_profile_unique(profiles@, id@, i as int);
            }
            return i;
        }
        i = i + 1;
    }
    proof {
        lemma_index_of_profile_unique(profiles@, id@, i as int);
    }
    i
}

/// Replaces the first profile with the id of `profile` by it.
pub fn replace_agent_profile(profiles: &mut Vec<AgentProfile>, profile: AgentProfile)
    ensures
        final(profiles)@ == profile_replaced(old(profiles)@, profile),
{
    let k = find_agent_profile(profiles, profile.id.as_str());
    if k < profiles.len() {
        let ghost replaced = profiles@.update(k as int, profile);
        profiles.remove(k);
        profiles.insert(k, profile);
        assert(profiles@ =~= replaced);
    }
}

/// The profiles whose id is not `id`, in order.
pub fn retain_other_profiles(profiles: Vec<AgentProfile>, id: &str) -> (kept: Vec<AgentProfile>)
    ensures
        kept@ == without_profile(profiles@, id@),
{
    let ghost s = profiles@;
    let ghost pred = keeps_profile(id@);
    let mut kept: Vec<AgentProfile> = Vec::new();
    proof {
        reveal_with_fuel(Seq::filter, 1);
        assert(s.take(0) =~= Seq::<AgentProfile>::empty());
    }
    for p in it: profiles
        invariant
            it.seq() == s,
            pred == keeps_profile(id@),
            kept@ == s.take(it.index() as int).filter(pred),
    {
        let ghost i = it.index() as int;
        proof {
            assert(s.take(i + 1).drop_last() =~= s.take(i));
            assert(s.take(i + 1).last() == p);
            reveal_with_fuel(Seq::filter, 1);
        }
        if !str_eq(p.id.as_str(), id) {
            kept.push(p);
        }
    }
    proof {
        assert(s.take(s.len() as int) =~= s);
    }
    kept
}

impl AccountsPageState {
    /// Submits the new-profile form: returns its name, command and launch
    /// mode, or `None` while a save runs.
    pub fn begin_create_agent_profile(&mut self) -> (request: Option<(String, String, AgentProfileMode)>)
        ensures
            old(self)@.agent_profile_saving ==> request is None && final(self)@ == old(self)@,
            !old(self)@.agent_profile_saving ==> request is Some && request.unwrap().0@ == old(
                self,
            )@.agent_profile_name && request.unwrap().1@ == old(self)@.agent_profile_command
                && request.unwrap().2 == old(self)@.agent_profile_mode && final(self)@
                == request_started(AccountsPageView { agent_profile_saving: true, ..old(self)@ }),
    {
        if self.agent_profile_saving {
            return None;
        }
        self.agent_profile_saving = true;
        self.error = None;
        self.notice = None;
        Some((
            copy_string(&self.agent_profile_name),
            copy_string(&self.agent_profile_command),
            self.agent_profile_mode,
        ))
    }

    /// The backend answered a new profile: it is added and the form is
    /// reset to a host-mode blank; or the error is shown.
    pub fn finish_create_agent_profile(&mut self, result: Result<AgentProfile, String>)
        ensures
            final(self)@ == match result {
                Ok(profile) => AccountsPageView {
                    agent_profiles: old(self)@.agent_profiles.push(profile),
                    agent_profile_name: Seq::empty(),
                    agent_profile_command: Seq::empty(),
                    agent_profile_mode: AgentProfileMode::Host,
                    agent_profile_saving: false,
                    notice: Some("ACP profile saved."@),
                    ..old(self)@
                },
                Err(message) => request_failed(
                    AccountsPageView { agent_profile_saving: false, ..old(self)@ },
                    message@,
                ),
            },
    {
        match result {
            Ok(profile) => {
                self.agent_profiles.push(profile);
                self.agent_profile_name = String::new();
                self.agent_profile_command = String::new();
                self.agent_profile_mode = AgentProfileMode::Host;
                self.agent_profile_saving = false;
                self.notice = Some("ACP profile saved.".to_string());
            },
            Err(message) => {
                self.agent_profile_saving = false;
                self.error = Some(message);
            },
        }
    }

    /// Whether the profile with the given id is being deleted.
    pub fn agent_profile_deleting(&self, profile_id: &str) -> (deleting: bool)
        ensures
            deleting == (self@.deleting_agent_profile_id == Some(profile_id@)),
    {
        match &self.deleting_agent_profile_id {
            Some(id) => str_eq(id.as_str(), profile_id),
            None => false,
        }
    }

    /// Starts deleting a profile; returns whether the request goes out (not
    /// while any profile is being deleted).
    pub fn begin_delete_agent_profile(&mut self, profile_id: &str) -> (start: bool)
        ensures
            start == (old(self)@.deleting_agent_profile_id is None),
            !start ==> final(self)@ == old(self)@,
            start ==> final(self)@ == request_started(
                AccountsPageView { deleting_agent_profile_id: Some(profile_id@), ..old(self)@ },
            ),
    {
        if self.deleting_agent_profile_id.is_some() {
            return false;
        }
        self.deleting_agent_profile_id = Some(profile_id.to_string());
        self.error = None;
        self.notice = None;
        true
    }

    /// The backend answered a delete: on success the profile leaves the
    /// list and the page says so; on failure the error is shown.
    pub fn finish_delete_agent_profile(&mut self, profile_id: &str, result: Result<(), String>)
        ensures
            final(self)@ == match result {
                Ok(()) => AccountsPageView {
                    agent_profiles: without_profile(old(self)@.agent_profiles, profile_id@),
                    deleting_agent_profile_id: None,
                    notice: Some("ACP profile deleted."@),
                    ..old(self)@
                },
                Err(message) => request_failed(
                    AccountsPageView { deleting_agent_profile_id: None, ..old(self)@ },
                    message@,
                ),
            },
    {
        match result {
            Ok(()) => {
                let mut profiles: Vec<AgentProfile> = Vec::new();
                std::mem::swap(&mut profiles, &mut self.agent_profiles);
                self.agent_profiles = retain_other_profiles(profiles, profile_id);
                self.deleting_agent_profile_id = None;
                self.notice = Some("ACP profile deleted.".to_string());
            },
            Err(message) => {
                self.deleting_agent_profile_id = None;
                self.error = Some(message);
            },
        }
    }
}

/// What one row of the profile table keeps: the edited values.
pub struct AgentProfileRowState {
    pub name: String,
    pub command: String,
    pub mode: AgentProfileMode,
    pub saving: bool,
}

impl AgentProfileRowState {
    /// A row showing `profile` as stored: its name, its command as the
    /// editable preview, its mode.
    pub fn new(profile: &AgentProfile) -> (row: Self)
        ensures
            row.name@ == profile.name@,
            row.command@ == command_preview(strings_view(profile.command_argv@)),
            row.mode == profile.mode,
            !row.saving,
    {
        AgentProfileRowState {
            name: copy_string(&profile.name),
            command: agent_command_preview(profile.command_argv.as_slice()),
            mode: profile.mode,
            saving: false,
        }
    }

    /// Whether the row differs from the stored profile.
    pub fn is_dirty(&self, original: &AgentProfile) -> (dirty: bool)
        ensures
            dirty == values_changed_spec(self.name@, self.command@, self.mode, *original),
    {
        agent_profile_values_changed(self.name.as_str(), self.command.as_str(), self.mode, original)
    }

    /// Saves the row: returns its name, command and mode, or `None` while a
    /// save runs.
    pub fn begin_save_agent_profile(&mut self, page: &mut AccountsPageState) -> (request: Option<
        (String, String, AgentProfileMode),
    >)
        ensures
            old(self).saving ==> request is None && final(page)@ == old(page)@,
            !old(self).saving ==> request is Some && request.unwrap().0@ == old(self).name@
                && request.unwrap().1@ == old(self).command@ && request.unwrap().2 == old(self).mode
                && final(page)@ == request_started(old(page)@),
            final(self).saving,
            final(self).name == old(self).name,
            final(self).command == old(self).command,
            final(self).mode == old(self).mode,
    {
        if self.saving {
            return None;
        }
        self.saving = true;
        page.error = None;
        page.notice = None;
        Some((copy_string(&self.name), copy_string(&self.command), self.mode))
    }

    /// The backend answered a save: the stored profile of the same id is
    /// replaced and the page says so; or the error is shown.
    pub fn finish_save_agent_profile(
        &mut self,
        page: &mut AccountsPageState,
        result: Result<AgentProfile, String>,
    )
        ensures
            !final(self).saving,
            final(self).name == old(self).name,
            final(self).command == old(self).command,
            final(self).mode == old(self).mode,
            final(page)@ == match result {
                Ok(profile) => AccountsPageView {
                    agent_profiles: profile_replaced(old(page)@.agent_profiles, profile),
                    notice: Some("ACP profile updated."@),
                    ..old(page)@
                },
                Err(message) => request_failed(old(page)@, message@),
            },
    {
        match result {
            Ok(profile) => {
                replace_agent_profile(&mut page.agent_profiles, profile);
                self.saving = false;
                page.notice = Some("ACP profile updated.".to_string());
            },
            Err(message) => {
                self.saving = false;
                page.error = Some(message);
            },
        }
    }
}

/// What the sidebar knows about the signed-in user: whether anyone is
/// signed in and whether that account is an admin.
pub struct SidebarAuthState {
    pub checked: bool,
    pub signed_in: bool,
    pub is_admin: bool,
}

impl SidebarAuthState {
    /// Nothing checked yet: no one is taken to be signed in.
    pub fn new() -> (state: Self)
        ensures
            !state.checked,
            !state.signed_in,
            !state.is_admin,
    {
        SidebarAuthState { checked: false, signed_in: false, is_admin: false }
    }

    /// Marks the controls checked where no backend is at hand.
    pub fn initialize_session_sidebar_auth_controls_host(&mut self)
        ensures
            final(self).checked,
            final(self).signed_in == old(self).signed_in,
            final(self).is_admin == old(self).is_admin,
    {
        self.checked = true;
    }

    /// Starts the auth check once; returns whether it starts now.
    pub fn begin_auth_check(&mut self) -> (start: bool)
        ensures
            start == !old(self).checked,
            final(self).checked,
            final(self).signed_in == old(self).signed_in,
            final(self).is_admin == old(self).is_admin,
    {
        let start = !self.checked;
        self.checked = true;
        start
    }

    /// The backend answered the auth check with the signed-in account's admin
    /// flag (`None` when no one is signed in), or an error, which is shown.
    pub fn finish_auth_check(&mut self, error: &mut Option<String>, result: Result<Option<bool>, String>)
        ensures
            final(self).checked == old(self).checked,
            match result {
                Ok(account) => final(self).signed_in == (account is Some) && final(self).is_admin
                    == (account == Some(true)) && *final(error) == *old(error),
                Err(message) => final(self).signed_in == old(self).signed_in && final(self).is_admin
                    == old(self).is_admin && opt_view(*final(error)) == Some(message@),
            },
    {
        match result {
            Ok(account) => {
                self.signed_in = account.is_some();
                self.is_admin = match account {
                    Some(is_admin) => is_admin,
                    None => false,
                };
            },
            Err(message) => {
                *error = Some(message);
            },
        }
    }
}

} // verus!
