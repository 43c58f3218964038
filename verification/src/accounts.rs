//! The accounts and settings pages: who may change which account, what the
//! rows and buttons say, and how the page state follows the backend.
use vstd::prelude::*;

use crate::contracts::LocalAccount;
use crate::icons::{busy_or, AppIcon};
use crate::return_to::{
    path_with_return_to, session_return_to_path, session_return_to_spec,
};
use crate::routing::encode_component_spec;
use crate::session_state::opt_view;
use crate::text::{chars_of, concat_str, decimal, decimal_string, str_eq, trim, trim_chars};
use crate::time_format::{in_chrono_range, utc_minute_stamp, utc_timestamp_text};

verus! {

/// The password to set for an account: `None` (keep it) when the typed
/// password is blank.
pub fn password_update(password: String) -> (update: Option<String>)
    ensures
        trim(password@).len() == 0 ==> update is None,
        trim(password@).len() > 0 ==> opt_view(update) == Some(password@),
{
    let chars = chars_of(password.as_str());
    let trimmed = trim_chars(chars.as_slice());
    if trimmed.len() == 0 {
        None
    } else {
        Some(password)
    }
}

/// The label of an account row's save button.
pub fn save_button_label(saving: bool) -> (label: &'static str)
    ensures
        label@ == (if saving {
            "Saving…"@
        } else {
            "Save"@
        }),
{
    if saving {
        "Saving…"
    } else {
        "Save"
    }
}

/// The label of an account row's delete button.
pub fn delete_button_label(deleting: bool) -> (label: &'static str)
    ensures
        label@ == (if deleting {
            "Deleting…"@
        } else {
            "Delete"@
        }),
{
    if deleting {
        "Deleting…"
    } else {
        "Delete"
    }
}

/// The label of the create-account button.
pub fn create_account_button_label(creating: bool) -> (label: &'static str)
    ensures
        label@ == (if creating {
            "Saving…"@
        } else {
            "Create account"@
        }),
{
    if creating {
        "Saving…"
    } else {
        "Create account"
    }
}

/// The label of the sign-out button.
pub fn sign_out_button_label(signing_out: bool) -> (label: &'static str)
    ensures
        label@ == (if signing_out {
            "Signing out…"@
        } else {
            "Sign out"@
        }),
{
    if signing_out {
        "Signing out…"
    } else {
        "Sign out"
    }
}

/// The access column of an account: `Enabled` for admins.
pub fn admin_access_label(is_admin: bool) -> (label: &'static str)
    ensures
        label@ == (if is_admin {
            "Enabled"@
        } else {
            "Standard"@
        }),
{
    if is_admin {
        "Enabled"
    } else {
        "Standard"
    }
}

/// How an account row is badged.
#[derive(Clone, Copy, Debug, PartialEq, Eq, Structural)]
pub enum AccountRoleKind {
    Active,
    Admin,
    Member,
}

/// The badge of an account: the signed-in account first, then admins.
pub open spec fn role_kind_spec(user_id: Seq<char>, is_admin: bool, current_user_id: Seq<char>) -> AccountRoleKind {
    if user_id == current_user_id {
        AccountRoleKind::Active
    } else if is_admin {
        AccountRoleKind::Admin
    } else {
        AccountRoleKind::Member
    }
}

/// The badge of an account, seen by the user `current_user_id`.
pub fn account_role_kind(account: &LocalAccount, current_user_id: &str) -> (kind: AccountRoleKind)
    ensures
        kind == role_kind_spec(account.user_id@, account.is_admin, current_user_id@),
{
    if str_eq(account.user_id.as_str(), current_user_id) {
        AccountRoleKind::Active
    } else if account.is_admin {
        AccountRoleKind::Admin
    } else {
        AccountRoleKind::Member
    }
}

/// The text of an account's badge.
pub fn account_role_label(role_kind: AccountRoleKind) -> (label: &'static str)
    ensures
        label@ == match role_kind {
            AccountRoleKind::Active => "signed in"@,
            AccountRoleKind::Admin => "admin"@,
            AccountRoleKind::Member => "member"@,
        },
{
    match role_kind {
        AccountRoleKind::Active => "signed in",
        AccountRoleKind::Admin => "admin",
        AccountRoleKind::Member => "member",
    }
}

/// The CSS modifier of an account's badge.
pub open spec fn badge_modifier_spec(role_kind: AccountRoleKind) -> Seq<char> {
    match role_kind {
        AccountRoleKind::Active => "active"@,
        AccountRoleKind::Admin => "admin"@,
        AccountRoleKind::Member => "member"@,
    }
}

/// The CSS modifier of an account's badge.
pub fn account_role_badge_modifier(role_kind: AccountRoleKind) -> (modifier: &'static str)
    ensures
        modifier@ == badge_modifier_spec(role_kind),
{
    match role_kind {
        AccountRoleKind::Active => "active",
        AccountRoleKind::Admin => "admin",
        AccountRoleKind::Member => "member",
    }
}

/// The CSS class of an account's badge.
pub fn account_role_badge_class(role_kind: AccountRoleKind) -> (class: String)
    ensures
        class@ == "account-role-pill account-role-pill--"@ + badge_modifier_spec(role_kind),
{
    concat_str("account-role-pill account-role-pill--", account_role_badge_modifier(role_kind))
}

/// Why an account cannot be changed.
#[derive(Clone, Copy, Debug, PartialEq, Eq, Structural)]
pub enum AccountConstraintReason {
    CurrentUser,
    LastAdmin,
}

/// The explanation shown for an account that cannot be changed.
pub open spec fn constraint_label_spec(reason: Option<AccountConstraintReason>) -> Seq<char> {
    match reason {
        Some(AccountConstraintReason::CurrentUser) => "Signed in on this browser"@,
        Some(AccountConstraintReason::LastAdmin) => "One admin account must remain"@,
        None => ""@,
    }
}

/// The explanation shown for an account that cannot be changed.
pub fn account_constraint_label(reason: Option<AccountConstraintReason>) -> (label: &'static str)
    ensures
        label@ == constraint_label_spec(reason),
{
    match reason {
        Some(AccountConstraintReason::CurrentUser) => "Signed in on this browser",
        Some(AccountConstraintReason::LastAdmin) => "One admin account must remain",
        None => "",
    }
}

/// When an account was created, to the minute, in UTC.
pub fn account_created_label(account: &LocalAccount) -> (label: String)
    requires
        in_chrono_range(account.created_at as int),
    ensures
        utc_timestamp_text(account.created_at as int, "%Y-%m-%d %H:%M UTC"@) == Some(label@),
{
    utc_minute_stamp(account.created_at)
}

/// `1 account`, else the count and `accounts`.
pub open spec fn count_label_spec(count: nat) -> Seq<char> {
    if count == 1 {
        "1 account"@
    } else {
        decimal(count) + " accounts"@
    }
}

/// How many accounts the list shows.
pub fn account_count_label(count: usize) -> (label: String)
    ensures
        label@ == count_label_spec(count as nat),
{
    if count == 1 {
        "1 account".to_string()
    } else {
        let number = decimal_string(count as u64);
        concat_str(number.as_str(), " accounts")
    }
}

/// The hint below an account row's buttons.
pub open spec fn row_hint_spec(
    saving: bool,
    deleting: bool,
    row_dirty: bool,
    can_modify: bool,
    constraint_label: Seq<char>,
) -> Seq<char> {
    if saving {
        "Saving changes…"@
    } else if deleting {
        "Removing account…"@
    } else if !row_dirty {
        "No pending changes"@
    } else if !can_modify && constraint_label.len() > 0 {
        constraint_label
    } else {
        "Ready to apply"@
    }
}

/// The hint below an account row's buttons: progress first, then whether
/// there is anything to apply and why it cannot be.
pub fn account_row_hint(
    saving: bool,
    deleting: bool,
    row_dirty: bool,
    can_modify: bool,
    constraint_label: String,
) -> (hint: String)
    ensures
        hint@ == row_hint_spec(saving, deleting, row_dirty, can_modify, constraint_label@),
{
    if saving {
        "Saving changes…".to_string()
    } else if deleting {
        "Removing account…".to_string()
    } else if !row_dirty {
        "No pending changes".to_string()
    } else if !can_modify && !constraint_label.as_str().is_empty() {
        constraint_label
    } else {
        "Ready to apply".to_string()
    }
}

/// Whether an account row has changes to apply: a non-blank new password or
/// a changed admin flag.
pub fn account_row_dirty(password: &str, admin_checked: bool, account_is_admin: bool) -> (dirty:
    bool)
    ensures
        dirty == (trim(password@).len() > 0 || admin_checked != account_is_admin),
{
    let chars = chars_of(password);
    let trimmed = trim_chars(chars.as_slice());
    trimmed.len() > 0 || admin_checked != account_is_admin
}

/// The accounts page, with a link back to `return_to_path`.
pub fn accounts_path_with_return_to(return_to_path: &str) -> (path: String)
    ensures
        path@ == "/app/accounts/?return_to="@ + encode_component_spec(return_to_path@),
{
    proof {
        reveal_strlit("/app/accounts/");
        reveal_strlit("?return_to=");
        reveal_strlit("/app/accounts/?return_to=");
        assert("/app/accounts/"@ + "?return_to="@ =~= "/app/accounts/?return_to="@);
    }
    path_with_return_to("/app/accounts/", return_to_path)
}

/// Where the back link of the accounts page leads: the session named by the
/// query's `return_to`, or the home page.
pub open spec fn back_to_chat_spec(search: Seq<char>) -> Seq<char> {
    match session_return_to_spec(search) {
        Some(path) => path,
        None => "/app/"@,
    }
}

/// Where the back link of the accounts page leads, given its query string.
pub fn accounts_back_to_chat_path(search: &str) -> (path: String)
    ensures
        path@ == back_to_chat_spec(search@),
{
    match session_return_to_path(search) {
        Some(path) => path,
        None => "/app/".to_string(),
    }
}

/// Where the back link of the accounts page leads, given the query string of
/// the page the browser shows, if any.
pub fn accounts_back_to_chat_path_from_search(search: Option<&str>) -> (path: String)
    ensures
        path@ == match search {
            Some(s) => back_to_chat_spec(s@),
            None => "/app/"@,
        },
{
    match search {
        Some(s) => accounts_back_to_chat_path(s),
        None => "/app/".to_string(),
    }
}

/// Where the back link leads where no browser window is at hand.
pub fn accounts_back_to_chat_path_from_location() -> (path: String)
    ensures
        path@ == "/app/"@,
{
    accounts_back_to_chat_path_from_search(None)
}

/// Who may see the accounts page.
#[derive(Clone, Debug, PartialEq, Eq)]
pub enum AccountsRouteAccess {
    Admin(LocalAccount),
    Forbidden,
    RegisterRequired,
    SignInRequired,
}

/// Whether the accounts page shows a sign-out button: to a signed-in user,
/// admin or not.
pub fn accounts_page_shows_sign_out(access: Option<AccountsRouteAccess>) -> (shows: bool)
    ensures
        shows == match access {
            Some(AccountsRouteAccess::Admin(_)) => true,
            Some(AccountsRouteAccess::Forbidden) => true,
            _ => false,
        },
{
    match access {
        Some(AccountsRouteAccess::Admin(_)) => true,
        Some(AccountsRouteAccess::Forbidden) => true,
        _ => false,
    }
}

/// The label of the accounts page's back link.
pub fn accounts_back_to_chat_label() -> (label: &'static str)
    ensures
        label@ == "Back to chat"@,
{
    "Back to chat"
}

/// The icon of the accounts page's sign-out button.
pub fn accounts_sign_out_icon(signing_out: bool) -> (icon: AppIcon)
    ensures
        icon == (if signing_out {
            AppIcon::Busy
        } else {
            AppIcon::SignOut
        }),
{
    busy_or(signing_out, AppIcon::SignOut)
}

/// A section of the settings pages.
#[derive(Clone, Copy, Debug, PartialEq, Eq, Structural)]
pub enum SettingsSection {
    Accounts,
    Agents,
}

/// The CSS class of a settings navigation link.
pub fn settings_nav_link_class(active: bool) -> (class: &'static str)
    ensures
        class@ == (if active {
            "settings-nav__link settings-nav__link--active"@
        } else {
            "settings-nav__link"@
        }),
{
    if active {
        "settings-nav__link settings-nav__link--active"
    } else {
        "settings-nav__link"
    }
}

/// The `aria-current` value of a settings navigation link.
pub fn settings_nav_aria_current(active: bool) -> (current: Option<&'static str>)
    ensures
        match current {
            Some(c) => active && c@ == "page"@,
            None => !active,
        },
{
    if active {
        Some("page")
    } else {
        None
    }
}

/// The path of a settings section.
pub fn settings_section_href(section: SettingsSection) -> (href: &'static str)
    ensures
        href@ == match section {
            SettingsSection::Accounts => "/app/settings/accounts/"@,
            SettingsSection::Agents => "/app/settings/agents/"@,
        },
{
    match section {
        SettingsSection::Accounts => "/app/settings/accounts/",
        SettingsSection::Agents => "/app/settings/agents/",
    }
}

/// The name of a settings section.
pub fn settings_section_label(section: SettingsSection) -> (label: &'static str)
    ensures
        label@ == match section {
            SettingsSection::Accounts => "Accounts"@,
            SettingsSection::Agents => "Agents"@,
        },
{
    match section {
        SettingsSection::Accounts => "Accounts",
        SettingsSection::Agents => "Agents",
    }
}

/// What a settings section holds.
pub fn settings_section_description(section: SettingsSection) -> (description: &'static str)
    ensures
        description@ == match section {
            SettingsSection::Accounts => "Users and access"@,
            SettingsSection::Agents => "ACP launch profiles"@,
        },
{
    match section {
        SettingsSection::Accounts => "Users and access",
        SettingsSection::Agents => "ACP launch profiles",
    }
}

} // verus!
