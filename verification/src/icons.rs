//! The icons of the app's buttons and links.
use vstd::prelude::*;

verus! {

/// An icon of the app.
#[derive(Clone, Copy, Debug, PartialEq, Eq, Structural)]
pub enum AppIcon {
    Accounts,
    BackToChat,
    Busy,
    Cancel,
    CreateWorkspace,
    Delete,
    NewChat,
    Rename,
    Save,
    Send,
    SignOut,
    Workspaces,
}

/// The CSS class of an icon: the busy icon spins.
pub fn app_icon_class(icon: AppIcon) -> (class: &'static str)
    ensures
        class@ == (if icon == AppIcon::Busy {
            "app-icon app-icon--spin"@
        } else {
            "app-icon"@
        }),
{
    if icon == AppIcon::Busy {
        "app-icon app-icon--spin"
    } else {
        "app-icon"
    }
}

/// The icon of a button that shows `idle` until its action runs, then the
/// busy icon.
pub fn busy_or(busy: bool, idle: AppIcon) -> (icon: AppIcon)
    ensures
        icon == (if busy {
            AppIcon::Busy
        } else {
            idle
        }),
{
    if busy {
        AppIcon::Busy
    } else {
        idle
    }
}

} // verus!
