//! The sign-in and registration pages: where each sends the user, what they
//! say, and how their state follows the backend.
use vstd::prelude::*;

use crate::routing::{encode_component, encode_component_spec};
use crate::session_state::opt_view;
use crate::text::{chars_of, concat_str, copy_string, trim, trim_chars};

verus! {

/// Which of the two credential pages is shown.
#[derive(Clone, Copy, Debug, PartialEq, Eq, Structural)]
pub enum AuthPageKind {
    Register,
    SignIn,
}

/// Where the home page sends a visitor, given the backend's auth status.
#[derive(Clone, Copy, Debug, PartialEq, Eq, Structural)]
pub enum HomeRouteTarget {
    Register,
    SignIn,
    PrepareSession,
}

/// The heading of a credential page.
pub fn page_title(kind: AuthPageKind) -> (title: &'static str)
    ensures
        title@ == match kind {
            AuthPageKind::Register => "Register bootstrap account"@,
            AuthPageKind::SignIn => "Sign in"@,
        },
{
    match kind {
        AuthPageKind::Register => "Register bootstrap account",
        AuthPageKind::SignIn => "Sign in",
    }
}

/// What a credential page says while it checks the auth status.
pub fn loading_message(kind: AuthPageKind) -> (message: &'static str)
    ensures
        message@ == match kind {
            AuthPageKind::Register => "Checking registration status…"@,
            AuthPageKind::SignIn => "Checking sign-in status…"@,
        },
{
    match kind {
        AuthPageKind::Register => "Checking registration status…",
        AuthPageKind::SignIn => "Checking sign-in status…",
    }
}

/// The `autocomplete` value of a credential page's password field.
pub fn password_autocomplete(kind: AuthPageKind) -> (value: &'static str)
    ensures
        value@ == match kind {
            AuthPageKind::Register => "new-password"@,
            AuthPageKind::SignIn => "current-password"@,
        },
{
    match kind {
        AuthPageKind::Register => "new-password",
        AuthPageKind::SignIn => "current-password",
    }
}

/// The label of a credential page's submit button.
pub fn submit_button_label(kind: AuthPageKind, submitting: bool) -> (label: &'static str)
    ensures
        label@ == match (kind, submitting) {
            (AuthPageKind::Register, true) => "Creating account…"@,
            (AuthPageKind::Register, false) => "Create account"@,
            (AuthPageKind::SignIn, true) => "Signing in…"@,
            (AuthPageKind::SignIn, false) => "Sign in"@,
        },
{
    match (kind, submitting) {
        (AuthPageKind::Register, true) => "Creating account…",
        (AuthPageKind::Register, false) => "Create account",
        (AuthPageKind::SignIn, true) => "Signing in…",
        (AuthPageKind::SignIn, false) => "Sign in",
    }
}

/// The label of the sign-in form's button.
pub fn sign_in_button_label(signing_in: bool) -> (label: &'static str)
    ensures
        label@ == (if signing_in {
            "Signing in..."@
        } else {
            "Sign in"@
        }),
{
    if signing_in {
        "Signing in..."
    } else {
        "Sign in"
    }
}

/// The label of the registration form's button.
pub fn sign_up_button_label(signing_up: bool) -> (label: &'static str)
    ensures
        label@ == (if signing_up {
            "Creating account..."@
        } else {
            "Create account"@
        }),
{
    if signing_up {
        "Creating account..."
    } else {
        "Create account"
    }
}

/// Whether the sign-in button is disabled: a request is running, or the
/// user name is blank, or the password empty.
pub fn sign_in_disabled(signing_in: bool, signing_up: bool, user_name: &str, password: &str) -> (disabled: bool)
    ensures
        disabled == (signing_in || signing_up || trim(user_name@).len() == 0 || password@.len()
            == 0),
{
    let name = chars_of(user_name);
    let trimmed = trim_chars(name.as_slice());
    signing_in || signing_up || trimmed.len() == 0 || password.is_empty()
}

/// Whether the registration button is disabled: a request is running, or
/// the user name is blank, or the password shorter than eight characters.
pub fn sign_up_disabled(signing_in: bool, signing_up: bool, user_name: &str, password: &str) -> (disabled: bool)
    ensures
        disabled == (signing_in || signing_up || trim(user_name@).len() == 0 || password@.len()
            < 8),
{
    let name = chars_of(user_name);
    let trimmed = trim_chars(name.as_slice());
    let password_chars = chars_of(password);
    signing_in || signing_up || trimmed.len() == 0 || password_chars.len() < 8
}

/// Where a signed-in user goes: the session to return to, or home.
pub open spec fn success_path_spec(return_to_path: Option<Seq<char>>) -> Seq<char> {
    match return_to_path {
        Some(p) => p,
        None => "/app/"@,
    }
}

/// Where a signed-in user goes.
pub fn auth_success_path(return_to_path: Option<String>) -> (path: String)
    ensures
        path@ == success_path_spec(opt_view(return_to_path)),
{
    match return_to_path {
        Some(p) => p,
        None => "/app/".to_string(),
    }
}

/// A credential page's path, carrying the session to return to.
pub open spec fn page_path_spec(base_path: Seq<char>, return_to_path: Option<Seq<char>>) -> Seq<char> {
    match return_to_path {
        Some(p) => base_path + "?return_to="@ + encode_component_spec(p),
        None => base_path,
    }
}

/// A credential page's path, carrying the session to return to.
pub fn auth_page_path(base_path: &str, return_to_path: Option<String>) -> (path: String)
    ensures
        path@ == page_path_spec(base_path@, opt_view(return_to_path)),
{
    match return_to_path {
        Some(p) => {
            let encoded = encode_component(p.as_str());
            let with_key = concat_str(base_path, "?return_to=");
            concat_str(with_key.as_str(), encoded.as_str())
        },
        None => base_path.to_string(),
    }
}

/// What a credential page does once it knows the auth status.
#[derive(Clone, Debug, PartialEq, Eq)]
pub enum AuthPageRoute {
    Ready,
    Redirect(String),
}

/// The abstract value of an [`AuthPageRoute`].
pub ghost enum AuthPageRouteView {
    Ready,
    Redirect(Seq<char>),
}

impl View for AuthPageRoute {
    type V = AuthPageRouteView;

    open spec fn view(&self) -> AuthPageRouteView {
        match self {
            AuthPageRoute::Ready => AuthPageRouteView::Ready,
            AuthPageRoute::Redirect(p) => AuthPageRouteView::Redirect(p@),
        }
    }
}

/// A signed-in user leaves for the session (or home); a page that is not
/// the one the status calls for sends the user to the other, keeping the
/// session to return to; otherwise the page is ready.
pub open spec fn auth_page_route_spec(
    kind: AuthPageKind,
    target: HomeRouteTarget,
    return_to_path: Option<Seq<char>>,
) -> AuthPageRouteView {
    match (kind, target) {
        (_, HomeRouteTarget::PrepareSession) => AuthPageRouteView::Redirect(
            success_path_spec(return_to_path),
        ),
        (AuthPageKind::Register, HomeRouteTarget::Register) => AuthPageRouteView::Ready,
        (AuthPageKind::Register, HomeRouteTarget::SignIn) => AuthPageRouteView::Redirect(
            page_path_spec("/app/sign-in/"@, return_to_path),
        ),
        (AuthPageKind::SignIn, HomeRouteTarget::Register) => AuthPageRouteView::Redirect(
            page_path_spec("/app/register/"@, return_to_path),
        ),
        (AuthPageKind::SignIn, HomeRouteTarget::SignIn) => AuthPageRouteView::Ready,
    }
}

/// What a credential page does once it knows where the status sends the
/// visitor.
pub fn auth_page_route(
    kind: AuthPageKind,
    target: HomeRouteTarget,
    return_to_path: Option<String>,
) -> (route: AuthPageRoute)
    ensures
        route@ == auth_page_route_spec(kind, target, opt_view(return_to_path)),
{
    match (kind, target) {
        (_, HomeRouteTarget::PrepareSession) => AuthPageRoute::Redirect(
            auth_success_path(return_to_path),
        ),
        (AuthPageKind::Register, HomeRouteTarget::Register) => AuthPageRoute::Ready,
        (AuthPageKind::Register, HomeRouteTarget::SignIn) => AuthPageRoute::Redirect(
            auth_page_path("/app/sign-in/", return_to_path),
        ),
        (AuthPageKind::SignIn, HomeRouteTarget::Register) => AuthPageRoute::Redirect(
            auth_page_path("/app/register/", return_to_path),
        ),
        (AuthPageKind::SignIn, HomeRouteTarget::SignIn) => AuthPageRoute::Ready,
    }
}

/// The state of a credential page.
pub struct AuthPageState {
    pub username: String,
    pub password: String,
    pub error: Option<String>,
    pub loading: bool,
    pub submitting: bool,
    pub checked: bool,
}

impl AuthPageState {
    /// A credential page that has not checked the auth status yet.
    pub fn new() -> (state: Self)
        ensures
            state.username@.len() == 0,
            state.password@.len() == 0,
            state.error is None,
            state.loading,
            !state.submitting,
            !state.checked,
    {
        AuthPageState {
            username: String::new(),
            password: String::new(),
            error: None,
            loading: true,
            submitting: false,
            checked: false,
        }
    }

    /// Starts the auth check once; returns whether it starts now.
    pub fn begin_auth_check(&mut self) -> (start: bool)
        ensures
            start == !old(self).checked,
            final(self).checked,
            final(self).loading == old(self).loading,
            final(self).submitting == old(self).submitting,
            final(self).error == old(self).error,
            final(self).username == old(self).username,
            final(self).password == old(self).password,
    {
        if self.checked {
            return false;
        }
        self.checked = true;
        true
    }

    /// Marks the page checked and ready where no backend is at hand; a
    /// second call changes nothing.
    pub fn initialize_auth_page_host(&mut self)
        ensures
            final(self).checked,
            old(self).checked ==> final(self).loading == old(self).loading,
            !old(self).checked ==> !final(self).loading,
            final(self).error == old(self).error,
            final(self).submitting == old(self).submitting,
    {
        if self.checked {
            return ;
        }
        self.checked = true;
        self.loading = false;
    }

    /// The backend answered the auth check; returns the path to leave for,
    /// if the page must not stay.
    pub fn finish_auth_check(
        &mut self,
        kind: AuthPageKind,
        result: Result<HomeRouteTarget, String>,
        return_to_path: Option<String>,
    ) -> (redirect: Option<String>)
        ensures
            match result {
                Ok(target) => match auth_page_route_spec(kind, target, opt_view(return_to_path)) {
                    AuthPageRouteView::Ready => redirect is None && !final(self).loading
                        && final(self).error == old(self).error,
                    AuthPageRouteView::Redirect(p) => opt_view(redirect) == Some(p)
                        && final(self).loading == old(self).loading && final(self).error == old(
                        self,
                    ).error,
                },
                Err(message) => redirect is None && !final(self).loading && opt_view(
                    final(self).error,
                ) == Some(message@),
            },
            final(self).checked == old(self).checked,
            final(self).submitting == old(self).submitting,
    {
        match result {
            Ok(target) => match auth_page_route(kind, target, return_to_path) {
                AuthPageRoute::Ready => {
                    self.loading = false;
                    None
                },
                AuthPageRoute::Redirect(path) => Some(path),
            },
            Err(message) => {
                self.loading = false;
                self.error = Some(message);
                None
            },
        }
    }

    /// Starts submitting the credentials; returns the user name and password
    /// to send, or `None` while a submission runs.
    pub fn begin_submit_credentials(&mut self) -> (credentials: Option<(String, String)>)
        ensures
            old(self).submitting ==> credentials is None && final(self).error == old(self).error,
            !old(self).submitting ==> credentials is Some && credentials.unwrap().0@ == old(
                self,
            ).username@ && credentials.unwrap().1@ == old(self).password@ && final(self).error
                is None,
            final(self).submitting,
            final(self).loading == old(self).loading,
            final(self).checked == old(self).checked,
    {
        if self.submitting {
            return None;
        }
        self.submitting = true;
        self.error = None;
        Some((copy_string(&self.username), copy_string(&self.password)))
    }

    /// The backend answered the credentials: on failure the page shows the
    /// error and may be submitted again (on success the page is left).
    pub fn finish_submit_credentials(&mut self, result: Result<(), String>)
        ensures
            match result {
                Ok(()) => final(self).submitting == old(self).submitting && final(self).error
                    == old(self).error,
                Err(message) => !final(self).submitting && opt_view(final(self).error) == Some(
                    message@,
                ),
            },
            final(self).loading == old(self).loading,
            final(self).checked == old(self).checked,
    {
        match result {
            Ok(()) => {},
            Err(message) => {
                self.submitting = false;
                self.error = Some(message);
            },
        }
    }
}

/// Starts the auth check of a credential page once; returns whether the
/// status request goes out now (its answer goes to
/// [`AuthPageState::finish_auth_check`]).
pub fn initialize_auth_page(state: &mut AuthPageState) -> (start: bool)
    ensures
        start == !old(state).checked,
        final(state).checked,
        final(state).loading == old(state).loading,
        final(state).submitting == old(state).submitting,
        final(state).error == old(state).error,
        final(state).username == old(state).username,
        final(state).password == old(state).password,
{
    state.begin_auth_check()
}

/// Submits the credentials of a page: returns the user name and password to
/// send and the path to go to once they are accepted (the session to return
/// to, or home), or `None` while a submission runs.
pub fn submit_credentials_handler(state: &mut AuthPageState, return_to_path: Option<String>) -> (request: Option<(String, String, String)>)
    ensures
        old(state).submitting ==> request is None && final(state).error == old(state).error,
        !old(state).submitting ==> request is Some && request.unwrap().0@ == old(state).username@
            && request.unwrap().1@ == old(state).password@ && request.unwrap().2@
            == success_path_spec(opt_view(return_to_path)) && final(state).error is None,
        final(state).submitting,
        final(state).loading == old(state).loading,
        final(state).checked == old(state).checked,
{
    match state.begin_submit_credentials() {
        Some((username, password)) => Some((username, password, auth_success_path(return_to_path))),
        None => None,
    }
}

/// A visitor who is signed in leaves a credential page for the session to
/// return to: for every page kind and path `p`, the route is a redirect to
/// `p`, and to `/app/` when there is no session to return to.
pub proof fn lemma_signed_in_visitor_returns_to_session(kind: AuthPageKind, p: Seq<char>)
    ensures
        auth_page_route_spec(kind, HomeRouteTarget::PrepareSession, Some(p))
            == AuthPageRouteView::Redirect(p),
        auth_page_route_spec(kind, HomeRouteTarget::PrepareSession, None)
            == AuthPageRouteView::Redirect("/app/"@),
{
}

} // verus!
