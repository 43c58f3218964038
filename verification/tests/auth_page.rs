use acp_web_frontend::auth_page::{
    auth_page_path, auth_page_route, auth_success_path, initialize_auth_page, loading_message,
    page_title, submit_credentials_handler,
    password_autocomplete, sign_in_button_label, sign_in_disabled, sign_up_button_label,
    sign_up_disabled, submit_button_label, AuthPageKind, AuthPageRoute, AuthPageState,
    HomeRouteTarget,
};

#[test]
fn auth_page_route_redirects_to_the_expected_destination() {
    assert_eq!(
        auth_page_route(AuthPageKind::Register, HomeRouteTarget::PrepareSession, None),
        AuthPageRoute::Redirect("/app/".to_string())
    );
    assert_eq!(
        auth_page_route(AuthPageKind::Register, HomeRouteTarget::SignIn, None),
        AuthPageRoute::Redirect("/app/sign-in/".to_string())
    );
    assert_eq!(
        auth_page_route(AuthPageKind::SignIn, HomeRouteTarget::Register, None),
        AuthPageRoute::Redirect("/app/register/".to_string())
    );
}

#[test]
fn auth_page_route_keeps_matching_pages_ready() {
    assert_eq!(
        auth_page_route(AuthPageKind::Register, HomeRouteTarget::Register, None),
        AuthPageRoute::Ready
    );
    assert_eq!(
        auth_page_route(AuthPageKind::SignIn, HomeRouteTarget::SignIn, None),
        AuthPageRoute::Ready
    );
}

#[test]
fn auth_success_path_prefers_return_to_session_when_present() {
    assert_eq!(auth_success_path(Some("/app/sessions/s%2F1".to_string())), "/app/sessions/s%2F1");
    assert_eq!(auth_success_path(None), "/app/");
}

#[test]
fn auth_page_route_preserves_return_to_across_auth_page_redirects() {
    assert_eq!(
        auth_page_route(
            AuthPageKind::Register,
            HomeRouteTarget::SignIn,
            Some("/app/sessions/s%2F1".to_string()),
        ),
        AuthPageRoute::Redirect("/app/sign-in/?return_to=%2Fapp%2Fsessions%2Fs%252F1".to_string())
    );
    assert_eq!(
        auth_page_route(
            AuthPageKind::SignIn,
            HomeRouteTarget::Register,
            Some("/app/sessions/s%2F1".to_string()),
        ),
        AuthPageRoute::Redirect("/app/register/?return_to=%2Fapp%2Fsessions%2Fs%252F1".to_string())
    );
}

#[test]
fn auth_page_path_appends_encoded_return_to() {
    assert_eq!(auth_page_path("/app/sign-in/", None), "/app/sign-in/");
    assert_eq!(
        auth_page_path("/app/sign-in/", Some("/app/sessions/a b".to_string())),
        "/app/sign-in/?return_to=%2Fapp%2Fsessions%2Fa%20b"
    );
}

#[test]
fn submit_labels_and_autocomplete_match_each_page() {
    assert_eq!(password_autocomplete(AuthPageKind::Register), "new-password");
    assert_eq!(password_autocomplete(AuthPageKind::SignIn), "current-password");
    assert_eq!(submit_button_label(AuthPageKind::Register, true), "Creating account…");
    assert_eq!(submit_button_label(AuthPageKind::SignIn, false), "Sign in");
}

#[test]
fn page_title_and_loading_message_differ_by_page_kind() {
    assert_eq!(page_title(AuthPageKind::Register), "Register bootstrap account");
    assert_eq!(page_title(AuthPageKind::SignIn), "Sign in");
    assert_eq!(loading_message(AuthPageKind::Register), "Checking registration status…");
    assert_eq!(loading_message(AuthPageKind::SignIn), "Checking sign-in status…");
}

#[test]
fn submit_button_label_covers_remaining_combinations() {
    assert_eq!(submit_button_label(AuthPageKind::Register, false), "Create account");
    assert_eq!(submit_button_label(AuthPageKind::SignIn, true), "Signing in…");
}

#[test]
fn auth_page_state_starts_with_blank_inputs_and_loading_enabled() {
    let state = AuthPageState::new();
    assert!(state.username.is_empty());
    assert!(state.password.is_empty());
    assert!(state.error.is_none());
    assert!(state.loading);
    assert!(!state.submitting);
}

#[test]
fn handle_auth_status_updates_ready_and_redirect_routes() {
    let mut ready_state = AuthPageState::new();
    let redirect =
        ready_state.finish_auth_check(AuthPageKind::Register, Ok(HomeRouteTarget::Register), None);
    assert_eq!(redirect, None);
    assert!(!ready_state.loading);

    let mut redirect_state = AuthPageState::new();
    let redirect = redirect_state.finish_auth_check(
        AuthPageKind::SignIn,
        Ok(HomeRouteTarget::PrepareSession),
        None,
    );
    assert_eq!(redirect, Some("/app/".to_string()));
    assert!(redirect_state.loading);
    assert!(redirect_state.error.is_none());
}

#[test]
fn failed_auth_check_shows_the_error() {
    let mut state = AuthPageState::new();
    let redirect = state.finish_auth_check(AuthPageKind::SignIn, Err("offline".to_string()), None);
    assert_eq!(redirect, None);
    assert!(!state.loading);
    assert_eq!(state.error, Some("offline".to_string()));
}

#[test]
fn host_auth_helpers_set_flags_once_and_clear_errors() {
    let mut state = AuthPageState::new();
    state.error = Some("stale".to_string());

    state.initialize_auth_page_host();
    assert!(state.checked);
    assert!(!state.loading);

    state.loading = true;
    state.initialize_auth_page_host();
    assert!(state.loading);

    assert!(state.begin_submit_credentials().is_some());
    assert!(state.submitting);
    assert!(state.error.is_none());

    state.error = Some("still submitting".to_string());
    assert!(state.begin_submit_credentials().is_none());
    assert_eq!(state.error, Some("still submitting".to_string()));
}

#[test]
fn host_submit_credentials_handler_uses_submit_helper() {
    let mut state = AuthPageState::new();
    state.username = "alice".to_string();
    state.password = "secret".to_string();
    let request = submit_credentials_handler(&mut state, None);
    assert_eq!(
        request,
        Some(("alice".to_string(), "secret".to_string(), "/app/".to_string()))
    );
    assert!(state.submitting);
    assert!(state.error.is_none());
}

#[test]
fn submitted_credentials_lead_back_to_the_session() {
    let mut state = AuthPageState::new();
    let request = submit_credentials_handler(&mut state, Some("/app/sessions/s1".to_string()));
    assert_eq!(request.unwrap().2, "/app/sessions/s1");
    assert!(submit_credentials_handler(&mut state, None).is_none());
}

#[test]
fn failed_submission_can_be_retried() {
    let mut state = AuthPageState::new();
    state.begin_submit_credentials();
    state.finish_submit_credentials(Err("bad password".to_string()));
    assert!(!state.submitting);
    assert_eq!(state.error, Some("bad password".to_string()));
    assert!(state.begin_submit_credentials().is_some());
}

#[test]
fn auth_check_starts_once() {
    let mut state = AuthPageState::new();
    assert!(initialize_auth_page(&mut state));
    assert!(state.checked);
    assert!(state.loading);
    assert!(!initialize_auth_page(&mut state));
}

#[test]
fn sign_in_and_sign_up_buttons_follow_inputs_and_progress() {
    assert_eq!(sign_in_button_label(false), "Sign in");
    assert_eq!(sign_up_button_label(false), "Create account");
    assert!(sign_in_disabled(false, false, "", "pw"));
    assert!(!sign_in_disabled(false, false, "alice", "pw"));
    assert!(sign_in_disabled(true, false, "alice", "pw"));
    assert!(sign_up_disabled(false, true, "alice", "pw"));
    assert!(sign_up_disabled(false, false, "alice", "pw"));
    assert!(!sign_up_disabled(false, false, "alice", "password1"));
}
