use acp_web_frontend::return_to::{
    path_with_return_to, query_param, session_return_to_path,
    session_return_to_path_from_location, session_return_to_path_from_search,
};

#[test]
fn return_to_paths_round_trip_only_session_routes() {
    assert_eq!(
        path_with_return_to("/app/workspaces/", "/app/sessions/s%2F1"),
        "/app/workspaces/?return_to=%2Fapp%2Fsessions%2Fs%252F1"
    );
    assert_eq!(
        session_return_to_path("?return_to=%2Fapp%2Fsessions%2Fs%252F1"),
        Some("/app/sessions/s%2F1".to_string())
    );
    assert_eq!(session_return_to_path("?return_to=%2Fapp%2F"), None);
    assert_eq!(
        session_return_to_path("?return_to=https%3A%2F%2Fexample.com"),
        None
    );
}

#[test]
fn query_param_returns_named_values() {
    assert_eq!(
        query_param("?return_to=%2Fapp%2Fsessions%2Fabc&x=1", "return_to"),
        Some("/app/sessions/abc".to_string())
    );
    assert_eq!(query_param("?x=1", "return_to"), None);
    assert_eq!(
        query_param("return_to=%2Fapp%2F", "return_to"),
        Some("/app/".to_string())
    );
}

#[test]
fn session_return_to_path_from_location_returns_none_without_browser() {
    assert_eq!(session_return_to_path_from_location(), None);
}

#[test]
fn query_param_skips_pairs_without_values_and_undecodable_values() {
    assert_eq!(query_param("??a=1&b=2", "b"), Some("2".to_string()));
    assert_eq!(query_param("a&&a=3", "a"), Some("3".to_string()));
    assert_eq!(query_param("a=%ZZ&a=ok", "a"), Some("ok".to_string()));
    assert_eq!(query_param("a=x=y", "a"), Some("x=y".to_string()));
    assert_eq!(query_param("", "a"), None);
    assert_eq!(query_param("?", "a"), None);
    assert_eq!(query_param("=v", ""), Some("v".to_string()));
}

#[test]
fn session_return_to_path_from_search_reads_the_given_query() {
    assert_eq!(
        session_return_to_path_from_search(Some("?return_to=%2Fapp%2Fsessions%2Fabc")),
        Some("/app/sessions/abc".to_string())
    );
    assert_eq!(session_return_to_path_from_search(None), None);
}

#[test]
fn links_built_with_return_to_read_back_their_session() {
    let link = path_with_return_to("/app/accounts/", "/app/sessions/a%26b");
    let search = &link["/app/accounts/".len()..];
    assert_eq!(
        session_return_to_path(search),
        Some("/app/sessions/a%26b".to_string())
    );
}
