use acp_web_frontend::routing::{
    app_session_path, current_route, current_route_from, decode_component, encode_component,
    hex_value, route_from_pathname, AppRoute,
};

#[test]
fn app_session_path_encodes_reserved_session_id_characters() {
    assert_eq!(app_session_path("s/1"), "/app/sessions/s%2F1");
}

#[test]
fn route_from_pathname_decodes_session_id_segments() {
    assert_eq!(route_from_pathname("/app/register"), AppRoute::Register);
    assert_eq!(route_from_pathname("/app/register/"), AppRoute::Register);
    assert_eq!(route_from_pathname("/app/sign-in"), AppRoute::SignIn);
    assert_eq!(route_from_pathname("/app/sign-in/"), AppRoute::SignIn);
    assert_eq!(route_from_pathname("/app/accounts"), AppRoute::Accounts);
    assert_eq!(route_from_pathname("/app/accounts/"), AppRoute::Accounts);
    assert_eq!(
        route_from_pathname("/app/sessions/s%2F1"),
        AppRoute::Session("s/1".to_string())
    );
    assert_eq!(route_from_pathname("/app/sessions/%ZZ"), AppRoute::NotFound);
}

#[test]
fn component_encoding_round_trips_and_rejects_invalid_hex() {
    assert_eq!(encode_component("s/1"), "s%2F1");
    assert_eq!(decode_component("s%2F1"), Some("s/1".to_string()));
    assert_eq!(decode_component("s%2f1"), Some("s/1".to_string()));
    assert_eq!(
        decode_component("hello%20world"),
        Some("hello world".to_string())
    );
    assert_eq!(decode_component("%E3%81%82"), Some("あ".to_string()));
    assert_eq!(decode_component("%ZZ"), None);
    assert_eq!(decode_component("%A"), None);
}

#[test]
fn route_from_pathname_handles_home_and_unknown_paths() {
    assert_eq!(route_from_pathname("/app"), AppRoute::Home);
    assert_eq!(route_from_pathname("/app/"), AppRoute::Home);
    assert_eq!(route_from_pathname("/app/sessions/"), AppRoute::NotFound);
    assert_eq!(route_from_pathname("/app/sessions"), AppRoute::NotFound);
    assert_eq!(route_from_pathname("/outside"), AppRoute::NotFound);
}

#[test]
fn current_route_falls_back_to_not_found_without_a_browser_window() {
    assert_eq!(current_route(), AppRoute::NotFound);
}

#[test]
fn current_route_from_reads_the_given_pathname() {
    assert_eq!(current_route_from(Some("/app/accounts/")), AppRoute::Accounts);
    assert_eq!(current_route_from(None), AppRoute::NotFound);
}

#[test]
fn encode_component_keeps_unreserved_and_escapes_the_rest() {
    assert_eq!(encode_component("aZ09-._~"), "aZ09-._~");
    assert_eq!(encode_component("a b&c=d?"), "a%20b%26c%3Dd%3F");
    assert_eq!(encode_component("あ"), "%E3%81%82");
    assert_eq!(encode_component(""), "");
}

#[test]
fn decode_component_rejects_invalid_utf8_and_truncated_escapes() {
    assert_eq!(decode_component("%FF"), None);
    assert_eq!(decode_component("abc%"), None);
    assert_eq!(decode_component("abc%4"), None);
    assert_eq!(decode_component(""), Some(String::new()));
    assert_eq!(decode_component("+"), Some("+".to_string()));
}

#[test]
fn decode_of_encode_is_identity_on_examples() {
    for s in ["", "s/1", "hello world", "あいう", "%25", "a&b=c?d#e", "tab\tnl\n"] {
        assert_eq!(decode_component(&encode_component(s)), Some(s.to_string()));
    }
}

#[test]
fn session_paths_route_back_to_their_session() {
    for id in ["s1", "s/1", "id with spaces", "日本", "%"] {
        assert_eq!(
            route_from_pathname(&app_session_path(id)),
            AppRoute::Session(id.to_string())
        );
    }
}

#[test]
fn hex_value_reads_both_cases() {
    assert_eq!(hex_value(b'0'), Some(0));
    assert_eq!(hex_value(b'9'), Some(9));
    assert_eq!(hex_value(b'a'), Some(10));
    assert_eq!(hex_value(b'F'), Some(15));
    assert_eq!(hex_value(b'g'), None);
    assert_eq!(hex_value(b'%'), None);
}
