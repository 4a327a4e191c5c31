use terminai_core::handshake::{classify_line, legacy_banner_url, structured_handshake, DEFAULT_PORT};
use terminai_core::{Handshake, JsonMember};

fn ready(url: &str, token: &str) -> Handshake {
    Handshake::Ready { url: url.to_string(), token: token.to_string() }
}

#[test]
fn structured_line_gives_port_and_token() {
    let line = r#"{"terminai_status":"ready","port":5001,"token":"abc"}"#;
    assert_eq!(classify_line(line, "own"), ready("http://127.0.0.1:5001", "abc"));
}

#[test]
fn structured_line_wins_over_banner_text() {
    let line = r#"{"terminai_status":"ready","port":5001,"token":"abc","note":"Web Remote: http://127.0.0.1:9/"}"#;
    assert_eq!(classify_line(line, "own"), ready("http://127.0.0.1:5001", "abc"));
}

#[test]
fn structured_line_with_newline() {
    let line = "{\"terminai_status\":\"ready\",\"port\":7\"}\n";
    // not valid JSON: a stray quote; nothing matches
    assert_eq!(classify_line(line, "own"), Handshake::NoMatch);
    let line = "{\"terminai_status\":\"ready\",\"port\":7}\n";
    assert_eq!(classify_line(line, "own"), ready("http://127.0.0.1:7", "own"));
}

#[test]
fn structured_defaults_port_and_token() {
    let line = r#"{"terminai_status":"ready"}"#;
    assert_eq!(classify_line(line, "mine"), ready("http://127.0.0.1:41242", "mine"));
    assert_eq!(DEFAULT_PORT, 41242);
}

#[test]
fn structured_ignores_non_integer_port_and_non_string_token() {
    let line = r#"{"terminai_status":"ready","port":"5001","token":12}"#;
    assert_eq!(classify_line(line, "mine"), ready("http://127.0.0.1:41242", "mine"));
    let line = r#"{"terminai_status":"ready","port":-3}"#;
    assert_eq!(classify_line(line, "mine"), ready("http://127.0.0.1:41242", "mine"));
}

#[test]
fn structured_other_status_is_no_match() {
    let line = r#"{"terminai_status":"starting","port":5001}"#;
    assert_eq!(classify_line(line, "own"), Handshake::NoMatch);
    let line = r#"["terminai_status","ready"]"#;
    assert_eq!(classify_line(line, "own"), Handshake::NoMatch);
}

#[test]
fn legacy_banner_gives_url_and_own_token() {
    let line = "Web Remote: http://127.0.0.1:41242/?token=xyz";
    assert_eq!(classify_line(line, "generated"), ready("http://127.0.0.1:41242", "generated"));
}

#[test]
fn legacy_banner_cut_at_space() {
    let line = "Web Remote listening on http://127.0.0.1:9000 now";
    assert_eq!(legacy_banner_url(line), Some("http://127.0.0.1:9000".to_string()));
}

#[test]
fn legacy_needs_marker_prefix_and_stop() {
    assert_eq!(legacy_banner_url("listening on http://127.0.0.1:9000/"), None);
    assert_eq!(legacy_banner_url("Web Remote: disabled"), None);
    assert_eq!(legacy_banner_url("Web Remote: http://127.0.0.1:9000"), None);
    assert_eq!(classify_line("plain diagnostic output\n", "t"), Handshake::NoMatch);
}

#[test]
fn structured_handshake_over_members() {
    let members = Some(vec![
        JsonMember { key: "token".to_string(), text: Some("tk".to_string()), unsigned: None },
        JsonMember { key: "terminai_status".to_string(), text: Some("ready".to_string()), unsigned: None },
        JsonMember { key: "port".to_string(), text: None, unsigned: Some(12345) },
    ]);
    assert_eq!(structured_handshake(&members, "own"), ready("http://127.0.0.1:12345", "tk"));
    assert_eq!(structured_handshake(&None, "own"), Handshake::NoMatch);
    let not_ready = Some(vec![JsonMember { key: "terminai_status".to_string(), text: None, unsigned: Some(1) }]);
    assert_eq!(structured_handshake(&not_ready, "own"), Handshake::NoMatch);
}
