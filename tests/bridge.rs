use terminai_core::bridge::{
    fallback_workspace, generate_token, resolve_token, resolve_web_ui_path, sidecar_args, token_from_bytes,
};
use terminai_core::{BridgeControl, CliReadyEvent, SidecarEvent};

const READY_LINE: &str = r#"{"terminai_status":"ready","port":5001,"token":"abc"}"#;

#[test]
fn readiness_published_at_most_once() {
    let mut bridge = BridgeControl::new("own".to_string(), "/ws".to_string());
    let first = bridge.on_event(&SidecarEvent::Stdout(READY_LINE.to_string()));
    assert_eq!(
        first.ready,
        Some(CliReadyEvent {
            url: "http://127.0.0.1:5001".to_string(),
            token: "abc".to_string(),
            workspace: "/ws".to_string(),
        })
    );
    assert!(!first.finished);
    let second = bridge.on_event(&SidecarEvent::Stdout(READY_LINE.to_string()));
    assert_eq!(second.ready, None);
    let banner = bridge.on_event(&SidecarEvent::Stdout("Web Remote: http://127.0.0.1:1/".to_string()));
    assert_eq!(banner.ready, None);
}

#[test]
fn legacy_readiness_uses_bridge_token() {
    let mut bridge = BridgeControl::new("generated".to_string(), "/ws".to_string());
    let step = bridge.on_event(&SidecarEvent::Stdout("Web Remote: http://127.0.0.1:41242/?token=xyz\n".to_string()));
    let ev = step.ready.expect("ready");
    assert_eq!(ev.url, "http://127.0.0.1:41242");
    assert_eq!(ev.token, "generated");
}

#[test]
fn error_lines_are_never_parsed() {
    let mut bridge = BridgeControl::new("t".to_string(), "/ws".to_string());
    let step = bridge.on_event(&SidecarEvent::Stderr(READY_LINE.to_string()));
    assert_eq!(step.ready, None);
    assert!(!step.finished);
    let step = bridge.on_event(&SidecarEvent::Other);
    assert_eq!(step.ready, None);
    assert!(!step.finished);
}

#[test]
fn termination_ends_the_pump() {
    let mut bridge = BridgeControl::new("t".to_string(), "/ws".to_string());
    let step = bridge.on_event(&SidecarEvent::Terminated);
    assert!(step.finished);
    assert!(step.ready.is_none());
}

#[test]
fn stop_is_idempotent_and_silences_the_pump() {
    let mut bridge = BridgeControl::new("t".to_string(), "/ws".to_string());
    assert!(bridge.is_running());
    assert!(bridge.stop());
    assert!(!bridge.stop());
    assert!(!bridge.is_running());
    let step = bridge.on_event(&SidecarEvent::Stdout(READY_LINE.to_string()));
    assert!(step.finished);
    assert!(step.ready.is_none());
}

#[test]
fn launch_arguments() {
    let args = sidecar_args("tok");
    assert_eq!(
        args,
        vec!["--web-remote", "--web-remote-port", "0", "--web-remote-token", "tok", "--output-format", "json"]
    );
}

#[test]
fn token_text_is_hex_of_bytes() {
    assert_eq!(token_from_bytes(&vec![0x00, 0x0f, 0xa0, 0xff]), "000fa0ff");
    assert_eq!(token_from_bytes(&vec![]), "");
}

#[test]
fn generated_token_is_64_hex_digits() {
    let t = generate_token();
    assert_eq!(t.len(), 64);
    assert!(t.chars().all(|c| c.is_ascii_digit() || ('a'..='f').contains(&c)));
    assert_ne!(generate_token(), t);
}

#[test]
fn token_override_wins() {
    assert_eq!(resolve_token(Some("fixed".to_string())), "fixed");
    assert_eq!(resolve_token(None).len(), 64);
}

#[test]
fn web_ui_path_fallbacks() {
    assert_eq!(resolve_web_ui_path("/res/web-ui".to_string(), true, Some("/dev".to_string())), "/res/web-ui");
    assert_eq!(resolve_web_ui_path("/res/web-ui".to_string(), false, Some("/dev".to_string())), "/dev");
    assert_eq!(resolve_web_ui_path("/res/web-ui".to_string(), false, None), "./packages/desktop/dist");
}

#[test]
fn legacy_workspace_fallbacks() {
    assert_eq!(fallback_workspace(Some("/home/u".to_string()), Some("C:\\u".to_string())), "/home/u");
    assert_eq!(fallback_workspace(None, Some("C:\\u".to_string())), "C:\\u");
    assert_eq!(fallback_workspace(None, None), "/tmp");
}
