use unified_clipboard::config;
use unified_clipboard::endpoint;
use unified_clipboard::config::build_url;
use unified_clipboard::config::build_ws_str;
use unified_clipboard::config::get_http_str;
use unified_clipboard::config::get_ws_str;
use unified_clipboard::endpoint::request_url;
use unified_clipboard::endpoint::str_starts_with;

fn agent_args() -> config::Args {
    config::Args {
        domain: "example.org".to_string(),
        port: "8000".to_string(),
        hostname: "host1".to_string(),
        passphrase: "".to_string(),
        url: "".to_string(),
        ssl_enabled: false,
    }
}

#[test]
fn schemes_follow_the_ssl_switch() {
    assert_eq!(get_http_str(false), "http://".to_string());
    assert_eq!(get_http_str(true), "https://".to_string());
    assert_eq!(get_ws_str(false), "ws://".to_string());
    assert_eq!(get_ws_str(true), "wss://".to_string());
}

#[test]
fn agent_base_url_is_scheme_plus_domain() {
    let mut opt = agent_args();
    config::sanitize_input(&mut opt);
    assert_eq!(opt.url, "http://example.org".to_string());

    let mut secure = agent_args();
    secure.ssl_enabled = true;
    config::sanitize_input(&mut secure);
    assert_eq!(secure.url, "https://example.org".to_string());
}

#[test]
fn request_urls_name_operation_and_identifier() {
    let mut opt = agent_args();
    config::sanitize_input(&mut opt);
    assert_eq!(
        build_url(&opt, &"/api/create_clipboard/".to_string()),
        "http://example.org:8000/api/create_clipboard/host1".to_string()
    );
    assert_eq!(
        build_url(&opt, &"/api/kill_clipboard/".to_string()),
        "http://example.org:8000/api/kill_clipboard/host1".to_string()
    );
}

#[test]
fn stream_url_names_the_session_path() {
    let opt = agent_args();
    assert_eq!(
        build_ws_str(&opt),
        "ws://example.org:8000/api/clipboard_websocket/host1".to_string()
    );
}

#[test]
fn prefix_test_is_exact() {
    assert!(str_starts_with("https://x", "https://"));
    assert!(!str_starts_with("http://x", "https://"));
    assert!(!str_starts_with("htt", "http://"));
    assert!(str_starts_with("anything", ""));
}

#[test]
fn legacy_endpoint_is_normalized() {
    let mut opt = endpoint::Args {
        url: "localhost:".to_string(),
        port: ":8000".to_string(),
        kill: false,
        hostname: "host1".to_string(),
    };
    endpoint::sanitize_input(&mut opt);
    assert_eq!(opt.url, "http://localhost".to_string());
    assert_eq!(opt.port, "8000".to_string());

    let mut kept = endpoint::Args {
        url: "https://box".to_string(),
        port: "9".to_string(),
        kill: true,
        hostname: "h".to_string(),
    };
    endpoint::sanitize_input(&mut kept);
    assert_eq!(kept.url, "https://box".to_string());
    assert_eq!(kept.port, "9".to_string());
}

#[test]
fn legacy_request_url_matches_the_layout() {
    let mut opt = endpoint::Args {
        url: "localhost".to_string(),
        port: "8000".to_string(),
        kill: false,
        hostname: "host1".to_string(),
    };
    endpoint::sanitize_input(&mut opt);
    assert_eq!(
        request_url(&opt, "/api/set_clipboard/"),
        "http://localhost:8000/api/set_clipboard/host1".to_string()
    );
}
