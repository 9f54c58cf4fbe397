use deck_desktop::common::ToolOutput;
use deck_desktop::json::Json;
use deck_desktop::remote_access::{
    after_serve_attempt, get_status, is_serve_enabled_from_text, pick_serve_url_from_text,
    serve_arguments, serve_status_from_json_run, serve_status_from_plain_run, serve_url_from_json,
    stop, RemoteAccessSettings, ServeStep, SERVE_PORTS, SERVE_PORTS_EXHAUSTED,
};
use deck_desktop::tailscale::{
    choose_tailscale, find_tailscale_command, get_status_summary, parse_status_json,
    summarize_status, TailscaleStatusSummary,
};
use deck_desktop::updater::update_info;
use deck_desktop::window::{
    health_url, is_development_mode, port_from_settings, read_server_port_from_settings,
    server_ready, MAX_SERVER_SEARCH_DEPTH, READY_ATTEMPTS, READY_POLL_MS, WINDOW_INIT_DELAY_MS,
    WINDOW_LABEL,
};

fn blank(installed: bool) -> TailscaleStatusSummary {
    TailscaleStatusSummary {
        installed,
        backend_state: None,
        auth_url: None,
        self_hostname: None,
        self_dns_name: None,
        tailscale_ips: vec![],
    }
}

fn output(success: bool, stdout: &str, stderr: &str) -> ToolOutput {
    ToolOutput {
        success,
        stdout: stdout.as_bytes().to_vec(),
        stderr: stderr.as_bytes().to_vec(),
    }
}

#[test]
fn parse_status_json_logged_in_extracts_ips_and_dns() {
    let json = r#"
    {
      "BackendState": "Running",
      "Self": {
        "HostName": "home-pc",
        "DNSName": "home-pc.tailnet-123.ts.net",
        "TailscaleIPs": ["100.64.12.34", "fd7a:115c:a1e0:ab12::1234"]
      }
    }
    "#;

    let status = parse_status_json(json).expect("should parse");
    assert_eq!(
        status,
        TailscaleStatusSummary {
            installed: true,
            backend_state: Some("Running".to_string()),
            auth_url: None,
            self_hostname: Some("home-pc".to_string()),
            self_dns_name: Some("home-pc.tailnet-123.ts.net".to_string()),
            tailscale_ips: vec!["100.64.12.34".to_string(), "fd7a:115c:a1e0:ab12::1234".to_string()],
        }
    );
}

#[test]
fn parse_status_json_needs_login_extracts_auth_url() {
    let json = r#"
    {
      "BackendState": "NeedsLogin",
      "AuthURL": "https://login.tailscale.com/a/abcdef123456",
      "Self": {
        "HostName": "home-pc",
        "DNSName": "home-pc.tailnet-123.ts.net",
        "TailscaleIPs": []
      }
    }
    "#;

    let status = parse_status_json(json).expect("should parse");
    assert_eq!(status.backend_state.as_deref(), Some("NeedsLogin"));
    assert_eq!(
        status.auth_url.as_deref(),
        Some("https://login.tailscale.com/a/abcdef123456")
    );
}

#[test]
fn status_json_that_is_no_json() {
    let err = parse_status_json("{not json").unwrap_err();
    assert!(err.starts_with("Invalid JSON: "));
    assert!(err.len() > "Invalid JSON: ".len());
    let expected = serde_json::from_str::<serde_json::Value>("{not json").unwrap_err();
    assert_eq!(err, format!("Invalid JSON: {}", expected));
}

#[test]
fn status_json_with_other_shapes() {
    assert_eq!(parse_status_json("null"), Ok(blank(true)));
    assert_eq!(parse_status_json("[1, 2]"), Ok(blank(true)));
    let odd = r#"{"BackendState": 3, "AuthURL": null, "Self": {"HostName": ["x"], "TailscaleIPs": ["a", 1, null, "b", {"c": "d"}]}}"#;
    let s = parse_status_json(odd).unwrap();
    assert_eq!(s.backend_state, None);
    assert_eq!(s.auth_url, None);
    assert_eq!(s.self_hostname, None);
    assert_eq!(s.self_dns_name, None);
    assert_eq!(s.tailscale_ips, vec!["a".to_string(), "b".to_string()]);
    let not_array = r#"{"Self": {"TailscaleIPs": "100.1.1.1"}}"#;
    assert_eq!(parse_status_json(not_array).unwrap().tailscale_ips, Vec::<String>::new());
}

#[test]
fn summary_of_a_given_value() {
    let v = Json::Object(vec![
        ("BackendState".to_string(), Json::Text("Stopped".to_string())),
        (
            "Self".to_string(),
            Json::Object(vec![
                ("DNSName".to_string(), Json::Text("pc.ts.net".to_string())),
                (
                    "TailscaleIPs".to_string(),
                    Json::Array(vec![Json::Number(Some(1)), Json::Text("100.1.2.3".to_string())]),
                ),
            ]),
        ),
    ]);
    let s = summarize_status(&v);
    assert_eq!(
        s,
        TailscaleStatusSummary {
            installed: true,
            backend_state: Some("Stopped".to_string()),
            auth_url: None,
            self_hostname: None,
            self_dns_name: Some("pc.ts.net".to_string()),
            tailscale_ips: vec!["100.1.2.3".to_string()],
        }
    );
}

#[test]
fn status_summary_cases() {
    assert_eq!(get_status_summary(false, None), blank(false));
    assert_eq!(get_status_summary(false, Some(br#"{"BackendState": "Running"}"#)), blank(false));
    assert_eq!(get_status_summary(true, None), blank(true));
    assert_eq!(get_status_summary(true, Some(b"oops")), blank(true));
    let s = get_status_summary(true, Some(br#"{"BackendState": "Running"}"#));
    assert_eq!(s.backend_state, Some("Running".to_string()));
    assert!(s.installed);
}

#[test]
fn tailscale_command() {
    assert_eq!(choose_tailscale(true), Some("tailscale".to_string()));
    assert_eq!(choose_tailscale(false), None);
    if let Some(cmd) = find_tailscale_command() {
        assert_eq!(cmd, "tailscale");
    }
}

#[test]
fn json_accessors() {
    let v = Json::Object(vec![
        ("a".to_string(), Json::Number(Some(7))),
        ("b".to_string(), Json::Bool(true)),
        ("a".to_string(), Json::Null),
    ]);
    assert!(matches!(v.get("a"), Some(Json::Number(Some(7)))));
    assert!(matches!(v.get("b"), Some(Json::Bool(true))));
    assert!(v.get("c").is_none());
    assert!(Json::Null.get("a").is_none());
    assert_eq!(v.get("a").unwrap().as_u64(), Some(7));
    assert_eq!(Json::Number(None).as_u64(), None);
    assert_eq!(Json::Text("7".to_string()).as_u64(), None);
    assert_eq!(Json::Text("x".to_string()).as_str(), Some(&"x".to_string()));
    assert!(Json::Null.as_str().is_none());
    assert_eq!(Json::Array(vec![Json::Null]).as_array().unwrap().len(), 1);
    assert!(v.as_array().is_none());
    assert_eq!(v.as_object().unwrap().len(), 3);
    assert!(Json::Null.as_object().is_none());
}

#[test]
fn serve_enabled_by_text() {
    assert!(is_serve_enabled_from_text("https://pc.ts.net (tailnet only)"));
    assert!(is_serve_enabled_from_text("proxy HTTP://127.0.0.1:8787"));
    assert!(!is_serve_enabled_from_text("No serve config"));
    assert!(!is_serve_enabled_from_text(""));
}

#[test]
fn serve_url_by_text() {
    assert_eq!(
        pick_serve_url_from_text("Available at https://pc.ts.net/)., then more"),
        Some("https://pc.ts.net/".to_string())
    );
    assert_eq!(
        pick_serve_url_from_text("\thttp://a  https://b;\nhttps://c"),
        Some("https://b".to_string())
    );
    assert_eq!(pick_serve_url_from_text("see (https://x)"), None);
    assert_eq!(pick_serve_url_from_text("HTTPS://x"), None);
    assert_eq!(pick_serve_url_from_text(""), None);
    assert_eq!(pick_serve_url_from_text("   "), None);
    assert_eq!(pick_serve_url_from_text("https://"), Some("https://".to_string()));
    for sample in ["a https://b.c, d", " https://q}]\u{a0}x", "x\u{3000}https://z."] {
        let expected = sample
            .split_whitespace()
            .find(|t| t.starts_with("https://"))
            .map(|t| t.trim_end_matches(['.', ',', ';', ')', ']', '}']).to_string());
        assert_eq!(pick_serve_url_from_text(sample), expected);
    }
}

#[test]
fn serve_url_by_json() {
    let parse = |text: &str| {
        serve_status_from_json_run(&Ok(output(true, text, ""))).unwrap()
    };
    assert_eq!(
        parse(r#"{"Web": {"pc.ts.net:443/": {"Handlers": {}}}}"#),
        (true, Some("https://pc.ts.net:443/".to_string()))
    );
    assert_eq!(
        parse(r#"{"Web": {"b.ts.net:443": {}, "a.ts.net:443": {}}}"#),
        (true, Some("https://a.ts.net:443/".to_string()))
    );
    assert_eq!(
        parse(r#"{"Foreground": {"id1": {"TCP": {}}, "id2": {"Web": {"fg.ts.net:8443": {}}}}}"#),
        (true, Some("https://fg.ts.net:8443/".to_string()))
    );
    assert_eq!(
        parse(r#"{"Web": {}, "Background": {"x": {"Web": {"bg.ts.net:443": {}}}}}"#),
        (true, Some("https://bg.ts.net:443/".to_string()))
    );
    // JSON without a host is read as text.
    assert_eq!(parse(r#"{"TCP": {"443": {"HTTPS": true}}}"#), (false, None));
    assert_eq!(
        parse(r#"{"note": "see https://pc.ts.net, please"}"#),
        (true, Some("https://pc.ts.net".to_string()))
    );
    assert_eq!(
        parse(r#"{"note": "at https://pc.ts.net"}"#),
        (true, Some("https://pc.ts.net\"".to_string()))
    );
    assert_eq!(parse(r#"{"note":"https://pc.ts.net"}"#), (true, None));
    // What is no JSON is read as text.
    assert_eq!(
        parse("https://pc.ts.net (Funnel off)"),
        (true, Some("https://pc.ts.net".to_string()))
    );
    assert_eq!(parse(""), (false, None));
}

#[test]
fn serve_url_of_a_given_value() {
    let v = Json::Object(vec![(
        "Web".to_string(),
        Json::Object(vec![("host:443//".to_string(), Json::Null)]),
    )]);
    assert_eq!(serve_url_from_json(&v), Some("https://host:443/".to_string()));
    assert_eq!(serve_url_from_json(&Json::Null), None);
    let not_object = Json::Object(vec![("Web".to_string(), Json::Text("x".to_string()))]);
    assert_eq!(serve_url_from_json(&not_object), None);
}

#[test]
fn serve_status_runs() {
    assert_eq!(serve_status_from_json_run(&Err("no tailscale".to_string())), None);
    assert_eq!(serve_status_from_json_run(&Ok(output(false, "https://x", ""))), None);
    assert_eq!(
        serve_status_from_plain_run(Err("Tailscale not installed".to_string())),
        Err("Tailscale not installed".to_string())
    );
    assert_eq!(
        serve_status_from_plain_run(Ok(output(false, "nothing", "https://pc.ts.net."))),
        Ok((true, Some("https://pc.ts.net".to_string())))
    );
    // The two streams are separate lines.
    assert_eq!(
        serve_status_from_plain_run(Ok(output(true, "https:", "//x"))),
        Ok((false, None))
    );
}

#[test]
fn serve_attempts() {
    assert_eq!(SERVE_PORTS, [443, 8443]);
    assert_eq!(SERVE_PORTS_EXHAUSTED, "tailscale serve failed: could not bind 443 or 8443");
    assert_eq!(
        serve_arguments(443, 8787),
        vec!["serve", "--yes", "--bg", "--https", "443", "8787"]
    );
    assert!(matches!(after_serve_attempt(443, &output(true, "", "listener already exists")), ServeStep::Done));
    assert!(matches!(after_serve_attempt(443, &output(false, "", "listener already exists")), ServeStep::TryNext));
    assert!(matches!(after_serve_attempt(443, &output(false, "x listener already exists", "")), ServeStep::TryNext));
    match after_serve_attempt(8443, &output(false, "out", "listener already exists")) {
        ServeStep::Fail(msg) => {
            assert_eq!(msg, "tailscale serve failed: out\nlistener already exists")
        }
        other => panic!("unexpected step {:?}", other),
    }
    match after_serve_attempt(443, &output(false, "", "denied\n")) {
        ServeStep::Fail(msg) => assert_eq!(msg, "tailscale serve failed: \ndenied"),
        other => panic!("unexpected step {:?}", other),
    }
    match after_serve_attempt(443, &output(false, "", "")) {
        ServeStep::Fail(msg) => assert_eq!(msg, "tailscale serve failed:"),
        other => panic!("unexpected step {:?}", other),
    }
}

#[test]
fn stopping_remote_access() {
    assert_eq!(stop(&output(true, "x", "y")), Ok(()));
    assert_eq!(
        stop(&output(false, "a", "b ")),
        Err("tailscale serve reset failed: a\nb".to_string())
    );
}

#[test]
fn remote_access_status() {
    assert!(!RemoteAccessSettings::default().auto_start);
    let ts = TailscaleStatusSummary {
        installed: true,
        backend_state: Some("Running".to_string()),
        auth_url: Some("u".to_string()),
        self_hostname: Some("h".to_string()),
        self_dns_name: Some("d".to_string()),
        tailscale_ips: vec!["1".to_string()],
    };
    let s = get_status(
        RemoteAccessSettings { auto_start: true },
        ts.clone(),
        Some((true, Some("https://h/".to_string()))),
    );
    assert!(s.installed);
    assert_eq!(s.backend_state, Some("Running".to_string()));
    assert_eq!(s.auth_url, Some("u".to_string()));
    assert_eq!(s.self_hostname, Some("h".to_string()));
    assert_eq!(s.self_dns_name, Some("d".to_string()));
    assert_eq!(s.tailscale_ips, vec!["1".to_string()]);
    assert!(s.serve_enabled);
    assert_eq!(s.serve_url, Some("https://h/".to_string()));
    assert!(s.settings.auto_start);

    let s = get_status(RemoteAccessSettings::default(), ts.clone(), None);
    assert!(!s.serve_enabled);
    assert_eq!(s.serve_url, None);

    let s = get_status(
        RemoteAccessSettings::default(),
        blank(false),
        Some((true, Some("https://h/".to_string()))),
    );
    assert!(!s.installed);
    assert!(!s.serve_enabled);
    assert_eq!(s.serve_url, None);
}

#[test]
fn update_descriptions() {
    let info = update_info("1.0.0", "1.1.0", Some("notes".to_string()), Some("2024-01-01".to_string()));
    assert_eq!(info.current_version, "1.0.0");
    assert_eq!(info.latest_version, "1.1.0");
    assert_eq!(info.body, "notes");
    assert_eq!(info.date, "2024-01-01");
    let info = update_info("1.0.0", "1.1.0", None, None);
    assert_eq!(info.body, "");
    assert_eq!(info.date, "Unknown");
}

#[test]
fn window_start_up() {
    assert_eq!(WINDOW_LABEL, "main");
    assert_eq!(WINDOW_INIT_DELAY_MS, 500);
    assert_eq!(MAX_SERVER_SEARCH_DEPTH, 10);
    assert_eq!(READY_ATTEMPTS, 15);
    assert_eq!(READY_POLL_MS, 500);
    assert_eq!(health_url(8787), "http://localhost:8787/health");

    assert!(is_development_mode(Some("/p/target/debug/app"), false));
    assert!(!is_development_mode(Some("/p/target/release/app"), true));
    assert!(is_development_mode(Some("/usr/bin/app"), true));
    assert!(!is_development_mode(Some("/usr/bin/app"), false));
    assert!(is_development_mode(None, true));
    assert!(!is_development_mode(None, false));

    assert!(server_ready(0, true, false));
    assert!(!server_ready(4, false, true));
    assert!(server_ready(5, false, true));
    assert!(server_ready(14, false, true));
    assert!(!server_ready(14, false, false));
}

#[test]
fn server_port_from_settings() {
    assert_eq!(read_server_port_from_settings(r#"{"port": 9000}"#), Some(9000));
    assert_eq!(read_server_port_from_settings(r#"{"port": 0}"#), Some(0));
    assert_eq!(read_server_port_from_settings(r#"{"port": 65535}"#), Some(65535));
    assert_eq!(read_server_port_from_settings(r#"{"port": 65536}"#), None);
    assert_eq!(read_server_port_from_settings(r#"{"port": -1}"#), None);
    assert_eq!(read_server_port_from_settings(r#"{"port": 80.0}"#), None);
    assert_eq!(read_server_port_from_settings(r#"{"port": "80"}"#), None);
    assert_eq!(read_server_port_from_settings(r#"{"host": "x"}"#), None);
    assert_eq!(read_server_port_from_settings("[9000]"), None);
    assert_eq!(read_server_port_from_settings("not json"), None);
    let v = Json::Object(vec![("port".to_string(), Json::Number(Some(8787)))]);
    assert_eq!(port_from_settings(&v), Some(8787));
    let big = Json::Object(vec![("port".to_string(), Json::Number(Some(1 << 40)))]);
    assert_eq!(port_from_settings(&big), None);
}
