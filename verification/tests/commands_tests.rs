use deck_desktop::commands::{
    check_mcp_url, check_port, choose_backend, command_info, detected_server,
    extract_title_from_html, get_server_logs, mcp_status_url, plan_server_start, server_base_url,
    server_started_message, server_status, tunnel_start_reply, validate_mcp_url, CommandInfo,
    DetectedServer, EnvironmentInfo, MCPStatus, PortCheck, PortStatus, ScanBackend, ServerStatus,
    StartPlan, TunnelStatus, UrlParts, DEV_SERVER_PORTS,
};
use deck_desktop::common;

#[test]
fn test_validate_port_accepts_valid_range() {
    assert!(common::validate_port(1024).is_ok());
    assert!(common::validate_port(8080).is_ok());
    assert!(common::validate_port(8787).is_ok());
    assert!(common::validate_port(65535).is_ok());
}

#[test]
fn test_validate_port_rejects_low_ports() {
    assert!(common::validate_port(0).is_err());
    assert!(common::validate_port(1).is_err());
    assert!(common::validate_port(1023).is_err());
}

#[test]
fn test_validate_port_rejects_invalid_ports() {
    assert!(common::validate_port(0).is_err());
    assert!(common::validate_port(1023).is_err());
}

#[test]
fn test_server_status_structure() {
    let status = ServerStatus {
        running: true,
        port: 8787,
    };

    assert_eq!(status.running, true);
    assert_eq!(status.port, 8787);

    let mut fields = serde_json::Map::new();
    fields.insert("running".to_string(), serde_json::Value::Bool(status.running));
    fields.insert("port".to_string(), serde_json::Value::from(status.port));
    let json = serde_json::to_string(&serde_json::Value::Object(fields)).unwrap();
    assert!(json.contains("\"running\":true"));
    assert!(json.contains("\"port\":8787"));
}

#[test]
fn test_tunnel_status_structure() {
    let status_with_url = TunnelStatus {
        running: true,
        url: Some("https://example.com".to_string()),
        password: None,
    };

    let status_without_url = TunnelStatus {
        running: false,
        url: None,
        password: None,
    };

    assert_eq!(status_with_url.running, true);
    assert_eq!(status_with_url.url.unwrap(), "https://example.com");
    assert_eq!(status_without_url.running, false);
    assert!(status_without_url.url.is_none());
}

#[test]
fn test_environment_info_structure() {
    let node_info = CommandInfo {
        available: true,
        version: Some("v20.0.0".to_string()),
    };

    let npm_info = CommandInfo {
        available: false,
        version: None,
    };

    let pnpm_info = CommandInfo {
        available: true,
        version: Some("v9.0.0".to_string()),
    };

    let env_info = EnvironmentInfo {
        node: node_info.clone(),
        npm: npm_info.clone(),
        pnpm: pnpm_info.clone(),
    };

    assert_eq!(env_info.node.available, true);
    assert_eq!(env_info.node.version.as_ref().unwrap(), "v20.0.0");
    assert_eq!(env_info.npm.available, false);
    assert!(env_info.npm.version.is_none());
    assert_eq!(env_info.pnpm.available, true);
    assert_eq!(env_info.pnpm.version.as_ref().unwrap(), "v9.0.0");

    let mut node = serde_json::Map::new();
    node.insert("available".to_string(), serde_json::Value::Bool(env_info.node.available));
    node.insert(
        "version".to_string(),
        serde_json::Value::from(env_info.node.version.clone()),
    );
    let mut fields = serde_json::Map::new();
    fields.insert("node".to_string(), serde_json::Value::Object(node));
    let json = serde_json::to_string(&serde_json::Value::Object(fields)).unwrap();
    assert!(json.contains("\"available\":true"));
}

#[test]
fn test_port_status_structure() {
    let status = PortStatus {
        port: 8080,
        available: true,
        in_use: false,
    };

    assert_eq!(status.port, 8080);
    assert_eq!(status.available, true);
    assert_eq!(status.in_use, false);

    let in_use_status = PortStatus {
        port: 8080,
        available: false,
        in_use: true,
    };

    assert_eq!(in_use_status.available, false);
    assert_eq!(in_use_status.in_use, true);
}

#[test]
fn test_detected_server_structure() {
    let server = DetectedServer {
        name: "Test Server".to_string(),
        url: "http://localhost:3000".to_string(),
        port: 3000,
        status: "running".to_string(),
        type_: "dev".to_string(),
    };

    assert_eq!(server.name, "Test Server");
    assert_eq!(server.url, "http://localhost:3000");
    assert_eq!(server.port, 3000);
    assert_eq!(server.status, "running");
    assert_eq!(server.type_, "dev");
}

#[test]
fn test_mcp_status_structure() {
    let status = MCPStatus {
        name: "test-server".to_string(),
        status: "active".to_string(),
        capabilities: vec![
            "messaging".to_string(),
            "broadcast".to_string(),
        ],
    };

    assert_eq!(status.name, "test-server");
    assert_eq!(status.status, "active");
    assert_eq!(status.capabilities.len(), 2);
    assert!(status.capabilities.contains(&"messaging".to_string()));
    assert!(status.capabilities.contains(&"broadcast".to_string()));
}

#[test]
fn test_url_validation_for_mcp_servers() {
    // Valid URLs
    assert!(validate_mcp_url("http://localhost:8787").is_ok());
    assert!(validate_mcp_url("http://127.0.0.1:8787").is_ok());
    assert!(validate_mcp_url("https://localhost:8787").is_ok());

    if let Ok(url) = url::Url::parse("http://[::1]:8787") {
        if url.host_str() == Some("::1") {
            assert!(validate_mcp_url("http://[::1]:8787").is_ok());
        }
    }

    // Invalid URLs
    assert!(validate_mcp_url("http://192.168.1.1:8787").is_err());
    assert!(validate_mcp_url("http://example.com:8787").is_err());
    assert!(validate_mcp_url("ftp://localhost:8787").is_err());
    assert!(validate_mcp_url("not-a-url").is_err());
}

#[test]
fn validate_port_messages() {
    assert_eq!(common::validate_port(1024), Ok(()));
    assert_eq!(
        common::validate_port(1023),
        Err("Port 1023 is below 1024. Use a port between 1024 and 65535.".to_string())
    );
    assert_eq!(
        common::validate_port(0),
        Err("Port 0 is below 1024. Use a port between 1024 and 65535.".to_string())
    );
    assert_eq!(common::MIN_PORT, 1024);
    assert_eq!(common::DEFAULT_PORT, 8787);
}

#[test]
fn mcp_url_messages() {
    assert_eq!(validate_mcp_url("not-a-url"), Err("Invalid URL format".to_string()));
    assert_eq!(
        validate_mcp_url("http://example.com:8787"),
        Err("Only localhost URLs are allowed, got: example.com".to_string())
    );
    assert_eq!(
        validate_mcp_url("ftp://localhost:8787"),
        Err("Only http/https schemes are allowed".to_string())
    );
    // A URL without host passes the host test and fails on its scheme.
    assert_eq!(
        validate_mcp_url("file:///tmp/x"),
        Err("Only http/https schemes are allowed".to_string())
    );
    // The scheme is read in lower case.
    assert_eq!(validate_mcp_url("HTTP://LOCALHOST:1"), Ok(()));
    assert_eq!(
        validate_mcp_url("http://[::1]:8787"),
        Err("Only localhost URLs are allowed, got: [::1]".to_string())
    );
}

#[test]
fn mcp_url_verdict_on_given_parts() {
    let parts = |scheme: &str, host: Option<&str>| {
        Some(UrlParts { scheme: scheme.to_string(), host: host.map(|h| h.to_string()) })
    };
    assert_eq!(check_mcp_url(&None), Err("Invalid URL format".to_string()));
    assert_eq!(check_mcp_url(&parts("http", Some("localhost"))), Ok(()));
    assert_eq!(check_mcp_url(&parts("https", Some("127.0.0.1"))), Ok(()));
    assert_eq!(check_mcp_url(&parts("https", Some("::1"))), Ok(()));
    assert_eq!(check_mcp_url(&parts("http", None)), Ok(()));
    assert_eq!(
        check_mcp_url(&parts("ftp", Some("evil"))),
        Err("Only localhost URLs are allowed, got: evil".to_string())
    );
    assert_eq!(
        check_mcp_url(&parts("ws", Some("localhost"))),
        Err("Only http/https schemes are allowed".to_string())
    );
}

#[test]
fn mcp_status_address() {
    assert_eq!(mcp_status_url("http://localhost:8787"), "http://localhost:8787/api/mcp-status");
    assert_eq!(mcp_status_url("http://localhost:8787///"), "http://localhost:8787/api/mcp-status");
    assert_eq!(mcp_status_url(""), "/api/mcp-status");
}

#[test]
fn title_of_a_page() {
    assert_eq!(
        extract_title_from_html("<html><title>  My App \n</title></html>"),
        Some("My App".to_string())
    );
    assert_eq!(extract_title_from_html("<html></html>"), None);
    assert_eq!(extract_title_from_html("<title>open end"), Some("open end".to_string()));
    assert_eq!(extract_title_from_html("<title>a<title>b</title>"), Some("a".to_string()));
    assert_eq!(extract_title_from_html("</title><title></title>x"), Some(String::new()));
}

#[test]
fn server_status_cases() {
    let s = server_status(Some(3000), false);
    assert!(s.running);
    assert_eq!(s.port, 3000);
    let s = server_status(None, true);
    assert!(s.running);
    assert_eq!(s.port, 8787);
    let s = server_status(None, false);
    assert!(!s.running);
    assert_eq!(s.port, 8787);
}

#[test]
fn server_start_plans() {
    assert!(matches!(plan_server_start(8787, &PortCheck::Free), StartPlan::Spawn));
    match plan_server_start(8787, &PortCheck::InUse) {
        StartPlan::AlreadyServing(msg) => assert_eq!(msg, "Server already running on port 8787"),
        other => panic!("unexpected plan {:?}", other),
    }
    match plan_server_start(8787, &PortCheck::Failed("permission denied".to_string())) {
        StartPlan::Fail(msg) => assert_eq!(msg, "Cannot check port: permission denied"),
        other => panic!("unexpected plan {:?}", other),
    }
    assert_eq!(server_started_message(65535), "Server started on port 65535");
    assert_eq!(
        get_server_logs(),
        Ok(vec!["Server logging not yet implemented".to_string()])
    );
}

#[test]
fn tunnel_start_replies() {
    assert_eq!(tunnel_start_reply(Some("https://x.loca.lt".to_string())), Ok("https://x.loca.lt".to_string()));
    assert_eq!(tunnel_start_reply(None), Err("Tunnel started but URL not available".to_string()));
}

#[test]
fn command_versions() {
    let info = command_info(Some(b"  v20.11.0\n"));
    assert!(info.available);
    assert_eq!(info.version, Some("v20.11.0".to_string()));
    let info = command_info(Some(b" \n"));
    assert!(info.available);
    assert_eq!(info.version, None);
    let info = command_info(Some(b"v1\xff"));
    assert_eq!(info.version, Some("v1\u{fffd}".to_string()));
    let info = command_info(None);
    assert!(!info.available);
    assert_eq!(info.version, None);
}

#[test]
fn port_checks() {
    let s = check_port(8080, true).unwrap();
    assert_eq!((s.port, s.available, s.in_use), (8080, true, false));
    let s = check_port(8080, false).unwrap();
    assert_eq!((s.port, s.available, s.in_use), (8080, false, true));
    assert_eq!(
        check_port(80, true).unwrap_err(),
        "Port 80 is below 1024. Use a port between 1024 and 65535."
    );
}

#[test]
fn detected_servers() {
    assert_eq!(server_base_url(5173), "http://127.0.0.1:5173");
    let s = detected_server(5173, "vite", Some("My Vite App".to_string()));
    assert_eq!(s.name, "My Vite App");
    assert_eq!(s.url, "http://127.0.0.1:5173");
    assert_eq!(s.port, 5173);
    assert_eq!(s.status, "running");
    assert_eq!(s.type_, "vite");
    let s = detected_server(3000, "dev", None);
    assert_eq!(s.name, "dev");
    assert_eq!(DEV_SERVER_PORTS.len(), 8);
    assert_eq!(DEV_SERVER_PORTS[6], (8787, "side-ide"));
}

#[test]
fn backend_choice() {
    assert_eq!(choose_backend(true, true), ScanBackend::External);
    assert_eq!(choose_backend(true, false), ScanBackend::Internal);
    assert_eq!(choose_backend(false, true), ScanBackend::Internal);
    assert_eq!(choose_backend(false, false), ScanBackend::Internal);
}
