use deck_desktop::common;
use deck_desktop::remote_access::settings_path;
use deck_desktop::server::{
    data_directory, database_path, dev_data_directory, dev_server_directory, find_project_root, get_server_path, is_development_mode, is_directory_with,
    missing_script_message, port_variable, start, LaunchMode, MAX_EXE_SEARCH_DEPTH,
    MAX_SEARCH_DEPTH, NO_EXE_DIRECTORY, NO_EXE_PARENT, NO_PROJECT_ROOT,
};
use deck_desktop::window::{
    download_directory, find_bundled_server, find_downloaded_server, find_server_directory,
    NO_SERVER_DIRECTORY,
};
use deck_desktop::supervisor::{
    conflict_message, stop_reply, ProcessKind, StartError, StateConflict, Supervisor,
};
use std::path::PathBuf;

#[test]
fn test_server_handle_has_port() {
    let port = 8080u16;
    assert!(port >= 1024 && port <= 65535);
}

#[test]
fn test_validate_port_in_server_start() {
    assert!(common::validate_port(8787).is_ok());
    assert!(common::validate_port(1023).is_err());
}

#[test]
fn test_max_search_depth_constants() {
    assert!(MAX_SEARCH_DEPTH > 0);
    assert!(MAX_SEARCH_DEPTH <= 20);
    assert!(MAX_EXE_SEARCH_DEPTH > 0);
    assert!(MAX_EXE_SEARCH_DEPTH <= 10);
}

#[test]
fn test_server_path_fallback_logic() {
    let dummy_path = PathBuf::from("/tmp/test/resources/server/index.js");

    assert!(dummy_path.is_absolute());
    assert!(dummy_path.ends_with("index.js"));
}

#[test]
fn test_production_server_path_requirements() {
    let required_components = vec!["resources", "server", "index.js"];

    let test_path = PathBuf::from("/app/exe/dir/resources/server/index.js");
    let path_str = test_path.to_string_lossy();

    for component in &required_components {
        assert!(path_str.contains(component));
    }
}

#[test]
fn test_dev_server_path_requirements() {
    let required_components = vec!["apps", "server"];

    let test_path = PathBuf::from("/project/apps/server");
    let path_str = test_path.to_string_lossy();

    for component in &required_components {
        assert!(path_str.contains(component));
    }
}

#[test]
fn test_project_root_search_limit() {
    let max_iterations = MAX_SEARCH_DEPTH;

    let mut current = PathBuf::from("/some/deep/path");
    let mut iterations = 0;

    for _ in 0..max_iterations {
        if !current.pop() {
            break;
        }
        iterations += 1;
    }

    assert!(iterations <= max_iterations);
}

#[test]
fn test_npm_command_validation() {
    let result = common::find_npm_command();

    if result.is_err() {
        let error = result.unwrap_err();
        assert!(error.contains("npm") || error.contains("command"));
    }
}

#[test]
fn test_node_executable_validation() {
    let result = common::find_node_executable();

    if result.is_err() {
        let error = result.unwrap_err();
        assert!(error.contains("Node") || error.contains("executable"));
    }
}

#[test]
fn test_command_execution_on_different_platforms() {
    assert!(true);
    assert!(true);
}

#[test]
fn test_environment_variable_handling() {
    let test_port = 9999u16;

    let env_value = test_port.to_string();

    assert_eq!(env_value, "9999");

    let parsed: u16 = env_value.parse().unwrap();
    assert_eq!(parsed, test_port);
}

#[test]
fn test_error_messages_are_descriptive() {
    let not_found_error = "Failed to find project root";

    assert!(not_found_error.contains("project root"));
    assert!(not_found_error.len() > 10);

    let exe_error = "Failed to get exe path";

    assert!(exe_error.contains("exe"));
    assert!(exe_error.len() > 10);
}

#[test]
fn search_depth_values() {
    assert_eq!(MAX_SEARCH_DEPTH, 10);
    assert_eq!(MAX_EXE_SEARCH_DEPTH, 5);
}

#[test]
fn launch_planning() {
    assert_eq!(start(8787, true), Ok(LaunchMode::Development));
    assert_eq!(start(8787, false), Ok(LaunchMode::Production));
    assert_eq!(
        start(80, true),
        Err("Port 80 is below 1024. Use a port between 1024 and 65535.".to_string())
    );
    assert_eq!(port_variable(9999), "9999");
    assert_eq!(port_variable(0), "0");
    assert_eq!(port_variable(10), "10");
    assert_eq!(port_variable(65535), "65535");
    assert_eq!(
        missing_script_message("/opt/app/index.js"),
        "Server executable not found at: /opt/app/index.js. Ensure resources are bundled correctly."
    );
}

#[test]
fn development_mode() {
    assert!(is_development_mode(true, Some(true)));
    assert!(is_development_mode(false, Some(false)));
    assert!(is_development_mode(false, None));
    assert!(!is_development_mode(false, Some(true)));
}

#[test]
fn node_choice_by_probe_results() {
    assert_eq!(common::choose_npm(true), Ok("npm".to_string()));
    assert_eq!(common::choose_npm(false), Err(common::NPM_MISSING.to_string()));
    assert_eq!(common::choose_node(true, &[true, true, true]), Ok("node".to_string()));
    assert_eq!(common::choose_node(false, &[false, true, true]), Ok("/usr/bin/node".to_string()));
    assert_eq!(common::choose_node(false, &[true, false, false]), Ok("/usr/local/bin/node".to_string()));
    assert_eq!(common::choose_node(false, &[false, false, true]), Ok("/opt/homebrew/bin/node".to_string()));
    assert_eq!(common::choose_node(false, &[false, false, false]), Err(common::NODE_MISSING.to_string()));
    assert_eq!(common::choose_node(false, &[]), Err(common::NODE_MISSING.to_string()));
    let node: Result<String, String> = Ok("/usr/bin/node".to_string());
    let none: Result<String, String> = Err("no".to_string());
    assert_eq!(common::choose_npx(true, &none, String::new(), false), Ok("npx".to_string()));
    assert_eq!(common::choose_npx(false, &node, "/usr/bin/npx".to_string(), true), Ok("/usr/bin/npx".to_string()));
    assert_eq!(common::choose_npx(false, &node, "/usr/bin/npx".to_string(), false), Err(common::NPX_MISSING.to_string()));
    assert_eq!(common::choose_npx(false, &none, "/usr/bin/npx".to_string(), true), Err(common::NPX_MISSING.to_string()));
}

#[test]
fn start_on_occupied_slot_is_refused() {
    let mut slot: Supervisor<u32> = Supervisor::new();
    assert!(!slot.is_running());
    assert_eq!(slot.vacancy(), Ok(()));
    assert!(slot.start(|| Ok(7)).is_ok());
    assert!(slot.is_running());
    assert_eq!(slot.current(), Some(&7));
    assert_eq!(slot.vacancy(), Err(StateConflict::AlreadyRunning));

    let mut spawned = false;
    let second = slot.start(|| {
        spawned = true;
        Ok(8)
    });
    assert!(matches!(second, Err(StartError::Conflict(StateConflict::AlreadyRunning))));
    assert!(!spawned);
    assert_eq!(slot.current(), Some(&7));
}

#[test]
fn stop_on_empty_slot_is_refused() {
    let mut slot: Supervisor<u32> = Supervisor::new();
    assert_eq!(slot.stop(), Err(StateConflict::NotRunning));
    assert!(!slot.is_running());
    assert!(slot.start(|| Ok(1)).is_ok());
    assert_eq!(slot.stop(), Ok(1));
    assert!(!slot.is_running());
    assert_eq!(slot.current(), None);
    assert_eq!(slot.stop(), Err(StateConflict::NotRunning));
    assert!(slot.start(|| Ok(2)).is_ok());
    assert_eq!(slot.current(), Some(&2));
}

#[test]
fn failed_spawn_leaves_the_slot_empty() {
    let mut slot: Supervisor<u32> = Supervisor::new();
    let r = slot.start(|| Err("no such file".to_string()));
    match r {
        Err(StartError::Spawn(reason)) => assert_eq!(reason, "no such file"),
        other => panic!("unexpected result {:?}", other),
    }
    assert!(!slot.is_running());
}

#[test]
fn conflict_messages() {
    assert_eq!(
        conflict_message(ProcessKind::Server, StateConflict::AlreadyRunning),
        "Server is already running"
    );
    assert_eq!(
        conflict_message(ProcessKind::Server, StateConflict::NotRunning),
        "Server is not running"
    );
    assert_eq!(
        conflict_message(ProcessKind::Tunnel, StateConflict::AlreadyRunning),
        "Tunnel is already running"
    );
    assert_eq!(
        conflict_message(ProcessKind::Tunnel, StateConflict::NotRunning),
        "Tunnel is not running"
    );
}

#[test]
fn directory_search() {
    assert_eq!(common::nearest_holding("/tmp/surely/not/there", "tmp", 10), Some("/".to_string()));
    assert_eq!(common::nearest_holding("/tmp/surely/not/there", "tmp", 4), None);
    assert_eq!(common::nearest_holding("/", "tmp", 0), None);
    assert_eq!(common::nearest_holding("/tmp", "surely-not-there-4711", 10), None);
    assert!(common::holds_entry("/", "tmp"));
    assert!(!common::holds_entry("/tmp", "surely-not-there-4711"));
    assert!(is_directory_with("/", "tmp"));
    assert!(!is_directory_with("/surely-not-there-4711", "tmp"));
    assert_eq!(common::explain("Failed: ", "why"), "Failed: why");
}

#[test]
fn project_root_failures() {
    let nowhere = || Ok("/surely-not-there-4711/a/b".to_string());
    assert_eq!(
        find_project_root(Err("denied".to_string()), nowhere()),
        Err("Failed to get current dir: denied".to_string())
    );
    assert_eq!(
        find_project_root(nowhere(), Err("gone".to_string())),
        Err("Failed to get exe path: gone".to_string())
    );
    assert_eq!(find_project_root(nowhere(), Ok("/".to_string())), Err(NO_EXE_PARENT.to_string()));
    assert_eq!(find_project_root(nowhere(), nowhere()), Err(NO_PROJECT_ROOT.to_string()));
    assert_eq!(NO_PROJECT_ROOT, "Could not find project root (package.json)");
    assert_eq!(NO_EXE_PARENT, "Could not determine exe parent directory");
}

#[test]
fn server_script_location() {
    assert_eq!(
        get_server_path(Err("gone".to_string())),
        Err("Failed to get exe path: gone".to_string())
    );
    assert_eq!(get_server_path(Ok("/".to_string())), Err(NO_EXE_DIRECTORY.to_string()));
    assert_eq!(
        get_server_path(Ok("/surely-not-there-4711/bin/app".to_string())),
        Ok("/surely-not-there-4711/bin/resources/server/index.js".to_string())
    );
}

#[test]
fn server_directories() {
    assert_eq!(
        find_server_directory(Err("denied".to_string())),
        Err("Failed to get current dir: denied".to_string())
    );
    assert_eq!(
        find_server_directory(Ok("/surely-not-there-4711/a".to_string())),
        Err(NO_SERVER_DIRECTORY.to_string())
    );
    assert_eq!(
        find_bundled_server(Err("gone".to_string())),
        Err("Failed to get exe path: gone".to_string())
    );
    assert_eq!(
        find_bundled_server(Ok("/".to_string())),
        Err("Failed to get exe directory".to_string())
    );
    assert_eq!(
        find_bundled_server(Ok("/surely-not-there-4711/app".to_string())),
        Err("Bundled server not found".to_string())
    );
    assert_eq!(download_directory("/home/me"), "/home/me/S-IDE/server");
    assert_eq!(find_downloaded_server(None), Err("Failed to get AppData directory".to_string()));
    assert_eq!(
        find_downloaded_server(Some("/surely-not-there-4711")),
        Err("Downloaded server not found".to_string())
    );
}

#[test]
fn directories_above() {
    assert_eq!(common::ancestors("/a/b/c", 10), vec!["/a/b/c", "/a/b", "/a", "/"]);
    assert_eq!(common::ancestors("/a/b/c", 2), vec!["/a/b/c", "/a/b"]);
    assert_eq!(common::ancestors("/a/b/c", 4), vec!["/a/b/c", "/a/b", "/a", "/"]);
    assert_eq!(common::ancestors("/a/b/c", 0), Vec::<String>::new());
    assert_eq!(common::ancestors("/", 3), vec!["/"]);
    assert_eq!(common::ancestors("a/b", 5), vec!["a/b", "a", ""]);
    assert_eq!(common::ancestors("", 5), vec![""]);
}

#[test]
fn nearest_of_given_answers() {
    let chain = vec!["/a/b".to_string(), "/a".to_string(), "/".to_string()];
    assert_eq!(common::choose_nearest(&chain, &[false, true, true]), Some("/a".to_string()));
    assert_eq!(common::choose_nearest(&chain, &[true, false, false]), Some("/a/b".to_string()));
    assert_eq!(common::choose_nearest(&chain, &[false, false, true]), Some("/".to_string()));
    assert_eq!(common::choose_nearest(&chain, &[false, false, false]), None);
    assert_eq!(common::choose_nearest(&chain, &[false]), None);
    assert_eq!(common::choose_nearest(&chain, &[]), None);
    assert_eq!(common::choose_nearest(&chain, &[false, false, false, true]), None);
    assert_eq!(common::choose_nearest(&[], &[true]), None);
}

#[test]
fn stop_replies() {
    assert_eq!(stop_reply(ProcessKind::Server, Ok(())), Ok("Server stopped".to_string()));
    assert_eq!(stop_reply(ProcessKind::Tunnel, Ok(())), Ok("Tunnel stopped".to_string()));
    assert_eq!(
        stop_reply(ProcessKind::Server, Err("No such process".to_string())),
        Err("Failed to stop server: No such process".to_string())
    );
    assert_eq!(
        stop_reply(ProcessKind::Tunnel, Err(String::new())),
        Err("Failed to stop tunnel: ".to_string())
    );
}

#[test]
fn stop_takes_the_handle_out_before_the_kill() {
    let mut slot: Supervisor<u32> = Supervisor::new();
    assert!(slot.start(|| Ok(9)).is_ok());
    let handle = slot.stop().unwrap();
    assert_eq!(handle, 9);
    // The slot is empty whether the kill then succeeds or fails.
    assert!(!slot.is_running());
    assert_eq!(
        stop_reply(ProcessKind::Server, Err("busy".to_string())),
        Err("Failed to stop server: busy".to_string())
    );
    assert!(!slot.is_running());
}

#[test]
fn data_locations() {
    assert_eq!(data_directory("/app/resources/server/index.js"), "/app/resources/data");
    assert_eq!(data_directory("server/index.js"), "data");
    assert_eq!(data_directory("index.js"), "resources/data");
    assert_eq!(data_directory("/"), "resources/data");
    assert_eq!(data_directory(""), "resources/data");
    assert_eq!(database_path("/app/resources/data"), "/app/resources/data/deck-ide.db");
    assert_eq!(dev_server_directory("/project"), "/project/apps/server");
    assert_eq!(dev_data_directory("/project/apps/server"), "/project/apps/server/data");
    assert_eq!(settings_path("/home/me"), "/home/me/.side-ide/remote-access.json");
}

#[test]
fn server_script_is_found_whenever_the_executable_has_a_directory() {
    for exe in ["/surely-not-there-4711/app", "/x", "relative/app", "app"] {
        assert!(get_server_path(Ok(exe.to_string())).is_ok(), "{}", exe);
    }
    assert_eq!(get_server_path(Ok("app".to_string())), Ok("resources/server/index.js".to_string()));
    assert_eq!(get_server_path(Ok(String::new())), Err(NO_EXE_DIRECTORY.to_string()));
}
