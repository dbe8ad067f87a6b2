use world_monitor::supervisor::{
    binary_search_order, choose_resource_root, first_existing, node_binary_file, open_path_in_shell, LocalApiState,
    Platform, ResourceRoot, SupervisorError,
};

#[test]
fn start_decisions() {
    let s = LocalApiState::new();
    assert_eq!(s.check_start(false, true), Err(SupervisorError::WorkerScriptMissing));
    assert_eq!(s.check_start(true, false), Err(SupervisorError::WorkerBinaryMissing));
    assert_eq!(s.check_start(true, true), Ok(true));
}

#[test]
fn token_absent_before_first_launch() {
    let s = LocalApiState::new();
    assert_eq!(s.get_local_api_token(), Err(SupervisorError::TokenNotGenerated));
}

#[test]
fn launch_plan_holds_sanitized_paths_token_and_secrets() {
    let mut s = LocalApiState::new();
    let secrets = vec![("GROQ_API_KEY".to_string(), "g".to_string())];
    let plan = s.prepare_launch(
        "tok".to_string(),
        "/usr/bin/node".to_string(),
        r"\\?\C:\app\sidecar\local-api-server.mjs",
        r"\\?\UNC\srv\share\res",
        &secrets,
    );
    assert_eq!(plan.program, "/usr/bin/node");
    assert_eq!(plan.script, r"C:\app\sidecar\local-api-server.mjs");
    let env: Vec<(&str, &str)> = plan.env.iter().map(|(k, v)| (k.as_str(), v.as_str())).collect();
    assert_eq!(
        env,
        vec![
            ("LOCAL_API_PORT", "46123"),
            ("LOCAL_API_RESOURCE_DIR", r"\\srv\share\res"),
            ("LOCAL_API_MODE", "tauri-sidecar"),
            ("LOCAL_API_TOKEN", "tok"),
            ("GROQ_API_KEY", "g"),
        ]
    );
    assert_eq!(s.get_local_api_token(), Ok("tok".to_string()));
}

#[test]
fn second_start_keeps_one_worker_and_the_token() {
    let mut s = LocalApiState::new();
    assert_eq!(s.check_start(true, true), Ok(true));
    s.prepare_launch("first".to_string(), "node".to_string(), "s", "r", &Vec::new());
    s.record_started();
    assert!(s.running());
    assert_eq!(s.check_start(true, true), Ok(false));
    assert_eq!(s.check_start(false, false), Ok(false));
    let plan = s.prepare_launch("second".to_string(), "node".to_string(), "s", "r", &Vec::new());
    assert_eq!(plan.env[3].1, "first");
    assert_eq!(s.get_local_api_token(), Ok("first".to_string()));
}

#[test]
fn stop_is_idempotent() {
    let mut s = LocalApiState::new();
    assert!(!s.stop());
    s.record_started();
    assert!(s.stop());
    assert!(!s.running());
    assert!(!s.stop());
}

#[test]
fn binary_search_order_lists_override_bundle_path_then_common() {
    let path = vec!["/home/u/bin/node".to_string()];
    let order = binary_search_order(
        Platform::Linux,
        Some("/custom/node".to_string()),
        Some("/app/sidecar/node/node".to_string()),
        &path,
    );
    assert_eq!(
        order,
        vec![
            "/custom/node",
            "/app/sidecar/node/node",
            "/home/u/bin/node",
            "/opt/homebrew/bin/node",
            "/usr/local/bin/node",
            "/usr/bin/node",
            "/opt/local/bin/node",
        ]
    );
    let win = binary_search_order(Platform::Windows, None, None, &Vec::new());
    assert_eq!(
        win,
        vec![
            r"C:\Program Files\nodejs\node.exe",
            r"C:\Program Files (x86)\nodejs\node.exe",
        ]
    );
    assert_eq!(node_binary_file(Platform::Windows), "node.exe");
    assert_eq!(node_binary_file(Platform::MacOs), "node");
}

#[test]
fn first_existing_candidate_wins() {
    assert_eq!(first_existing(&vec![false, true, true]), Some(1));
    assert_eq!(first_existing(&vec![false, false]), None);
    assert_eq!(first_existing(&Vec::new()), None);
}

#[test]
fn shell_commands_per_platform() {
    let c = open_path_in_shell(Platform::Linux, "/var/log/app");
    assert_eq!((c.program.as_str(), c.arg.as_str()), ("xdg-open", "/var/log/app"));
    assert_eq!(open_path_in_shell(Platform::MacOs, "/x").program, "open");
    assert_eq!(open_path_in_shell(Platform::Windows, r"C:\x").program, "explorer");
}

#[test]
fn resource_root_prefers_the_directory_itself() {
    assert_eq!(choose_resource_root(true, true), ResourceRoot::Direct);
    assert_eq!(choose_resource_root(true, false), ResourceRoot::Direct);
    assert_eq!(choose_resource_root(false, true), ResourceRoot::Lifted);
    assert_eq!(choose_resource_root(false, false), ResourceRoot::Direct);
}

#[test]
fn launch_plan_reports_the_resource_dir() {
    let mut s = LocalApiState::new();
    let plan = s.prepare_launch("t".to_string(), "node".to_string(), "s", r"\\?\D:\res", &Vec::new());
    assert_eq!(plan.resource_dir, r"D:\res");
}
