use itol_engine::artifact::{
    log_dir_path, run_dir_path, input_artifact_path, save_artifact_path, output_log_path,
    ArtifactStore,
};
use itol_engine::script::{classify_direct_run, dispatch_script, RawRunOutcome, ScriptKind};
use itol_engine::project::{
    access_type_from_str, detect_project_type, env_mentions_oracle, get_download_info,
    is_path_allowed, oracle_install_status, project_type_from_str, project_type_key,
    ProjectAccessType, ProjectType,
};
use itol_engine::graph::{artifact_project_name, Book, Page};

#[test]
fn artifact_paths_are_keyed_by_names_and_run() {
    let dir = log_dir_path("/local", "root", "Page One");
    assert_eq!(dir, "/local/TTOL/log/root/Page One");
    assert_eq!(run_dir_path(&dir, "run1"), "/local/TTOL/log/root/Page One/run1");
    assert_eq!(
        input_artifact_path(&dir, "run1", "addNode"),
        "/local/TTOL/log/root/Page One/run1/addNode.json"
    );
    assert_eq!(
        save_artifact_path(&dir, "run1", "addNode"),
        "/local/TTOL/log/root/Page One/run1/addNode_save.json"
    );
    assert_eq!(
        output_log_path("/local/TTOL/log/root/Page One/run1"),
        "/local/TTOL/log/root/Page One/run1/output.txt"
    );
}

#[test]
fn artifact_round_trip_returns_the_payload_byte_for_byte() {
    let mut store = ArtifactStore::new();
    let payload = "{\"a\":1,\"b\":2}".to_string();
    let path = store.record_request("/local/TTOL/log/root/page", "addNode", payload.clone(), "run1");
    assert_eq!(path, "/local/TTOL/log/root/page/run1/addNode.json");
    assert_eq!(store.fetch(&path), Some(&payload));
}

#[test]
fn artifact_store_keeps_runs_apart_and_overwrites_same_run() {
    let mut store = ArtifactStore::new();
    let p1 = store.record_request("/d", "n", "first".to_string(), "run1");
    let p2 = store.record_request("/d", "n", "second".to_string(), "run2");
    assert_ne!(p1, p2);
    assert_eq!(store.fetch(&p1), Some(&"first".to_string()));
    assert_eq!(store.fetch(&p2), Some(&"second".to_string()));

    // The same (node, run) pair names the same file: a rerun overwrites it.
    let p1b = store.record_request("/d", "n", "third".to_string(), "run1");
    assert_eq!(p1, p1b);
    assert_eq!(store.fetch(&p1), Some(&"third".to_string()));
    assert_eq!(store.fetch("/d/run3/n.json"), None);
}

#[test]
fn scenario_script_run_writes_artifact_then_returns_stdout() {
    // One script-node run: the payload lands under the run id before the
    // interpreter starts, and its standard output is the result.
    let mut store = ArtifactStore::new();
    let dir = log_dir_path("/local", "root", "page1");
    assert_eq!(dispatch_script("add.js").unwrap(), ScriptKind::JavaScript);
    let json_path = store.record_request(&dir, "addNode", "{\"a\":1,\"b\":2}".to_string(), "run1");
    assert_eq!(json_path, "/local/TTOL/log/root/page1/run1/addNode.json");
    assert_eq!(store.fetch(&json_path).unwrap().as_str(), "{\"a\":1,\"b\":2}");

    let result = classify_direct_run(Ok(RawRunOutcome {
        success: true,
        stdout: Ok("{\"sum\":3}\n".to_string()),
        stderr: Ok(String::new()),
    }));
    assert_eq!(result.unwrap(), "{\"sum\":3}\n");
}

#[test]
fn decimal_renderings_are_exact() {
    assert_eq!(itol_engine::text::u64_to_decimal(0), "0");
    assert_eq!(itol_engine::text::u64_to_decimal(1000), "1000");
    assert_eq!(itol_engine::text::u64_to_decimal(u64::MAX), "18446744073709551615");
    assert_eq!(itol_engine::json::i64_to_decimal(-5), "-5");
    assert_eq!(itol_engine::json::i64_to_decimal(i64::MIN), "-9223372036854775808");
    assert_eq!(itol_engine::json::i64_to_decimal(i64::MAX), "9223372036854775807");
}

#[test]
fn json_quoting_escapes_like_the_envelopes_need() {
    assert_eq!(itol_engine::json::json_quote("plain"), "\"plain\"");
    assert_eq!(itol_engine::json::json_quote("a\"b\\c"), "\"a\\\"b\\\\c\"");
    assert_eq!(itol_engine::json::json_quote("n\nr\rt\t"), "\"n\\nr\\rt\\t\"");
    assert_eq!(itol_engine::json::json_quote("\u{8}\u{c}"), "\"\\b\\f\"");
    assert_eq!(itol_engine::json::json_quote("\u{1}\u{1f}"), "\"\\u0001\\u001f\"");
}

#[test]
fn project_types_and_access_types_map_to_wire_names() {
    assert_eq!(access_type_from_str("read"), Some(ProjectAccessType::Read));
    assert_eq!(access_type_from_str("write"), Some(ProjectAccessType::Write));
    assert_eq!(access_type_from_str("readwrite"), Some(ProjectAccessType::ReadWrite));
    assert_eq!(access_type_from_str("admin"), None);

    assert!(matches!(project_type_from_str("react"), ProjectType::React));
    assert!(matches!(project_type_from_str("rust"), ProjectType::Rust));
    match project_type_from_str("zig") {
        ProjectType::Other(name) => assert_eq!(name, "zig"),
        _ => panic!("unknown names stand for themselves"),
    }
    assert_eq!(project_type_key(&ProjectType::TypeScript), "typescript");
    assert_eq!(project_type_key(&ProjectType::Other("zig".to_string())), "zig");
}

#[test]
fn project_detection_follows_the_manifest_probes() {
    assert!(matches!(
        detect_project_type(true, Some("{\"dependencies\":{\"react\":\"18\"}}".to_string()), false, false),
        ProjectType::React
    ));
    assert!(matches!(
        detect_project_type(true, Some("{\"dependencies\":{\"vue\":\"3\"}}".to_string()), false, false),
        ProjectType::Vue
    ));
    assert!(matches!(
        detect_project_type(true, Some("{\"dependencies\":{\"@angular\":1}}".to_string()), false, false),
        ProjectType::Angular
    ));
    assert!(matches!(
        detect_project_type(true, Some("{\"devDependencies\":{\"typescript\":\"5\"}}".to_string()), false, false),
        ProjectType::TypeScript
    ));
    assert!(matches!(
        detect_project_type(true, Some("{}".to_string()), false, false),
        ProjectType::NodeJs
    ));
    // An unreadable manifest still means a Node.js project.
    assert!(matches!(detect_project_type(true, None, false, false), ProjectType::NodeJs));
    assert!(matches!(detect_project_type(false, None, true, false), ProjectType::Rust));
    assert!(matches!(detect_project_type(false, None, false, true), ProjectType::Python));
    match detect_project_type(false, None, false, false) {
        ProjectType::Other(name) => assert_eq!(name, "Unknown"),
        _ => panic!("expected the unknown type"),
    }
}

#[test]
fn allowed_paths_match_exactly_or_on_component_boundaries() {
    let allowed = vec!["/home/u/proj".to_string(), "C:\\work\\".to_string()];
    assert!(is_path_allowed(&allowed, "/home/u/proj"));
    assert!(is_path_allowed(&allowed, "/home/u/proj/src/a.ts"));
    assert!(!is_path_allowed(&allowed, "/home/u/project"));
    assert!(is_path_allowed(&allowed, "C:\\work\\thing"));
    assert!(!is_path_allowed(&allowed, "/elsewhere"));
    assert!(!is_path_allowed(&Vec::new(), "/home/u/proj"));
}

#[test]
fn oracle_status_and_download_info() {
    let local = oracle_install_status("/data/ITOL/oracle_instant_client", true, Some("21.13.0.0".to_string()), false);
    assert!(local.installed);
    assert_eq!(local.version.as_deref(), Some("21.13.0.0"));
    assert_eq!(local.path.as_deref(), Some("/data/ITOL/oracle_instant_client"));

    let system = oracle_install_status("/data", false, None, true);
    assert!(system.installed);
    assert!(system.version.is_none() && system.path.is_none());

    let none = oracle_install_status("/data", false, None, false);
    assert!(!none.installed);

    assert!(env_mentions_oracle("/opt/InstantClient_21_13/lib"));
    assert!(env_mentions_oracle("/usr/lib/ORACLE"));
    assert!(!env_mentions_oracle("/usr/lib"));

    let (url, file) = get_download_info("linux").unwrap();
    assert!(url.starts_with("https://download.oracle.com/otn_software/linux/"));
    assert_eq!(file, "instantclient-basic-linux.zip");
    assert!(get_download_info("windows").is_ok());
    assert!(get_download_info("macos").is_ok());
    assert_eq!(get_download_info("freebsd").unwrap_err(), "Unsupported operating system");
}

#[test]
fn graph_entities_name_the_artifact_tree() {
    let book = Book {
        id: 7,
        title: "My Project".to_string(),
        parent_id: None,
        flow_data: None,
    };
    assert_eq!(artifact_project_name(Some(&book)), "My Project");
    assert_eq!(artifact_project_name(None), "root");

    let page = Page {
        id: 3,
        fk_book_id: 7,
        title: "Page One".to_string(),
        flow_data: Some("{}".to_string()),
        display_order: 0,
    };
    let dir = log_dir_path("/local", &artifact_project_name(Some(&book)), &page.title);
    assert_eq!(dir, "/local/TTOL/log/My Project/Page One");
}

#[test]
fn file_stats_report_the_probe() {
    let stats = itol_engine::folder::FileStats {
        is_file: true,
        is_directory: false,
        size: 42,
        modified: Some(1_700_000_000),
    };
    assert!(stats.is_file && !stats.is_directory);
    assert_eq!(stats.size, 42);
    assert_eq!(stats.modified, Some(1_700_000_000));
}
