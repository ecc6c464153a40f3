use itol_engine::folder::{
    generate_basic_typescript_template, list_all_items_in_path, list_dirs, list_dirs_in_path,
    list_files_in_path, list_items_single_level, list_js_files, plan_rename_file, CreateFileResult,
    FsTree,
};

#[test]
fn test_generate_basic_typescript_template() {
    let template = generate_basic_typescript_template("test.ts");

    assert!(template.contains("import fs from 'fs'"));
    assert!(template.contains("interface InputData"));
    assert!(template.contains("interface OutputData"));
    assert!(template.contains("async function main()"));
}

#[test]
fn test_create_file_result_structure() {
    let result = CreateFileResult {
        file_path: "C:\\test\\file.ts".to_string(),
        file_name: "file".to_string(),
        file_extension: "ts".to_string(),
        template_applied: true,
    };

    assert_eq!(result.file_name, "file");
    assert_eq!(result.file_extension, "ts");
    assert!(result.template_applied);
}

#[test]
fn template_greets_with_trimmed_name() {
    let template = generate_basic_typescript_template("addNode.ts");
    assert!(template.contains(" * addNode - Auto-generated by ITOL"));
    assert!(template.contains("console.error('Usage: node addNode <input.json> <output.json>');"));

    let js = generate_basic_typescript_template("calc.js");
    assert!(js.contains(" * calc - Auto-generated by ITOL"));
}

#[test]
fn create_file_plan_rejects_existing_target() {
    let err = itol_engine::folder::plan_create_file("a.ts", "/tmp/dir", true).unwrap_err();
    assert_eq!(err, "File /tmp/dir/a.ts already exists");

    let ok = itol_engine::folder::plan_create_file("a.ts", "/tmp/dir", false).unwrap();
    assert_eq!(ok, "/tmp/dir/a.ts");
}

#[test]
fn create_file_with_template_fills_report() {
    let plan = itol_engine::folder::plan_create_file_with_template("node1.ts", "/work", false)
        .unwrap();
    assert_eq!(plan.result.file_path, "/work/node1.ts");
    assert_eq!(plan.result.file_name, "node1");
    assert_eq!(plan.result.file_extension, "ts");
    assert!(plan.result.template_applied);
    assert!(plan.content.contains("async function main()"));

    let other = itol_engine::folder::plan_create_file_with_template("notes.txt", "/work", false)
        .unwrap();
    assert_eq!(other.result.file_extension, "txt");
    assert!(!other.result.template_applied);
    assert_eq!(other.content, "");
}

#[test]
fn config_content_is_pretty_printed() {
    let content = itol_engine::folder::config_content("", "");
    assert_eq!(content, "{\n  \"js_path\": \"\",\n  \"py_path\": \"\"\n}");

    let set = itol_engine::folder::config_content("C:\\js", "C:\\js");
    assert_eq!(set, "{\n  \"js_path\": \"C:\\\\js\",\n  \"py_path\": \"C:\\\\js\"\n}");

    assert_eq!(itol_engine::folder::get_path_config_file_name(), "pathConfig.json");
}

#[test]
fn walks_filter_scripts_and_skip_excluded_dirs() {
    let entries = vec![
        FsTree::File { path: "/r/a.js".to_string(), name: "a.js".to_string() },
        FsTree::File { path: "/r/readme.md".to_string(), name: "readme.md".to_string() },
        FsTree::Dir {
            path: "/r/node_modules".to_string(),
            name: "node_modules".to_string(),
            entries: vec![FsTree::File {
                path: "/r/node_modules/x.js".to_string(),
                name: "x.js".to_string(),
            }],
        },
        FsTree::Dir {
            path: "/r/sub".to_string(),
            name: "sub".to_string(),
            entries: vec![
                FsTree::File { path: "/r/sub/b.ts".to_string(), name: "b.ts".to_string() },
                FsTree::Dir {
                    path: "/r/sub/deep".to_string(),
                    name: "deep".to_string(),
                    entries: vec![],
                },
            ],
        },
    ];

    let files = list_files_in_path(&entries);
    assert_eq!(files, vec!["/r/a.js".to_string(), "/r/sub/b.ts".to_string()]);
    assert_eq!(list_js_files(&entries), files);

    let dirs = list_dirs_in_path(&entries);
    assert_eq!(dirs, vec!["/r/sub".to_string(), "/r/sub/deep".to_string()]);
    assert_eq!(list_dirs(&entries), dirs);

    let all = list_all_items_in_path(&entries);
    assert_eq!(
        all,
        vec![
            "/r/a.js".to_string(),
            "/r/readme.md".to_string(),
            "/r/sub".to_string(),
            "/r/sub/b.ts".to_string(),
            "/r/sub/deep".to_string(),
        ]
    );

    let level = list_items_single_level(&entries);
    assert_eq!(
        level,
        vec!["/r/a.js".to_string(), "/r/readme.md".to_string(), "/r/sub".to_string()]
    );
}

#[test]
fn rename_keeps_directory_and_extension() {
    assert_eq!(plan_rename_file("/dir/old.ts", "new").unwrap(), "/dir/new.ts");
    assert_eq!(plan_rename_file("old.ts", "new").unwrap(), "new.ts");
    // A file without an extension gets a bare trailing dot, as the rename
    // always appends one.
    assert_eq!(plan_rename_file("/dir/Makefile", "renamed").unwrap(), "/dir/renamed.");
    assert_eq!(
        plan_rename_file("", "new").unwrap_err(),
        "Could not determine parent directory"
    );
}
