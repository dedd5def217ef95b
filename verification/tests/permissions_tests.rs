use codeql_extractor::permissions::{permission_plan, ToolsEntry, NORMALIZED_MODE};

fn entry(name: &str, is_file: bool) -> ToolsEntry {
    ToolsEntry { name: name.to_string(), is_file }
}

#[test]
fn test_normalized_mode_bits() {
    // Read and execute for owner, group and others; write for nobody.
    assert_eq!(NORMALIZED_MODE, 0o555);
    assert_eq!(NORMALIZED_MODE & 0o444, 0o444);
    assert_eq!(NORMALIZED_MODE & 0o111, 0o111);
    assert_eq!(NORMALIZED_MODE & 0o222, 0);
}

#[test]
fn test_permission_plan_extractors_and_scripts() {
    let entries = vec![
        entry("setup.sh", true),
        entry("readme.md", true),
        entry("scripts.sh", false),
        entry("run.sh", true),
    ];
    let plan = permission_plan(true, true, false, &entries);
    assert_eq!(
        plan,
        vec![
            "linux64/extractor".to_string(),
            "setup.sh".to_string(),
            "run.sh".to_string(),
        ]
    );
}

#[test]
fn test_permission_plan_both_platforms() {
    let plan = permission_plan(true, true, true, &Vec::new());
    assert_eq!(
        plan,
        vec!["linux64/extractor".to_string(), "osx64/extractor".to_string()]
    );
}

#[test]
fn test_permission_plan_without_tools_dir() {
    let entries = vec![entry("setup.sh", true)];
    let plan = permission_plan(false, true, true, &entries);
    assert!(plan.is_empty());
}
