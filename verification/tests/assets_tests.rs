use mermaid_render::assets::{
    interpreter_file_name, needs_exec_bit, plan_extraction, renderer_binary_path,
    renderer_binary_suffix, AssetEntry,
};

fn entry(rel_path: &str, data: &[u8]) -> AssetEntry {
    AssetEntry { rel_path: rel_path.to_string(), data: data.to_vec() }
}

#[test]
fn bundle_names() {
    assert_eq!(interpreter_file_name(), "node");
    assert_eq!(renderer_binary_suffix(), "mmdc");
    assert_eq!(renderer_binary_path(), "node_modules/.bin/mmdc");
}

#[test]
fn exec_bit_only_for_the_two_binaries() {
    assert!(needs_exec_bit("node"));
    assert!(needs_exec_bit("node_modules/.bin/mmdc"));
    assert!(needs_exec_bit("mmdc"));
    assert!(!needs_exec_bit("node_modules/.bin/mmdc.cmd"));
    assert!(!needs_exec_bit("node_modules/readme.md"));
    assert!(!needs_exec_bit("package/node"));
}

#[test]
fn plan_covers_every_entry_in_order() {
    let entries = vec![
        entry("node", b"\x7fELF"),
        entry("node_modules/.bin/mmdc", b"#!/usr/bin/env node"),
        entry("node_modules/lib/index.js", b"module.exports = {};"),
    ];
    let plan = plan_extraction(&entries, "/tmp/sandbox");
    assert_eq!(plan.len(), 3);
    for (i, step) in plan.iter().enumerate() {
        assert_eq!(step.entry_index, i);
    }
    assert_eq!(plan[0].dest_path, "/tmp/sandbox/node");
    assert!(plan[0].make_executable);
    assert_eq!(plan[1].dest_path, "/tmp/sandbox/node_modules/.bin/mmdc");
    assert!(plan[1].make_executable);
    assert_eq!(plan[2].dest_path, "/tmp/sandbox/node_modules/lib/index.js");
    assert!(!plan[2].make_executable);
}

#[test]
fn plan_of_empty_bundle_is_empty() {
    let entries: Vec<AssetEntry> = Vec::new();
    let plan = plan_extraction(&entries, "/tmp/sandbox");
    assert_eq!(plan.len(), 0);
}
