use life_os::check::{check_tree, tree_paths};
use life_os::commands::doctor::{count_nodes, exit_code, probe_paths, run};
use life_os::spec::{Area, Node, SpecFile};
use life_os::spec_loader::{expand_root, spec_path};

fn leaf(path: &str) -> Node {
    Node { path: path.to_string(), children: vec![] }
}

fn branch(path: &str, children: Vec<Node>) -> Node {
    Node { path: path.to_string(), children }
}

fn documents() -> SpecFile {
    SpecFile {
        version: 1,
        areas: vec![Area {
            name: "Documents".to_string(),
            root: "~/Documents".to_string(),
            required: vec![leaf("archive"), leaf("screenshots")],
        }],
    }
}

#[test]
fn expand_root_expands_tilde_prefix() {
    let out = expand_root("~/System/life-os", "/Users/tester");
    assert_eq!(out, "/Users/tester/System/life-os");
}

#[test]
fn expand_root_leaves_non_tilde_path_unchanged() {
    let out = expand_root("/var/data", "/Users/tester");
    assert_eq!(out, "/var/data");
}

#[test]
fn expand_root_needs_the_slash_after_the_tilde() {
    assert_eq!(expand_root("~", "/Users/tester"), "~");
    assert_eq!(expand_root("~docs", "/Users/tester"), "~docs");
    assert_eq!(expand_root("~/", "/Users/tester"), "/Users/tester/");
    assert_eq!(expand_root("", "/Users/tester"), "");
    assert_eq!(expand_root("~//abs", "/Users/tester"), "/abs");
}

#[test]
fn check_tree_collects_missing_paths() {
    let base = "/tmp/base";
    let nodes = vec![branch("exists", vec![leaf("child-missing")]), leaf("missing")];
    let existing = vec!["/tmp/base/exists".to_string()];
    let mut missing = Vec::new();
    check_tree(base, &nodes, &existing, &mut missing);
    missing.sort();
    let expected =
        vec!["/tmp/base/exists/child-missing".to_string(), "/tmp/base/missing".to_string()];
    assert_eq!(missing, expected);
}

#[test]
fn check_tree_appends_in_the_order_of_the_tree() {
    let nodes = vec![branch("a", vec![leaf("b"), branch("c", vec![leaf("d")])]), leaf("e")];
    let existing = vec!["/r/a/c".to_string()];
    let mut missing = vec!["kept".to_string()];
    check_tree("/r", &nodes, &existing, &mut missing);
    assert_eq!(missing, vec!["kept", "/r/a", "/r/a/b", "/r/a/c/d", "/r/e"]);
}

#[test]
fn tree_paths_lists_each_node_before_its_children() {
    let nodes = vec![branch("a", vec![leaf("b"), branch("c", vec![leaf("d")])])];
    assert_eq!(tree_paths("/base", &nodes), vec!["/base/a", "/base/a/b", "/base/a/c", "/base/a/c/d"]);
    assert!(tree_paths("/base", &Vec::new()).is_empty());
    assert_eq!(count_nodes(&nodes), 4);
    assert_eq!(count_nodes(&Vec::new()), 0);
}

#[test]
fn doctor_returns_ok_when_spec_is_satisfied() {
    let layout = SpecFile {
        version: 1,
        areas: vec![
            Area {
                name: "System".to_string(),
                root: "~/System".to_string(),
                required: vec![
                    leaf("apps"),
                    leaf("backups"),
                    branch("life-os", vec![leaf("repo"), leaf("bin"), leaf("config")]),
                ],
            },
            Area {
                name: "Documents".to_string(),
                root: "~/Documents".to_string(),
                required: vec![leaf("archive"), branch("school", vec![leaf("admin")])],
            },
        ],
    };
    let home = "/home/tester";
    let existing = probe_paths(&layout, home);
    assert_eq!(existing.len(), 11);
    assert_eq!(existing[0], "/home/tester/System");
    assert_eq!(existing[3], "/home/tester/System/life-os");
    assert_eq!(existing[4], "/home/tester/System/life-os/repo");
    let report = run(false, &layout, home, &existing);
    assert!(report.missing.is_empty());
    assert_eq!(report.areas, 2);
    assert_eq!(report.required, 9);
    assert_eq!(report.roots, vec!["/home/tester/System", "/home/tester/Documents"]);
    assert_eq!(exit_code(&report), 0);
}

#[test]
fn doctor_returns_failure_when_missing_folders() {
    let home = "/home/tester";
    let existing =
        vec!["/home/tester/Documents".to_string(), "/home/tester/Documents/archive".to_string()];
    let report = run(false, &documents(), home, &existing);
    assert_eq!(report.missing.len(), 1);
    assert_eq!(report.missing, vec!["/home/tester/Documents/screenshots"]);
    assert_eq!(exit_code(&report), 1);
}

#[test]
fn doctor_reports_a_missing_root_alone() {
    let report = run(true, &documents(), "/home/tester", &Vec::new());
    assert_eq!(report.missing, vec!["/home/tester/Documents"]);
    assert_eq!(report.required, 2);
    assert_eq!(report.areas, 1);
    assert_eq!(exit_code(&report), 1);
}

#[test]
fn ensure_dir_is_idempotent() {
    let mut created = Vec::new();
    let create = life_os::commands::init::ensure_dir("/tmp/base/exists", true, &mut created);
    assert!(!create);
    assert!(created.is_empty());
}

#[test]
fn ensure_dir_records_what_is_to_be_created() {
    let mut created = vec!["/a".to_string()];
    assert!(life_os::commands::init::ensure_dir("/a/b", false, &mut created));
    assert!(!life_os::commands::init::ensure_dir("/a/c", true, &mut created));
    assert!(life_os::commands::init::ensure_dir("/a/d", false, &mut created));
    assert_eq!(created, vec!["/a", "/a/b", "/a/d"]);
    assert_eq!(
        life_os::commands::init::creation_failure_message("/a/b"),
        "failed to create directory: /a/b"
    );
    assert_eq!(
        life_os::commands::init::root_failure_message("Documents"),
        "failed ensuring root for area Documents"
    );
}

#[test]
fn ensure_tree_creates_nested_directories() {
    let nodes = vec![branch("a", vec![leaf("b"), branch("c", vec![leaf("d")])])];
    let mut created = Vec::new();
    for path in tree_paths("/tmp/base", &nodes) {
        assert!(life_os::commands::init::ensure_dir(&path, false, &mut created));
    }
    assert!(created.contains(&"/tmp/base/a".to_string()));
    assert!(created.contains(&"/tmp/base/a/b".to_string()));
    assert!(created.contains(&"/tmp/base/a/c".to_string()));
    assert!(created.contains(&"/tmp/base/a/c/d".to_string()));
}

#[test]
fn the_layout_is_declared_below_home() {
    assert_eq!(spec_path("/Users/tester"), "/Users/tester/System/life-os/config/spec.json");
    assert_eq!(spec_path("/"), "/System/life-os/config/spec.json");
}
