use burnin::project::{discover, eligible, has_manifest_marker, Entry, Project};

fn entry(path: &str, is_dir: bool, files: &[&str]) -> Entry {
    Entry {
        path: path.to_string(),
        is_dir,
        files: files.iter().map(|f| f.to_string()).collect(),
    }
}

#[test]
fn marker_detected() {
    assert!(has_manifest_marker(&vec![
        "src".to_string(),
        "Cargo.toml".to_string()
    ]));
    assert!(!has_manifest_marker(&vec![
        "cargo.toml".to_string(),
        "Cargo.lock".to_string()
    ]));
    assert!(!has_manifest_marker(&vec![]));
}

#[test]
fn eligibility_needs_directory_and_marker() {
    assert!(eligible(&entry("/w/a", true, &["Cargo.toml"])));
    assert!(!eligible(&entry("/w/b", true, &["README.md"])));
    assert!(!eligible(&entry("/w/c", false, &["Cargo.toml"])));
}

#[test]
fn discover_keeps_marked_directories_only() {
    let entries = vec![
        entry("/work/a", true, &["Cargo.toml", "src"]),
        entry("/work/b", true, &["README.md"]),
        entry("/work/c", true, &["Cargo.toml"]),
        entry("/work/notes.txt", false, &["Cargo.toml"]),
    ];
    let projects = discover(&entries);
    assert_eq!(projects.len(), 2);
    assert_eq!(projects[0].name, "a");
    assert_eq!(projects[0].path, "/work/a");
    assert_eq!(projects[1].name, "c");
    assert_eq!(projects[1].path, "/work/c");
}

#[test]
fn discover_empty_root_yields_empty_list() {
    assert!(discover(&vec![]).is_empty());
    let entries = vec![entry("/work/b", true, &["README.md"])];
    assert!(discover(&entries).is_empty());
}

#[test]
fn project_name_is_last_segment() {
    let p = Project::new("/work/deep/proj".to_string());
    assert_eq!(p.name, "proj");
    assert_eq!(p.path, "/work/deep/proj");
    let p = Project::new("plain".to_string());
    assert_eq!(p.name, "plain");
}
