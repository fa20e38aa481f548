use snapctx::detector::{DetectorError, ProjectDetector, ProjectType};
use snapctx::entry::{EntryKind, FsEntry};
use snapctx::project::Project;
use tempfile::TempDir;

fn file(path: &str) -> FsEntry {
    FsEntry { path: path.to_string(), kind: EntryKind::File }
}

fn dir(path: &str) -> FsEntry {
    FsEntry { path: path.to_string(), kind: EntryKind::Directory }
}

#[test]
fn test_detector_new() {
    let detector = ProjectDetector::new();
    assert!(!detector.markers.is_empty());
}

#[test]
fn test_detect_unknown_project() {
    let temp_dir = TempDir::new().unwrap();
    let root = temp_dir.path().canonicalize().unwrap();
    let project = Project::new(root.to_str().unwrap()).unwrap();
    let detector = ProjectDetector::new();

    assert!(matches!(detector.detect(&project, &Vec::new()).unwrap(), ProjectType::Unknown));
}

#[test]
fn default_rules_in_order() {
    let detector = ProjectDetector::new();
    assert_eq!(
        detector.markers,
        vec![
            (ProjectType::Rust, "Cargo.toml"),
            (ProjectType::JavaScript, "package.json"),
            (ProjectType::Python, "requirements.txt"),
            (ProjectType::Python, "setup.py"),
        ]
    );
}

#[test]
fn each_marker_gives_its_type() {
    let project = Project::new("/work/app").unwrap();
    let detector = ProjectDetector::new();
    let cases = [
        ("Cargo.toml", ProjectType::Rust),
        ("package.json", ProjectType::JavaScript),
        ("requirements.txt", ProjectType::Python),
        ("setup.py", ProjectType::Python),
    ];
    for (marker, expected) in cases {
        let listing = vec![dir("/work/app/src"), file(&format!("/work/app/{}", marker))];
        assert_eq!(detector.detect(&project, &listing), Ok(expected));
    }
}

#[test]
fn earlier_rule_wins() {
    let project = Project::new("/work/app").unwrap();
    let detector = ProjectDetector::new();
    let listing = vec![file("/work/app/package.json"), file("/work/app/Cargo.toml")];
    assert_eq!(detector.detect(&project, &listing), Ok(ProjectType::Rust));

    let listing = vec![file("/work/app/setup.py"), file("/work/app/package.json")];
    assert_eq!(detector.detect(&project, &listing), Ok(ProjectType::JavaScript));
}

#[test]
fn markers_count_only_directly_in_the_root() {
    let project = Project::new("/work/app").unwrap();
    let detector = ProjectDetector::new();
    let listing = vec![
        file("/work/app/sub/Cargo.toml"),
        file("/work/Cargo.toml"),
        file("/work/application/Cargo.toml"),
        file("/other/app/Cargo.toml"),
        file("/work/app/Cargo.toml.bak"),
    ];
    assert_eq!(detector.detect(&project, &listing), Ok(ProjectType::Unknown));
}

#[test]
fn only_a_regular_file_is_a_marker() {
    let project = Project::new("/work/app").unwrap();
    let detector = ProjectDetector::new();

    let listing = vec![dir("/work/app/Cargo.toml"), file("/work/app/package.json")];
    assert_eq!(detector.detect(&project, &listing), Ok(ProjectType::JavaScript));

    let listing = vec![dir("/work/app/Cargo.toml")];
    assert_eq!(detector.detect(&project, &listing), Ok(ProjectType::Unknown));

    for kind in [EntryKind::Directory, EntryKind::Symlink, EntryKind::Other] {
        let listing = vec![
            FsEntry { path: "/work/app/Cargo.toml".to_string(), kind },
            FsEntry { path: "/work/app/package.json".to_string(), kind },
            FsEntry { path: "/work/app/requirements.txt".to_string(), kind },
            file("/work/app/setup.py"),
        ];
        assert_eq!(detector.detect(&project, &listing), Ok(ProjectType::Python));
        let listing = vec![FsEntry { path: "/work/app/setup.py".to_string(), kind }];
        assert_eq!(detector.detect(&project, &listing), Ok(ProjectType::Unknown));
    }
}

#[test]
fn a_marker_is_found_however_its_path_is_written() {
    let project = Project::new("/work/app").unwrap();
    let detector = ProjectDetector::new();
    let listing = vec![file("/work/app//setup.py")];
    assert_eq!(detector.detect(&project, &listing), Ok(ProjectType::Python));
    let listing = vec![file("/work//app/package.json"), dir("/work/app/src")];
    assert_eq!(detector.detect(&project, &listing), Ok(ProjectType::JavaScript));
}

#[test]
fn entries_that_are_no_files_change_nothing() {
    let project = Project::new("/work/app").unwrap();
    let detector = ProjectDetector::new();
    let files = vec![file("/work/app/requirements.txt"), file("/work/app/README.md")];
    let mut mixed = vec![
        dir("/work/app/Cargo.toml"),
        FsEntry { path: "/work/app/package.json".to_string(), kind: EntryKind::Other },
        dir("/work/app/src"),
    ];
    mixed.extend(files.iter().rev().cloned());
    assert_eq!(detector.detect(&project, &files), Ok(ProjectType::Python));
    assert_eq!(detector.detect(&project, &mixed), detector.detect(&project, &files));
}

#[test]
fn custom_rules_are_followed_in_their_order() {
    let project = Project::new("/p").unwrap();
    let detector = ProjectDetector {
        markers: vec![(ProjectType::Python, "pyproject.toml"), (ProjectType::Rust, "Cargo.toml")],
    };
    let listing = vec![file("/p/Cargo.toml"), file("/p/pyproject.toml")];
    assert_eq!(detector.detect(&project, &listing), Ok(ProjectType::Python));
    let none = ProjectDetector { markers: Vec::new() };
    assert_eq!(none.detect(&project, &listing), Ok(ProjectType::Unknown));
}

#[test]
fn labels_and_messages() {
    assert_eq!(ProjectType::Rust.label(), "Rust");
    assert_eq!(ProjectType::JavaScript.label(), "JavaScript");
    assert_eq!(ProjectType::Python.label(), "Python");
    assert_eq!(ProjectType::Unknown.label(), "Unknown");
    assert_eq!(DetectorError::UnknownProjectType.message(), "Unable to determine project type");
}
