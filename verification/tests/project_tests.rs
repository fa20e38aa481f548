use snapctx::error::SnapshotError;
use snapctx::project::Project;
use tempfile::TempDir;

#[test]
fn test_project_creation() {
    let temp_dir = TempDir::new().unwrap();
    let root = temp_dir.path().canonicalize().unwrap();
    let project = Project::new(root.to_str().unwrap()).unwrap();

    assert_eq!(project.name, root.file_name().unwrap().to_string_lossy());
    assert_eq!(project.path, root.to_string_lossy());
}

#[test]
fn the_name_is_the_last_component() {
    let project = Project::new("/home/me/projects/myapp").unwrap();
    assert_eq!(project.path, "/home/me/projects/myapp");
    assert_eq!(project.name, "myapp");
    assert_eq!(Project::new("/srv/app/").unwrap().name, "app");
}

#[test]
fn the_root_of_the_file_system_has_the_fallback_name() {
    let project = Project::new("/").unwrap();
    assert_eq!(project.path, "/");
    assert_eq!(project.name, "unknown");
}

#[test]
fn a_path_that_is_not_absolute_was_not_resolved() {
    assert_eq!(Project::new("relative/path").err(), Some(SnapshotError::PathResolution));
    assert_eq!(Project::new(".").err(), Some(SnapshotError::PathResolution));
    assert_eq!(Project::new("").err(), Some(SnapshotError::PathResolution));
}

#[test]
fn failures_have_messages() {
    assert_eq!(SnapshotError::PathResolution.message(), "project path could not be resolved");
    assert_eq!(SnapshotError::Traversal.message(), "project root could not be read");
    assert_eq!(SnapshotError::TimeOutOfRange.message(), "time of generation is out of range");
}

#[test]
fn a_project_without_a_readable_name() {
    let project = Project::unnamed("/srv/d\u{fffd}ta").unwrap();
    assert_eq!(project.path, "/srv/d\u{fffd}ta");
    assert_eq!(project.name, "unknown");
    assert_eq!(Project::unnamed("srv").err(), Some(SnapshotError::PathResolution));
}
