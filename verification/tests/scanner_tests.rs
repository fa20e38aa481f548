use snapctx::detector::{ProjectDetector, ProjectType};
use snapctx::entry::{EntryKind, FsEntry, WalkEvent};
use snapctx::error::SnapshotError;
use snapctx::project::Project;
use snapctx::rules::IgnoreRuleSet;
use snapctx::scanner::{excludes_name, DirectoryScanner};

fn found(path: &str, kind: EntryKind) -> WalkEvent {
    WalkEvent::Found(FsEntry { path: path.to_string(), kind })
}

fn file(path: &str) -> WalkEvent {
    found(path, EntryKind::File)
}

fn dir(path: &str) -> WalkEvent {
    found(path, EntryKind::Directory)
}

fn unreadable(path: &str) -> WalkEvent {
    WalkEvent::Unreadable(path.to_string())
}

fn names_below(root: &str, files: &[String]) -> Vec<String> {
    let mut names: Vec<String> =
        files.iter().map(|p| p.strip_prefix(root).unwrap().trim_start_matches('/').to_string()).collect();
    names.sort();
    names
}

#[test]
fn test_list_files() {
    let project = Project::new("/tmp/proj").unwrap();
    let events = vec![
        dir("/tmp/proj"),
        file("/tmp/proj/Cargo.toml"),
        dir("/tmp/proj/src"),
        file("/tmp/proj/src/main.rs"),
        file("/tmp/proj/src/lib.rs"),
    ];

    let files = project.list_files(&events).unwrap();
    let file_names: Vec<String> =
        files.iter().map(|p| p.rsplit('/').next().unwrap().to_string()).collect();

    assert!(file_names.contains(&"Cargo.toml".to_string()));
    assert!(file_names.contains(&"main.rs".to_string()));
    assert!(file_names.contains(&"lib.rs".to_string()));
}

#[test]
fn test_project_file_listing() {
    let project = Project::new("/tmp/.tmpAbC123").unwrap();
    let events = vec![
        dir("/tmp/.tmpAbC123"),
        dir("/tmp/.tmpAbC123/src"),
        file("/tmp/.tmpAbC123/src/lib.rs"),
        file("/tmp/.tmpAbC123/src/main.rs"),
        file("/tmp/.tmpAbC123/Cargo.toml"),
    ];

    let files = project.list_files(&events).unwrap();
    assert_eq!(files.len(), 3, "Expected 3 files (Cargo.toml, main.rs, lib.rs), found {}", files.len());
    assert_eq!(
        names_below("/tmp/.tmpAbC123", &files),
        vec!["Cargo.toml".to_string(), "src/lib.rs".to_string(), "src/main.rs".to_string()]
    );
}

#[test]
fn test_gitignore_respected() {
    // The events of a walk that left out the files that `*.log` names and
    // went into every directory: the scan leaves out `build` and
    // `node_modules` by their names.
    let project = Project::new("/tmp/proj").unwrap();
    let events = vec![
        dir("/tmp/proj"),
        dir("/tmp/proj/src"),
        file("/tmp/proj/src/main.rs"),
        file("/tmp/proj/Cargo.toml"),
        dir("/tmp/proj/build"),
        file("/tmp/proj/build/output.txt"),
        dir("/tmp/proj/node_modules"),
        file("/tmp/proj/node_modules/package.json"),
    ];
    let files = project.list_files(&events).unwrap();
    let file_names = names_below("/tmp/proj", &files);

    assert!(file_names.contains(&"src/main.rs".to_string()));
    assert!(file_names.contains(&"Cargo.toml".to_string()));

    assert!(!file_names.contains(&"test.log".to_string()));
    assert!(!file_names.contains(&"build/output.txt".to_string()));
    assert!(!file_names.contains(&"node_modules/package.json".to_string()));
}

#[test]
fn ignored_directories_are_left_out_whatever_the_ignore_file_says() {
    // A walk that has left out what the project's own ignore file names
    // (`*.log`) and reports the rest: the directory names decide.
    let project = Project::new("/tmp/proj").unwrap();
    let events = vec![
        dir("/tmp/proj"),
        dir("/tmp/proj/src"),
        file("/tmp/proj/src/main.rs"),
        dir("/tmp/proj/build"),
        file("/tmp/proj/build/output.txt"),
        dir("/tmp/proj/node_modules"),
        file("/tmp/proj/node_modules/package.json"),
    ];
    let files = project.list_files(&events).unwrap();
    let names = names_below("/tmp/proj", &files);
    assert!(names.contains(&"src/main.rs".to_string()));
    assert!(!names.contains(&"test.log".to_string()));
    assert!(!names.contains(&"build/output.txt".to_string()));
    assert!(!names.contains(&"node_modules/package.json".to_string()));
    assert_eq!(files, vec!["/tmp/proj/src/main.rs".to_string()]);
}

#[test]
fn a_walk_that_reports_everything_is_cut_down_by_names_alone() {
    let project = Project::new("/tmp/proj").unwrap();
    let events = vec![
        dir("/tmp/proj"),
        file("/tmp/proj/.gitignore"),
        dir("/tmp/proj/src"),
        file("/tmp/proj/src/main.rs"),
        file("/tmp/proj/test.log"),
        dir("/tmp/proj/build"),
        file("/tmp/proj/build/output.txt"),
        dir("/tmp/proj/node_modules"),
        file("/tmp/proj/node_modules/package.json"),
    ];
    let files = project.list_files(&events).unwrap();
    assert_eq!(
        files,
        vec!["/tmp/proj/src/main.rs".to_string(), "/tmp/proj/test.log".to_string()]
    );
}

#[test]
fn a_rust_project_is_known_and_listed_in_full() {
    let project = Project::new("/tmp/proj").unwrap();
    let listing = vec![
        FsEntry { path: "/tmp/proj/Cargo.toml".to_string(), kind: EntryKind::File },
        FsEntry { path: "/tmp/proj/src".to_string(), kind: EntryKind::Directory },
    ];
    assert_eq!(ProjectDetector::new().detect(&project, &listing), Ok(ProjectType::Rust));

    let events = vec![
        dir("/tmp/proj"),
        dir("/tmp/proj/src"),
        file("/tmp/proj/src/lib.rs"),
        file("/tmp/proj/Cargo.toml"),
        file("/tmp/proj/src/main.rs"),
    ];
    let files = project.list_files(&events).unwrap();
    assert_eq!(
        names_below("/tmp/proj", &files),
        vec!["Cargo.toml".to_string(), "src/lib.rs".to_string(), "src/main.rs".to_string()]
    );
}

#[test]
fn every_listed_path_is_clean() {
    let root = "/home/me/proj";
    let project = Project::new(root).unwrap();
    let rules = IgnoreRuleSet::default();
    let mut events = Vec::new();
    for top in ["", "src", ".git", "a/target", "a/b", ".x/y", "node_modules", "docs"] {
        for name in ["main.rs", ".env", "mod.pyc", "build", "notes.txt", "dist"] {
            let path = if top.is_empty() {
                format!("{}/{}", root, name)
            } else {
                format!("{}/{}/{}", root, top, name)
            };
            events.push(file(&path));
            events.push(dir(&path));
        }
    }
    events.push(file("/home/me/other/main.rs"));
    events.push(file("/home/me/project/main.rs"));
    let files = project.list_files(&events).unwrap();
    assert_eq!(
        names_below(root, &files),
        vec![
            "a/b/main.rs".to_string(),
            "a/b/notes.txt".to_string(),
            "docs/main.rs".to_string(),
            "docs/notes.txt".to_string(),
            "main.rs".to_string(),
            "notes.txt".to_string(),
            "src/main.rs".to_string(),
            "src/notes.txt".to_string(),
        ]
    );
    for path in &files {
        assert!(path.starts_with("/home/me/proj/"));
        let parts: Vec<&str> = path.split('/').filter(|p| !p.is_empty()).collect();
        assert!(parts.iter().all(|p| !rules.contains(&p.to_string())));
        let name = parts.last().unwrap();
        assert!(!name.starts_with('.'));
        assert!(!name.ends_with(".pyc"));
    }
}

#[test]
fn every_default_name_is_ignored_at_any_depth() {
    let project = Project::new("/p").unwrap();
    for name in [".git", "target", "node_modules", "build", "dist", "venv", "__pycache__"] {
        let events = vec![
            file(&format!("/p/{}/a.txt", name)),
            file(&format!("/p/x/{}/a.txt", name)),
            file(&format!("/p/x/y/{}/z/w/a.txt", name)),
            file(&format!("/p/{}", name)),
            file(&format!("/p/x/{}x/kept.txt", name)),
        ];
        let files = project.list_files(&events).unwrap();
        let expected = if name == ".git" {
            Vec::<String>::new()
        } else {
            vec![format!("/p/x/{}x/kept.txt", name)]
        };
        assert_eq!(files, expected, "{}", name);
    }
}

#[test]
fn an_ignored_name_above_the_root_counts_too() {
    let project = Project::new("/home/me/build/proj").unwrap();
    let events = vec![file("/home/me/build/proj/src/main.rs")];
    assert_eq!(project.list_files(&events).unwrap(), Vec::<String>::new());
}

#[test]
fn hidden_and_bytecode_names() {
    assert!(excludes_name(".git"));
    assert!(excludes_name(".hidden"));
    assert!(excludes_name("."));
    assert!(excludes_name("module.pyc"));
    assert!(excludes_name(".pyc"));
    assert!(!excludes_name("module.py"));
    assert!(!excludes_name("module.pyc.txt"));
    assert!(!excludes_name("pyc"));
    assert!(!excludes_name("a.PYC"));
    assert!(!excludes_name("main.rs"));
    assert!(!excludes_name(""));
}

#[test]
fn hidden_and_bytecode_entries_are_left_out_with_all_below_them() {
    let project = Project::new("/p").unwrap();
    let events = vec![
        file("/p/.env"),
        file("/p/a.pyc"),
        file("/p/pkg/mod.pyc"),
        dir("/p/.cache"),
        file("/p/.cache/data.txt"),
        file("/p/.cache/deep/er/data.txt"),
        file("/p/odd.pyc/inside.txt"),
        file("/p/pkg/mod.py"),
    ];
    assert_eq!(project.list_files(&events).unwrap(), vec!["/p/pkg/mod.py".to_string()]);
}

#[test]
fn a_hidden_root_is_still_scanned() {
    let project = Project::new("/tmp/.tmpXyZ").unwrap();
    let events = vec![file("/tmp/.tmpXyZ/a.txt")];
    assert_eq!(project.list_files(&events).unwrap(), vec!["/tmp/.tmpXyZ/a.txt".to_string()]);
}

#[test]
fn only_regular_files_below_the_root_are_listed() {
    let project = Project::new("/p").unwrap();
    let events = vec![
        dir("/p"),
        file("/p"),
        dir("/p/src"),
        found("/p/link", EntryKind::Symlink),
        found("/p/pipe", EntryKind::Other),
        file("/q/outside.txt"),
        file("/pp/outside.txt"),
        file("/outside.txt"),
        file("/p/in.txt"),
    ];
    assert_eq!(project.list_files(&events).unwrap(), vec!["/p/in.txt".to_string()]);
}

#[test]
fn files_keep_the_order_of_the_walk() {
    let project = Project::new("/p").unwrap();
    let events = vec![file("/p/b"), file("/p/a"), file("/p/c/d"), file("/p/a")];
    assert_eq!(
        project.list_files(&events).unwrap(),
        vec!["/p/b".to_string(), "/p/a".to_string(), "/p/c/d".to_string(), "/p/a".to_string()]
    );
}

#[test]
fn scanning_twice_gives_the_same_files() {
    let project = Project::new("/p").unwrap();
    let events = vec![file("/p/b"), dir("/p/c"), file("/p/c/d"), file("/p/.x"), unreadable("/p/e")];
    let scanner = DirectoryScanner::new();
    let first = scanner.scan(&project, &events).unwrap();
    let second = scanner.scan(&project, &events).unwrap();
    assert_eq!(first.files, second.files);
    assert_eq!(first.warnings, second.warnings);

    let mut shuffled = events.clone();
    shuffled.reverse();
    let mut a = first.files.clone();
    let mut b = scanner.scan(&project, &shuffled).unwrap().files;
    a.sort();
    b.sort();
    assert_eq!(a, b);
}

#[test]
fn an_unreadable_root_fails_the_scan() {
    let project = Project::new("/p/q").unwrap();
    let scanner = DirectoryScanner::new();
    let events = vec![file("/p/q/a"), unreadable("/p/q"), file("/p/q/b")];
    assert_eq!(scanner.scan(&project, &events).err(), Some(SnapshotError::Traversal));
    assert_eq!(project.list_files(&events), Err(SnapshotError::Traversal));
    let events = vec![unreadable("/p//q/")];
    assert_eq!(scanner.scan(&project, &events).err(), Some(SnapshotError::Traversal));
}

#[test]
fn an_unreadable_entry_is_passed_over_and_recorded() {
    let project = Project::new("/p").unwrap();
    let scanner = DirectoryScanner::new();
    let events = vec![
        file("/p/a"),
        unreadable("/p/locked"),
        file("/p/b"),
        unreadable("/p/sub/locked.txt"),
    ];
    let report = scanner.scan(&project, &events).unwrap();
    assert_eq!(report.files, vec!["/p/a".to_string(), "/p/b".to_string()]);
    assert_eq!(report.warnings, vec!["/p/locked".to_string(), "/p/sub/locked.txt".to_string()]);
}

#[test]
fn an_empty_walk_finds_nothing() {
    let project = Project::new("/p").unwrap();
    let report = DirectoryScanner::new().scan(&project, &Vec::new()).unwrap();
    assert!(report.files.is_empty());
    assert!(report.warnings.is_empty());
}

#[test]
fn custom_rules_replace_the_default_ones() {
    let project = Project::new("/p").unwrap();
    let rules = IgnoreRuleSet::new(vec!["vendor".to_string(), "a.txt".to_string()]);
    let scanner = DirectoryScanner::with_rules(rules);
    let events = vec![
        file("/p/vendor/lib.c"),
        file("/p/build/out.o"),
        file("/p/a.txt"),
        file("/p/b.txt"),
        file("/p/a.txt/c"),
    ];
    let report = scanner.scan(&project, &events).unwrap();
    assert_eq!(report.files, vec!["/p/build/out.o".to_string(), "/p/b.txt".to_string()]);
}

#[test]
fn what_a_walk_enters() {
    let project = Project::new("/p").unwrap();
    let scanner = DirectoryScanner::new();
    assert!(scanner.enters(&project, "/p"));
    assert!(scanner.enters(&project, "/p/"));
    assert!(scanner.enters(&project, "/p/src"));
    assert!(scanner.enters(&project, "/p/src/deep/main.rs"));
    assert!(!scanner.enters(&project, "/p/.git"));
    assert!(!scanner.enters(&project, "/p/node_modules"));
    assert!(!scanner.enters(&project, "/p/src/target/debug"));
    assert!(!scanner.enters(&project, "/p/x.pyc"));
    assert!(!scanner.enters(&project, "/q"));
    assert!(!scanner.enters(&project, "/"));

    assert!(!scanner.visits(&project, "/p"));
    assert!(scanner.visits(&project, "/p/src"));
    assert!(!scanner.visits(&project, "/p/dist/x"));
}

#[test]
fn turning_back_at_an_unvisited_directory_loses_nothing() {
    let project = Project::new("/p").unwrap();
    let scanner = DirectoryScanner::new();
    for dir in ["/p/.git", "/p/a/build", "/p/.x", "/p/a/b.pyc", "/p/venv"] {
        assert!(!scanner.visits(&project, dir));
        for below in ["main.rs", "a/b/c.txt", "src/lib.rs"] {
            assert!(!scanner.visits(&project, &format!("{}/{}", dir, below)));
        }
    }
}
