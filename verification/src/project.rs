//! The project root: where the run looks, and what it calls the project.

use crate::entry::WalkEvent;
use crate::error::SnapshotError;
use crate::path::{
    components, components_are_names, file_name, is_absolute, is_name, last_component,
    starts_at_root,
};
use crate::rules::default_names;
use crate::scanner::{found_files, root_failed, DirectoryScanner};
use vstd::prelude::*;
use vstd::string::*;

verus! {

/// A project root: an absolute path and the name shown for it. Where the
/// path on disk is not text throughout, the host writes it as text as well as
/// it can and says whether the last component came through.
#[derive(Debug, Clone)]
pub struct Project {
    pub path: String,
    pub name: String,
}

/// What a `Project` stands for.
pub struct ProjectModel {
    pub path: Seq<char>,
    pub name: Seq<char>,
}

impl View for Project {
    type V = ProjectModel;

    open spec fn view(&self) -> ProjectModel {
        ProjectModel { path: self.path@, name: self.name@ }
    }
}

/// The name shown for a project whose root has no last component.
pub open spec fn fallback_name() -> Seq<char> {
    "unknown"@
}

/// The name shown for the project at `path`: the last component of the
/// path, or the fallback where it has none.
pub open spec fn display_name(path: Seq<char>) -> Seq<char> {
    match file_name(path) {
        Some(name) => name,
        None => fallback_name(),
    }
}

impl Project {
    /// The path is absolute, and the name is the one derived from it or the
    /// fallback.
    pub open spec fn wf(&self) -> bool {
        is_absolute(self.path@) && (self.name@ == display_name(self.path@) || self.name@
            == fallback_name())
    }

    /// The project at `resolved`, the root as the host resolved it. A path
    /// that does not begin at the root of the file system was not resolved.
    pub fn new(resolved: &str) -> (made: Result<Project, SnapshotError>)
        ensures
            is_absolute(resolved@) ==> made is Ok && made->Ok_0.wf() && made->Ok_0.path@
                == resolved@ && made->Ok_0.name@ == display_name(resolved@),
            !is_absolute(resolved@) ==> made == Err::<Project, SnapshotError>(
                SnapshotError::PathResolution,
            ),
    {
        if !starts_at_root(resolved) {
            return Err(SnapshotError::PathResolution);
        }
        let name = match last_component(resolved) {
            Some(name) => name,
            None => String::from_str("unknown"),
        };
        Ok(Project { path: String::from_str(resolved), name })
    }

    /// The project at `resolved` where the last component of the root on disk
    /// is not text, so that no name can be had from it: the project bears
    /// the fallback name.
    pub fn unnamed(resolved: &str) -> (made: Result<Project, SnapshotError>)
        ensures
            is_absolute(resolved@) ==> made is Ok && made->Ok_0.wf() && made->Ok_0.path@
                == resolved@ && made->Ok_0.name@ == fallback_name(),
            !is_absolute(resolved@) ==> made == Err::<Project, SnapshotError>(
                SnapshotError::PathResolution,
            ),
    {
        if !starts_at_root(resolved) {
            return Err(SnapshotError::PathResolution);
        }
        Ok(Project { path: String::from_str(resolved), name: String::from_str("unknown") })
    }

    /// The files of the project among the events of a walk over it, under
    /// the default ignore rules. Fails when the walk could not read the root
    /// itself.
    pub fn list_files(&self, events: &Vec<WalkEvent>) -> (outcome: Result<
        Vec<String>,
        SnapshotError,
    >)
        ensures
            root_failed(self.path@, events.deep_view()) ==> outcome == Err::<
                Vec<String>,
                SnapshotError,
            >(SnapshotError::Traversal),
            !root_failed(self.path@, events.deep_view()) ==> outcome is Ok
                && outcome->Ok_0.deep_view() == found_files(
                default_names().to_set(),
                self.path@,
                events.deep_view(),
            ),
    {
        let scanner = DirectoryScanner::new();
        match scanner.scan(self, events) {
            Ok(report) => Ok(report.files),
            Err(failure) => Err(failure),
        }
    }
}

/// The name derived from a path is a single component: it holds no
/// separator.
pub proof fn display_name_is_a_name(path: Seq<char>)
    ensures
        is_name(display_name(path)),
{
    components_are_names(path);
    reveal_strlit("unknown");
    if components(path).len() > 0 {
        assert(is_name(components(path)[components(path).len() - 1]));
    }
}

/// The name of a well-formed project is a single component.
pub proof fn project_name_is_a_name(project: Project)
    requires
        project.wf(),
    ensures
        is_name(project.name@),
{
    display_name_is_a_name(project.path@);
    reveal_strlit("unknown");
}

} // verus!
