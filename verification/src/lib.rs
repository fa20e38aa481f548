//! Snapshot of a project directory for use as model context.
//!
//! The library decides; the host reads and writes. Every function here works
//! on plain values (paths as `/`-separated strings, directory listings as
//! vectors of entries) and states its result over the mathematical model of
//! those values.

pub mod cli;
pub mod clock;
pub mod detector;
pub mod entry;
pub mod error;
pub mod output;
pub mod path;
pub mod project;
pub mod rules;
pub mod scanner;
pub mod text;

use crate::cli::Cli;
use crate::clock::Moment;
use crate::detector::{classify, default_markers, ProjectDetector, ProjectType};
use crate::entry::{EntryModel, EventModel, FsEntry, WalkEvent};
use crate::error::SnapshotError;
use crate::output::{
    attach_texts, document, with_texts, Document, DocumentModel, FileModel, FileText,
    OutputGenerator,
};
use crate::path::is_absolute;
use crate::project::{display_name, fallback_name, Project, ProjectModel};
use crate::rules::default_names;
use crate::scanner::{found_files, root_failed};
use vstd::prelude::*;

verus! {

/// What the host saw when it looked at the project.
#[derive(Debug, Clone)]
pub struct Observation {
    /// The absolute path of the project root with all links resolved, or
    /// `None` where the path that the user gave leads nowhere.
    pub root: Option<String>,
    /// Whether the last component of the root is text on disk. Where it is
    /// not, `root` holds what could be made of it and the project goes by
    /// the fallback name.
    pub root_named: bool,
    /// The entries that stand directly in the root, a link with the kind of
    /// what it leads to.
    pub listing: Vec<FsEntry>,
    /// The events of a walk over the tree below the root that followed no
    /// links.
    pub events: Vec<WalkEvent>,
    /// The files that were read, each with its text where it has one.
    pub texts: Vec<FileText>,
    /// The moment of the run.
    pub now: Moment,
}

/// What an `Observation` stands for.
pub struct ObservationModel {
    pub root: Option<Seq<char>>,
    pub root_named: bool,
    pub listing: Seq<EntryModel>,
    pub events: Seq<EventModel>,
    pub texts: Seq<FileModel>,
    pub now: Moment,
}

impl View for Observation {
    type V = ObservationModel;

    open spec fn view(&self) -> ObservationModel {
        ObservationModel {
            root: self.root.deep_view(),
            root_named: self.root_named,
            listing: self.listing.deep_view(),
            events: self.events.deep_view(),
            texts: self.texts.deep_view(),
            now: self.now,
        }
    }
}

/// The document of a run, or the failure that ends it. A root that was not
/// resolved ends the run before anything is classified or scanned; a root
/// that could not be read ends it before a document is made.
pub open spec fn outcome_of(batch_mode: bool, seen: ObservationModel) -> Result<
    DocumentModel,
    SnapshotError,
> {
    match seen.root {
        None => Err(SnapshotError::PathResolution),
        Some(root) => if !is_absolute(root) {
            Err(SnapshotError::PathResolution)
        } else if root_failed(root, seen.events) {
            Err(SnapshotError::Traversal)
        } else {
            document(
                batch_mode,
                ProjectModel {
                    path: root,
                    name: if seen.root_named {
                        display_name(root)
                    } else {
                        fallback_name()
                    },
                },
                classify(default_markers(), root, seen.listing),
                with_texts(found_files(default_names().to_set(), root, seen.events), seen.texts),
                seen.now,
            )
        },
    }
}

/// One run: from what the user asked for and what the host saw to the
/// document that the host is to write.
pub fn run(cli: Cli, seen: &Observation) -> (outcome: Result<Document, SnapshotError>)
    ensures
        match outcome_of(cli.batch_mode, seen@) {
            Ok(model) => outcome is Ok && outcome->Ok_0@ == model,
            Err(failure) => outcome is Err && outcome->Err_0 == failure,
        },
{
    let project = match &seen.root {
        Some(root) => {
            let made = if seen.root_named {
                Project::new(root.as_str())
            } else {
                Project::unnamed(root.as_str())
            };
            match made {
                Ok(project) => project,
                Err(failure) => {
                    return Err(failure);
                },
            }
        },
        None => {
            return Err(SnapshotError::PathResolution);
        },
    };
    let detector = ProjectDetector::new();
    let project_type = match detector.detect(&project, &seen.listing) {
        Ok(project_type) => project_type,
        Err(_) => ProjectType::Unknown,
    };
    let paths = match project.list_files(&seen.events) {
        Ok(paths) => paths,
        Err(failure) => {
            return Err(failure);
        },
    };
    let files = attach_texts(&paths, &seen.texts);
    let generator = OutputGenerator::new(cli.batch_mode);
    generator.generate(project, project_type, &files, &seen.now)
}

} // verus!
