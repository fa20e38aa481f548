//! What the host reports of the file system: entries, and the events of a walk.

use vstd::prelude::*;

verus! {

/// What kind of thing stands at a path. A walk that follows no links
/// reports a link as a link, whatever it leads to. A listing made to look
/// for marker files reports for a link the kind of what it leads to.
#[derive(Debug, Clone, Copy, PartialEq, Eq, Structural)]
pub enum EntryKind {
    File,
    Directory,
    Symlink,
    Other,
}

/// One entry of the file system, as the host saw it.
#[derive(Debug, Clone)]
pub struct FsEntry {
    pub path: String,
    pub kind: EntryKind,
}

/// What an `FsEntry` stands for.
pub struct EntryModel {
    pub path: Seq<char>,
    pub kind: EntryKind,
}

impl View for FsEntry {
    type V = EntryModel;

    open spec fn view(&self) -> EntryModel {
        EntryModel { path: self.path@, kind: self.kind }
    }
}

impl DeepView for FsEntry {
    type V = EntryModel;

    open spec fn deep_view(&self) -> EntryModel {
        self@
    }
}

/// One step of a walk over a directory tree.
#[derive(Debug, Clone)]
pub enum WalkEvent {
    /// The walk came upon this entry.
    Found(FsEntry),
    /// The walk could not read what stands at this path.
    Unreadable(String),
}

/// What a `WalkEvent` stands for.
pub enum EventModel {
    Found(EntryModel),
    Unreadable(Seq<char>),
}

impl View for WalkEvent {
    type V = EventModel;

    open spec fn view(&self) -> EventModel {
        match self {
            WalkEvent::Found(entry) => EventModel::Found(entry@),
            WalkEvent::Unreadable(path) => EventModel::Unreadable(path@),
        }
    }
}

impl DeepView for WalkEvent {
    type V = EventModel;

    open spec fn deep_view(&self) -> EventModel {
        self@
    }
}

} // verus!
