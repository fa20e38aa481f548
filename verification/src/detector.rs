//! Classifies a project by the marker files that stand directly in its root.
//!
//! A marker counts where a regular file of its name stands in the root. A
//! directory of that name is no marker. For a link the listing is to give the
//! kind of what the link leads to, so that a linked file counts.

use crate::entry::{EntryKind, EntryModel, FsEntry};
use crate::path::{child_in, components, split};
use crate::project::Project;
use vstd::prelude::*;
use vstd::string::*;

verus! {

/// Why a project could not be classified. Classification as it stands never
/// fails: a project without markers is `ProjectType::Unknown`.
#[derive(Debug, Clone, Copy, PartialEq, Eq, Structural)]
pub enum DetectorError {
    UnknownProjectType,
}

impl DetectorError {
    /// The text shown to the user for this failure.
    pub fn message(&self) -> (text: String)
        ensures
            text@ == "Unable to determine project type"@,
    {
        String::from_str("Unable to determine project type")
    }
}

/// The ecosystem of a project.
#[derive(Debug, Clone, Copy, PartialEq, Eq, Structural)]
pub enum ProjectType {
    Rust,
    JavaScript,
    Python,
    Unknown,
}

impl ProjectType {
    /// The name of the ecosystem as documents show it.
    pub open spec fn label_text(self) -> Seq<char> {
        match self {
            ProjectType::Rust => "Rust"@,
            ProjectType::JavaScript => "JavaScript"@,
            ProjectType::Python => "Python"@,
            ProjectType::Unknown => "Unknown"@,
        }
    }

    /// The name of the ecosystem as documents show it.
    pub fn label(&self) -> (name: &'static str)
        ensures
            name@ == self.label_text(),
    {
        match self {
            ProjectType::Rust => "Rust",
            ProjectType::JavaScript => "JavaScript",
            ProjectType::Python => "Python",
            ProjectType::Unknown => "Unknown",
        }
    }
}

/// The rules of classification, in order of precedence: a project type and
/// the name of the file that marks it.
pub struct ProjectDetector {
    pub markers: Vec<(ProjectType, &'static str)>,
}

/// The rules that a new detector holds.
pub open spec fn default_markers() -> Seq<(ProjectType, Seq<char>)> {
    seq![
        (ProjectType::Rust, "Cargo.toml"@),
        (ProjectType::JavaScript, "package.json"@),
        (ProjectType::Python, "requirements.txt"@),
        (ProjectType::Python, "setup.py"@),
    ]
}

/// `entry` is a regular file that stands under `name` directly in the
/// directory whose components are `base`.
pub open spec fn marks(base: Seq<Seq<char>>, entry: EntryModel, name: Seq<char>) -> bool {
    entry.kind == EntryKind::File && components(entry.path) == base.push(name)
}

/// Some entry of `listing` is a regular file that stands under `name`
/// directly in the directory `root`.
pub open spec fn has_file(root: Seq<char>, listing: Seq<EntryModel>, name: Seq<char>) -> bool {
    exists|j: int| 0 <= j < listing.len() && marks(components(root), #[trigger] listing[j], name)
}

/// The type of the first rule of `markers` whose file stands directly in
/// `root`, and `Unknown` where there is no such rule.
pub open spec fn classify(
    markers: Seq<(ProjectType, Seq<char>)>,
    root: Seq<char>,
    listing: Seq<EntryModel>,
) -> ProjectType
    decreases markers.len(),
{
    if markers.len() == 0 {
        ProjectType::Unknown
    } else if has_file(root, listing, markers[0].1) {
        markers[0].0
    } else {
        classify(markers.drop_first(), root, listing)
    }
}

impl View for ProjectDetector {
    type V = Seq<(ProjectType, Seq<char>)>;

    open spec fn view(&self) -> Seq<(ProjectType, Seq<char>)> {
        Seq::new(self.markers.len() as nat, |i: int| (self.markers[i].0, self.markers[i].1@))
    }
}

impl ProjectDetector {
    /// A detector with the default rules.
    pub fn new() -> (detector: Self)
        ensures
            detector@ == default_markers(),
    {
        let mut markers: Vec<(ProjectType, &'static str)> = Vec::new();
        markers.push((ProjectType::Rust, "Cargo.toml"));
        markers.push((ProjectType::JavaScript, "package.json"));
        markers.push((ProjectType::Python, "requirements.txt"));
        markers.push((ProjectType::Python, "setup.py"));
        let detector = ProjectDetector { markers };
        assert(detector@ =~= default_markers());
        detector
    }

    /// Whether some entry of `listing` is a regular file that stands under
    /// `name` directly in the directory whose components are `base`.
    fn finds(base: &Vec<String>, listing: &Vec<FsEntry>, name: &String) -> (b: bool)
        ensures
            b == exists|j: int|
                0 <= j < listing.len() && marks(
                    base.deep_view(),
                    #[trigger] listing.deep_view()[j],
                    name@,
                ),
    {
        let mut j: usize = 0;
        while j < listing.len()
            invariant
                j <= listing.len(),
                forall|k: int|
                    0 <= k < j ==> !marks(base.deep_view(), #[trigger] listing.deep_view()[k], name@),
            decreases listing.len() - j,
        {
            let ghost entry = listing.deep_view()[j as int];
            let ghost parts = components(entry.path);
            assert(entry == listing@[j as int]@);
            if listing[j].kind == EntryKind::File {
                match child_in(base, listing[j].path.as_str()) {
                    Some(child) => {
                        if child == *name {
                            assert(parts =~= base.deep_view().push(name@));
                            assert(marks(base.deep_view(), entry, name@));
                            return true;
                        }
                        assert(parts.last() != name@);
                    },
                    None => {
                        proof {
                            if parts == base.deep_view().push(name@) {
                                assert(base.deep_view() =~= parts.subrange(0, base.len() as int));
                            }
                        }
                    },
                }
            }
            assert(!marks(base.deep_view(), entry, name@));
            j += 1;
        }
        false
    }

    /// The type of `project`, by the regular files in `listing` that stand
    /// directly in its root: the type of the first rule whose marker is
    /// among them, and `Unknown` where no rule has its marker there.
    pub fn detect(&self, project: &Project, listing: &Vec<FsEntry>) -> (found: Result<
        ProjectType,
        DetectorError,
    >)
        ensures
            found == Ok::<ProjectType, DetectorError>(
                classify(self@, project.path@, listing.deep_view()),
            ),
    {
        let base = split(project.path.as_str());
        let ghost root = project.path@;
        let ghost models = listing.deep_view();
        let mut i: usize = 0;
        assert(self@.skip(0) == self@);
        while i < self.markers.len()
            invariant
                i <= self.markers.len(),
                models == listing.deep_view(),
                root == project.path@,
                base.deep_view() == components(root),
                classify(self@, root, models) == classify(self@.skip(i as int), root, models),
            decreases self.markers.len() - i,
        {
            let marker = String::from_str(self.markers[i].1);
            let present = Self::finds(&base, listing, &marker);
            proof {
                let rest = self@.skip(i as int);
                assert(rest[0] == self@[i as int]);
                assert(rest.drop_first() == self@.skip(i + 1));
                assert(present == has_file(root, models, rest[0].1));
            }
            if present {
                return Ok(self.markers[i].0);
            }
            i += 1;
        }
        Ok(ProjectType::Unknown)
    }
}

/// Where none of the markers stands as a regular file directly in the root,
/// the project is `Unknown`.
pub proof fn unknown_without_markers(
    markers: Seq<(ProjectType, Seq<char>)>,
    root: Seq<char>,
    listing: Seq<EntryModel>,
)
    requires
        forall|i: int| 0 <= i < markers.len() ==> !has_file(root, listing, #[trigger] markers[i].1),
    ensures
        classify(markers, root, listing) == ProjectType::Unknown,
    decreases markers.len(),
{
    if markers.len() > 0 {
        let rest = markers.drop_first();
        assert forall|i: int| 0 <= i < rest.len() implies !has_file(
            root,
            listing,
            #[trigger] rest[i].1,
        ) by {
            assert(rest[i] == markers[i + 1]);
        }
        unknown_without_markers(rest, root, listing);
    }
}

/// The first rule whose marker stands as a regular file directly in the root
/// decides, whatever markers of later rules stand there too.
pub proof fn first_marker_wins(
    markers: Seq<(ProjectType, Seq<char>)>,
    root: Seq<char>,
    listing: Seq<EntryModel>,
    at: int,
)
    requires
        0 <= at < markers.len(),
        has_file(root, listing, markers[at].1),
        forall|i: int| 0 <= i < at ==> !has_file(root, listing, #[trigger] markers[i].1),
    ensures
        classify(markers, root, listing) == markers[at].0,
    decreases at,
{
    if at > 0 {
        let rest = markers.drop_first();
        assert(rest[at - 1] == markers[at]);
        assert forall|i: int| 0 <= i < at - 1 implies !has_file(
            root,
            listing,
            #[trigger] rest[i].1,
        ) by {
            assert(rest[i] == markers[i + 1]);
        }
        first_marker_wins(rest, root, listing, at - 1);
    }
}

/// Under the default rules a project with a regular file `Cargo.toml`
/// directly in its root is a Rust project, whatever else stands there.
pub proof fn cargo_toml_means_rust(root: Seq<char>, listing: Seq<EntryModel>)
    requires
        has_file(root, listing, "Cargo.toml"@),
    ensures
        classify(default_markers(), root, listing) == ProjectType::Rust,
{
    first_marker_wins(default_markers(), root, listing, 0);
}

/// A marker found among the regular files of one listing is found in every
/// listing that holds these files.
proof fn lemma_file_carries_over(
    root: Seq<char>,
    first: Seq<EntryModel>,
    second: Seq<EntryModel>,
    name: Seq<char>,
)
    requires
        forall|entry: EntryModel|
            entry.kind == EntryKind::File && first.contains(entry) ==> second.contains(entry),
        has_file(root, first, name),
    ensures
        has_file(root, second, name),
{
    let j = choose|j: int|
        0 <= j < first.len() && marks(components(root), #[trigger] first[j], name);
    assert(first.contains(first[j]));
    let k = choose|k: int| 0 <= k < second.len() && second[k] == first[j];
    assert(marks(components(root), second[k], name));
}

/// Only regular files count: two listings that hold the same regular files
/// give the same type, whatever directories, links or other entries they
/// hold besides, and in whatever order.
pub proof fn only_files_count(
    markers: Seq<(ProjectType, Seq<char>)>,
    root: Seq<char>,
    first: Seq<EntryModel>,
    second: Seq<EntryModel>,
)
    requires
        forall|entry: EntryModel|
            entry.kind == EntryKind::File ==> (first.contains(entry) <==> second.contains(entry)),
    ensures
        classify(markers, root, first) == classify(markers, root, second),
    decreases markers.len(),
{
    if markers.len() > 0 {
        let name = markers[0].1;
        if has_file(root, first, name) {
            lemma_file_carries_over(root, first, second, name);
        }
        if has_file(root, second, name) {
            lemma_file_carries_over(root, second, first, name);
        }
        only_files_count(markers.drop_first(), root, first, second);
    }
}

} // verus!
