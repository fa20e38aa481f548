//! Chooses, among the events of a walk, the files that belong to a snapshot.
//!
//! An entry is visited when it lies below the root, none of the components
//! of its path is an ignored name, and none of its components below the root
//! is a hidden or a bytecode name. The files of a scan are the regular files
//! among the visited entries, in the order in which the walk found them.
//!
//! The scan decides among what the walk reports. What a walk leaves out on
//! its own account, say after the ignore files of the project, never reaches
//! the scan; a walk may also ask `DirectoryScanner::enters` where to turn
//! back, and loses nothing by it.

use crate::entry::{EntryKind, EventModel, FsEntry, WalkEvent};
use crate::error::SnapshotError;
use crate::path::{begins_with, components, file_name, is_under, split};
use crate::project::Project;
use crate::rules::{blocked, IgnoreRuleSet};
use crate::text::{chars_of, ends_with};
use vstd::prelude::*;
use vstd::string::*;

verus! {

/// The ending of the name of a file of compiled bytecode.
pub open spec fn bytecode_suffix() -> Seq<char> {
    seq!['.', 'p', 'y', 'c']
}

/// A name that begins with a dot.
pub open spec fn is_hidden(name: Seq<char>) -> bool {
    name.len() > 0 && name[0] == '.'
}

/// A name that ends as a file of compiled bytecode does.
pub open spec fn is_bytecode(name: Seq<char>) -> bool {
    ends_with(name, bytecode_suffix())
}

/// A name that keeps its entry, and all below it, out of a scan.
pub open spec fn name_excluded(name: Seq<char>) -> bool {
    is_hidden(name) || is_bytecode(name)
}

/// None of `parts[from..]` is an excluded name.
pub open spec fn names_pass(parts: Seq<Seq<char>>, from: int) -> bool {
    forall|i: int| from <= i < parts.len() ==> !name_excluded(#[trigger] parts[i])
}

/// A scan from `root` under `rules` visits what stands at `path`.
pub open spec fn visited(rules: Set<Seq<char>>, root: Seq<char>, path: Seq<char>) -> bool {
    &&& is_under(root, path)
    &&& !blocked(rules, components(path))
    &&& names_pass(components(path), components(root).len() as int)
}

/// The path that `event` adds to the files of a scan: that of a regular
/// file that the scan visits.
pub open spec fn listed(rules: Set<Seq<char>>, root: Seq<char>, event: EventModel) -> Option<
    Seq<char>,
> {
    match event {
        EventModel::Found(entry) => if entry.kind == EntryKind::File && visited(
            rules,
            root,
            entry.path,
        ) {
            Some(entry.path)
        } else {
            None
        },
        EventModel::Unreadable(_) => None,
    }
}

/// `listed`, as a function of the event alone.
pub open spec fn lister(rules: Set<Seq<char>>, root: Seq<char>) -> spec_fn(EventModel) -> Option<
    Seq<char>,
> {
    |event: EventModel| listed(rules, root, event)
}

/// The path that `event` adds to the warnings of a scan: one that the walk
/// could not read.
pub open spec fn passed_over(event: EventModel) -> Option<Seq<char>> {
    match event {
        EventModel::Found(_) => None,
        EventModel::Unreadable(path) => Some(path),
    }
}

/// `passed_over`, as a function value.
pub open spec fn passer() -> spec_fn(EventModel) -> Option<Seq<char>> {
    |event: EventModel| passed_over(event)
}

/// `event` reports that the root itself could not be read.
pub open spec fn fails_root(root: Seq<char>, event: EventModel) -> bool {
    event matches EventModel::Unreadable(path) && components(path) == components(root)
}

/// Some event reports that the root itself could not be read.
pub open spec fn root_failed(root: Seq<char>, events: Seq<EventModel>) -> bool {
    exists|i: int| 0 <= i < events.len() && fails_root(root, #[trigger] events[i])
}

/// The paths of the regular files that the scan visits, in the order of
/// `events`.
pub open spec fn found_files(
    rules: Set<Seq<char>>,
    root: Seq<char>,
    events: Seq<EventModel>,
) -> Seq<Seq<char>> {
    events.filter_map(lister(rules, root))
}

/// The paths that the walk could not read, in the order of `events`.
pub open spec fn skipped(events: Seq<EventModel>) -> Seq<Seq<char>> {
    events.filter_map(passer())
}

/// What a scan brings back: the files found, and the paths that could not
/// be read and were passed over.
#[derive(Debug, Clone)]
pub struct ScanReport {
    pub files: Vec<String>,
    pub warnings: Vec<String>,
}

/// Scans the events of a walk under a set of ignore rules.
#[derive(Debug, Clone)]
pub struct DirectoryScanner {
    pub rules: IgnoreRuleSet,
}

/// Whether `name` keeps its entry out of a scan.
pub fn excludes_name(name: &str) -> (b: bool)
    ensures
        b == name_excluded(name@),
{
    let chars = chars_of(name);
    let n = chars.len();
    if n > 0 && chars[0] == '.' {
        return true;
    }
    if n >= 4 && chars[n - 4] == '.' && chars[n - 3] == 'p' && chars[n - 2] == 'y' && chars[n
        - 1] == 'c' {
        assert(name@.skip(n - 4) =~= bytecode_suffix());
        return true;
    }
    proof {
        if n >= 4 {
            let tail = name@.skip(n - 4);
            assert(tail[0] == name@[n - 4] && tail[1] == name@[n - 3] && tail[2] == name@[n - 2]
                && tail[3] == name@[n - 1]);
        }
    }
    false
}

impl DirectoryScanner {
    /// A scanner under the default rules.
    pub fn new() -> (scanner: Self)
        ensures
            scanner.rules@ == crate::rules::default_names().to_set(),
    {
        DirectoryScanner { rules: IgnoreRuleSet::default() }
    }

    /// A scanner under `rules`.
    pub fn with_rules(rules: IgnoreRuleSet) -> (scanner: Self)
        ensures
            scanner.rules == rules,
    {
        DirectoryScanner { rules }
    }

    /// Whether a scan from the directory whose components are `base` visits
    /// what stands at `path`.
    fn visits_from(&self, base: &Vec<String>, path: &str) -> (b: bool)
        ensures
            b == {
                &&& base.deep_view().is_prefix_of(components(path@))
                &&& base.len() < components(path@).len()
                &&& !blocked(self.rules@, components(path@))
                &&& names_pass(components(path@), base.len() as int)
            },
    {
        let parts = split(path);
        if !(begins_with(&parts, base) && base.len() < parts.len()) {
            return false;
        }
        if self.rules.blocks(&parts) {
            return false;
        }
        let mut i: usize = base.len();
        while i < parts.len()
            invariant
                base.len() <= i <= parts.len(),
                parts.deep_view() == components(path@),
                forall|k: int|
                    base.len() <= k < i ==> !name_excluded(#[trigger] parts.deep_view()[k]),
            decreases parts.len() - i,
        {
            if excludes_name(parts[i].as_str()) {
                assert(name_excluded(components(path@)[i as int]));
                return false;
            }
            i += 1;
        }
        true
    }

    /// Whether a scan of `project` visits what stands at `path`.
    pub fn visits(&self, project: &Project, path: &str) -> (b: bool)
        ensures
            b == visited(self.rules@, project.path@, path@),
    {
        let base = split(project.path.as_str());
        self.visits_from(&base, path)
    }

    /// Whether a walk of `project` has reason to look at `path`: it is the
    /// root itself, or the scan visits it.
    pub fn enters(&self, project: &Project, path: &str) -> (b: bool)
        ensures
            b == (components(path@) == components(project.path@) || visited(
                self.rules@,
                project.path@,
                path@,
            )),
    {
        let base = split(project.path.as_str());
        let parts = split(path);
        if begins_with(&parts, &base) && parts.len() == base.len() {
            assert(parts.deep_view() =~= base.deep_view());
            return true;
        }
        self.visits_from(&base, path)
    }

    /// The files of `project` among the events of a walk over it, and the
    /// paths that the walk passed over. Fails when the walk could not read
    /// the root itself.
    pub fn scan(&self, project: &Project, events: &Vec<WalkEvent>) -> (outcome: Result<
        ScanReport,
        SnapshotError,
    >)
        ensures
            root_failed(project.path@, events.deep_view()) ==> outcome == Err::<
                ScanReport,
                SnapshotError,
            >(SnapshotError::Traversal),
            !root_failed(project.path@, events.deep_view()) ==> outcome is Ok
                && outcome->Ok_0.files.deep_view() == found_files(
                self.rules@,
                project.path@,
                events.deep_view(),
            ) && outcome->Ok_0.warnings.deep_view() == skipped(events.deep_view()),
    {
        let base = split(project.path.as_str());
        let ghost root = project.path@;
        let ghost models = events.deep_view();
        let mut files: Vec<String> = Vec::new();
        let mut warnings: Vec<String> = Vec::new();
        let mut i: usize = 0;
        while i < events.len()
            invariant
                i <= events.len(),
                models == events.deep_view(),
                root == project.path@,
                base.deep_view() == components(root),
                forall|k: int| 0 <= k < i ==> !fails_root(root, #[trigger] models[k]),
                files.deep_view() == found_files(self.rules@, root, models.take(i as int)),
                warnings.deep_view() == skipped(models.take(i as int)),
            decreases events.len() - i,
        {
            proof {
                models.lemma_filter_map_take_succ(lister(self.rules@, root), i as int);
                models.lemma_filter_map_take_succ(passer(), i as int);
            }
            match &events[i] {
                WalkEvent::Found(entry) => {
                    if entry.kind == EntryKind::File && self.visits_from(
                        &base,
                        entry.path.as_str(),
                    ) {
                        files.push(entry.path.clone());
                    }
                },
                WalkEvent::Unreadable(path) => {
                    let parts = split(path.as_str());
                    if begins_with(&parts, &base) && parts.len() == base.len() {
                        assert(parts.deep_view() =~= base.deep_view());
                        return Err(SnapshotError::Traversal);
                    }
                    warnings.push(path.clone());
                },
            }
            i += 1;
        }
        assert(models.take(events.len() as int) == models);
        Ok(ScanReport { files, warnings })
    }
}

/// A path is among the files of a scan exactly when some event adds it.
pub proof fn lemma_found_files(
    rules: Set<Seq<char>>,
    root: Seq<char>,
    events: Seq<EventModel>,
    path: Seq<char>,
)
    ensures
        found_files(rules, root, events).contains(path) <==> exists|i: int|
            0 <= i < events.len() && listed(rules, root, #[trigger] events[i]) == Some(path),
    decreases events.len(),
{
    if events.len() > 0 {
        let front = events.drop_last();
        let before = found_files(rules, root, front);
        let all = found_files(rules, root, events);
        lemma_found_files(rules, root, front, path);
        if all.contains(path) {
            let at = choose|k: int| 0 <= k < all.len() && all[k] == path;
            if at < before.len() {
                assert(before[at] == path);
                let i = choose|i: int|
                    0 <= i < front.len() && listed(rules, root, #[trigger] front[i]) == Some(path);
                assert(listed(rules, root, events[i]) == Some(path));
            } else {
                assert(listed(rules, root, events[events.len() - 1]) == Some(path));
            }
        }
        if exists|i: int|
            0 <= i < events.len() && listed(rules, root, #[trigger] events[i]) == Some(path) {
            let i = choose|i: int|
                0 <= i < events.len() && listed(rules, root, #[trigger] events[i]) == Some(path);
            if i < front.len() {
                assert(listed(rules, root, front[i]) == Some(path));
                let at = choose|k: int| 0 <= k < before.len() && before[k] == path;
                assert(all[at] == path);
            } else {
                assert(all[all.len() - 1] == path);
            }
        }
    }
}

/// Every file of a scan lies below the root, has no ignored name among its
/// components, and bears a name that neither begins with a dot nor ends as
/// bytecode does.
pub proof fn found_files_are_clean(
    rules: Set<Seq<char>>,
    root: Seq<char>,
    events: Seq<EventModel>,
    path: Seq<char>,
)
    requires
        found_files(rules, root, events).contains(path),
    ensures
        is_under(root, path),
        !blocked(rules, components(path)),
        file_name(path) is Some,
        !is_hidden(file_name(path)->0),
        !is_bytecode(file_name(path)->0),
{
    lemma_found_files(rules, root, events, path);
    let parts = components(path);
    assert(!name_excluded(parts[parts.len() - 1]));
}

/// No file of a scan stands in or below a directory that bears an ignored
/// name, however deep.
pub proof fn nothing_found_below_ignored(
    rules: Set<Seq<char>>,
    root: Seq<char>,
    events: Seq<EventModel>,
    dir: Seq<char>,
    path: Seq<char>,
)
    requires
        file_name(dir) is Some,
        rules.contains(file_name(dir)->0),
        components(dir).is_prefix_of(components(path)),
    ensures
        !found_files(rules, root, events).contains(path),
{
    lemma_found_files(rules, root, events, path);
    let at = components(dir).len() - 1;
    assert(components(path)[at] == components(dir)[at]);
}

/// No file of a scan stands in or below a directory under the root whose
/// name begins with a dot or ends as bytecode does.
pub proof fn nothing_found_below_hidden(
    rules: Set<Seq<char>>,
    root: Seq<char>,
    events: Seq<EventModel>,
    dir: Seq<char>,
    path: Seq<char>,
)
    requires
        is_under(root, dir),
        name_excluded(file_name(dir)->0),
        components(dir).is_prefix_of(components(path)),
    ensures
        !found_files(rules, root, events).contains(path),
{
    lemma_found_files(rules, root, events, path);
    let at = components(dir).len() - 1;
    assert(components(path)[at] == components(dir)[at]);
}

/// A directory below the root that the scan does not visit has nothing below
/// it that the scan would visit: a walk that turns back there loses nothing.
pub proof fn pruning_loses_nothing(
    rules: Set<Seq<char>>,
    root: Seq<char>,
    dir: Seq<char>,
    path: Seq<char>,
)
    requires
        is_under(root, dir),
        !visited(rules, root, dir),
        components(dir).is_prefix_of(components(path)),
    ensures
        !visited(rules, root, path),
{
    let short = components(dir);
    let long = components(path);
    if blocked(rules, short) {
        let i = choose|i: int| 0 <= i < short.len() && rules.contains(#[trigger] short[i]);
        assert(long[i] == short[i]);
    } else {
        let i = choose|i: int|
            components(root).len() <= i < short.len() && name_excluded(#[trigger] short[i]);
        assert(long[i] == short[i]);
    }
}

/// Two walks that report the same events, in whatever order and however
/// often, give the same set of files and fail alike.
pub proof fn scan_ignores_order(
    rules: Set<Seq<char>>,
    root: Seq<char>,
    first: Seq<EventModel>,
    second: Seq<EventModel>,
)
    requires
        first.to_set() == second.to_set(),
    ensures
        found_files(rules, root, first).to_set() == found_files(rules, root, second).to_set(),
        root_failed(root, first) == root_failed(root, second),
{
    lemma_one_way(rules, root, first, second);
    lemma_one_way(rules, root, second, first);
}

/// What `first` yields or fails on, `second` does too, when every event of
/// `first` is one of `second`.
proof fn lemma_one_way(
    rules: Set<Seq<char>>,
    root: Seq<char>,
    first: Seq<EventModel>,
    second: Seq<EventModel>,
)
    requires
        first.to_set().subset_of(second.to_set()),
    ensures
        forall|path: Seq<char>|
            found_files(rules, root, first).contains(path) ==> found_files(
                rules,
                root,
                second,
            ).contains(path),
        root_failed(root, first) ==> root_failed(root, second),
{
    assert forall|path: Seq<char>| found_files(rules, root, first).contains(path) implies found_files(
        rules,
        root,
        second,
    ).contains(path) by {
        lemma_found_files(rules, root, first, path);
        lemma_found_files(rules, root, second, path);
        let i = choose|i: int|
            0 <= i < first.len() && listed(rules, root, #[trigger] first[i]) == Some(path);
        assert(first.to_set().contains(first[i]));
        let k = choose|k: int| 0 <= k < second.len() && second[k] == first[i];
        assert(listed(rules, root, second[k]) == Some(path));
    }
    if root_failed(root, first) {
        let i = choose|i: int| 0 <= i < first.len() && fails_root(root, #[trigger] first[i]);
        assert(first.to_set().contains(first[i]));
        let k = choose|k: int| 0 <= k < second.len() && second[k] == first[i];
        assert(fails_root(root, second[k]));
    }
}

} // verus!
