//! The names that a scan ignores wherever they occur in a path.

use vstd::prelude::*;
use vstd::string::*;

verus! {

/// A set of names. A path with one of them among its components is ignored,
/// and so is everything below it.
#[derive(Debug, Clone)]
pub struct IgnoreRuleSet {
    pub names: Vec<String>,
}

impl View for IgnoreRuleSet {
    type V = Set<Seq<char>>;

    open spec fn view(&self) -> Set<Seq<char>> {
        self.names.deep_view().to_set()
    }
}

/// The names ignored by default: the metadata of version control, the
/// directories into which Rust, JavaScript and Python tools put what they
/// build or fetch, and Python's cache of compiled modules.
pub open spec fn default_names() -> Seq<Seq<char>> {
    seq![
        ".git"@,
        "target"@,
        "node_modules"@,
        "build"@,
        "dist"@,
        "venv"@,
        "__pycache__"@,
    ]
}

/// Some component among `parts` is one of the names in `rules`.
pub open spec fn blocked(rules: Set<Seq<char>>, parts: Seq<Seq<char>>) -> bool {
    exists|i: int| 0 <= i < parts.len() && rules.contains(#[trigger] parts[i])
}

impl IgnoreRuleSet {
    /// The rule set that holds exactly `names`.
    pub fn new(names: Vec<String>) -> (rules: Self)
        ensures
            rules.names == names,
            rules@ == names.deep_view().to_set(),
    {
        IgnoreRuleSet { names }
    }

    /// Whether `name` is one of the names of the set.
    pub fn contains(&self, name: &String) -> (b: bool)
        ensures
            b == self@.contains(name@),
    {
        let mut i: usize = 0;
        while i < self.names.len()
            invariant
                i <= self.names.len(),
                forall|k: int| 0 <= k < i ==> self.names.deep_view()[k] != name@,
            decreases self.names.len() - i,
        {
            if self.names[i] == *name {
                assert(self.names.deep_view()[i as int] == name@);
                return true;
            }
            i += 1;
        }
        false
    }

    /// Whether some component among `parts` is one of the names of the set.
    pub fn blocks(&self, parts: &Vec<String>) -> (b: bool)
        ensures
            b == blocked(self@, parts.deep_view()),
    {
        let mut i: usize = 0;
        while i < parts.len()
            invariant
                i <= parts.len(),
                forall|k: int| 0 <= k < i ==> !self@.contains(#[trigger] parts.deep_view()[k]),
            decreases parts.len() - i,
        {
            if self.contains(&parts[i]) {
                assert(self@.contains(parts.deep_view()[i as int]));
                return true;
            }
            i += 1;
        }
        false
    }
}

impl Default for IgnoreRuleSet {
    /// The rule set of the default names.
    fn default() -> (rules: Self)
        ensures
            rules.names.deep_view() == default_names(),
            rules@ == default_names().to_set(),
    {
        let mut names: Vec<String> = Vec::new();
        names.push(String::from_str(".git"));
        names.push(String::from_str("target"));
        names.push(String::from_str("node_modules"));
        names.push(String::from_str("build"));
        names.push(String::from_str("dist"));
        names.push(String::from_str("venv"));
        names.push(String::from_str("__pycache__"));
        assert(names.deep_view() =~= default_names());
        IgnoreRuleSet { names }
    }
}

/// Each of the default names is in the default rule set.
pub proof fn default_names_are_ignored()
    ensures
        default_names().to_set().contains(".git"@),
        default_names().to_set().contains("target"@),
        default_names().to_set().contains("node_modules"@),
        default_names().to_set().contains("build"@),
        default_names().to_set().contains("dist"@),
        default_names().to_set().contains("venv"@),
        default_names().to_set().contains("__pycache__"@),
{
    let names = default_names();
    assert(names[0] == ".git"@);
    assert(names[1] == "target"@);
    assert(names[2] == "node_modules"@);
    assert(names[3] == "build"@);
    assert(names[4] == "dist"@);
    assert(names[5] == "venv"@);
    assert(names[6] == "__pycache__"@);
}

} // verus!
