//! Paths as text: `/`-separated, read as a sequence of components.
//!
//! A component is a maximal run of characters other than `/`. Empty runs
//! (a leading, trailing or doubled separator) are no components. Two paths
//! with the same components name the same place.

use crate::text::chars_of;
use vstd::prelude::*;
use vstd::string::*;

verus! {

/// The separator between the components of a path.
pub const SEPARATOR: char = '/';

/// The components of `path`, in order.
pub open spec fn components(path: Seq<char>) -> Seq<Seq<char>>
    decreases path.len(),
{
    if path.len() == 0 {
        Seq::empty()
    } else {
        let before = components(path.drop_last());
        if path.last() == SEPARATOR {
            before
        } else if path.len() >= 2 && path[path.len() - 2] != SEPARATOR {
            before.drop_last().push(before.last().push(path.last()))
        } else {
            before.push(seq![path.last()])
        }
    }
}

/// A text that can be one component of a path: not empty, and without a
/// separator.
pub open spec fn is_name(name: Seq<char>) -> bool {
    name.len() > 0 && forall|i: int| 0 <= i < name.len() ==> name[i] != SEPARATOR
}

/// `path` begins at the root of the file system.
pub open spec fn is_absolute(path: Seq<char>) -> bool {
    path.len() > 0 && path[0] == SEPARATOR
}

/// The last component of `path`, if it has one.
pub open spec fn file_name(path: Seq<char>) -> Option<Seq<char>> {
    if components(path).len() == 0 {
        None
    } else {
        Some(components(path).last())
    }
}

/// `path` lies strictly below `root`: it has the components of `root`, and more.
pub open spec fn is_under(root: Seq<char>, path: Seq<char>) -> bool {
    components(root).is_prefix_of(components(path)) && components(root).len() < components(
        path,
    ).len()
}

/// `path` is the entry called `name` directly in the directory `dir`.
pub open spec fn is_child_named(dir: Seq<char>, path: Seq<char>, name: Seq<char>) -> bool {
    components(path) == components(dir).push(name)
}

/// The name under which `path` stands directly in the directory whose
/// components are `base`; `None` where it does not stand there.
pub open spec fn child_after(base: Seq<Seq<char>>, path: Seq<char>) -> Option<Seq<char>> {
    if base.is_prefix_of(components(path)) && components(path).len() == base.len() + 1 {
        Some(components(path).last())
    } else {
        None
    }
}

/// `parts` written as one text, with a separator between neighbours.
pub open spec fn joined(parts: Seq<Seq<char>>) -> Seq<char>
    decreases parts.len(),
{
    if parts.len() == 0 {
        Seq::empty()
    } else if parts.len() == 1 {
        parts[0]
    } else {
        joined(parts.drop_last()) + seq![SEPARATOR] + parts.last()
    }
}

/// What is left of `path` once the components `base` are taken from its
/// front; `None` where `path` does not begin with them.
pub open spec fn rest_after(base: Seq<Seq<char>>, path: Seq<char>) -> Option<Seq<char>> {
    if base.is_prefix_of(components(path)) {
        Some(joined(components(path).skip(base.len() as int)))
    } else {
        None
    }
}

/// The path of `path` as seen from `root`; `None` where `path` stands
/// neither at nor below `root`.
pub open spec fn relative(root: Seq<char>, path: Seq<char>) -> Option<Seq<char>> {
    rest_after(components(root), path)
}

/// The path of the entry called `name` in the directory `dir`.
pub open spec fn child_path(dir: Seq<char>, name: Seq<char>) -> Seq<char> {
    if dir.len() == 0 || dir.last() == SEPARATOR {
        dir + name
    } else {
        dir + seq![SEPARATOR] + name
    }
}

/// The component of `path` that is still open after its first `end`
/// characters, if one began at `start`.
spec fn open_part(path: Seq<char>, start: int, end: int) -> Seq<Seq<char>> {
    if start < end {
        seq![path.subrange(start, end)]
    } else {
        Seq::empty()
    }
}

/// Reading one more character extends the open component, or closes it.
proof fn lemma_components_step(path: Seq<char>, closed: Seq<Seq<char>>, start: int, i: int)
    requires
        0 <= start <= i < path.len(),
        start == 0 || path[start - 1] == SEPARATOR,
        forall|k: int| start <= k < i ==> path[k] != SEPARATOR,
        components(path.take(i)) == closed + open_part(path, start, i),
    ensures
        path[i] == SEPARATOR ==> components(path.take(i + 1)) == closed + open_part(
            path,
            start,
            i,
        ),
        path[i] != SEPARATOR ==> components(path.take(i + 1)) == closed + open_part(
            path,
            start,
            i + 1,
        ),
{
    assert(path.take(i + 1).drop_last() == path.take(i));
    if path[i] != SEPARATOR {
        if start < i {
            assert(path.subrange(start, i).push(path[i]) == path.subrange(start, i + 1));
        } else {
            assert(seq![path[i]] == path.subrange(start, i + 1));
        }
    }
}

/// Splits `path` into its components.
pub fn split(path: &str) -> (parts: Vec<String>)
    ensures
        parts.deep_view() == components(path@),
{
    let chars = chars_of(path);
    let n = chars.len();
    let mut parts: Vec<String> = Vec::new();
    let mut start: usize = 0;
    let mut i: usize = 0;
    while i < n
        invariant
            chars@ == path@,
            n == chars.len(),
            start <= i <= n,
            start == 0 || path@[start - 1] == SEPARATOR,
            forall|k: int| start <= k < i ==> path@[k] != SEPARATOR,
            components(path@.take(i as int)) == parts.deep_view() + open_part(
                path@,
                start as int,
                i as int,
            ),
        decreases n - i,
    {
        proof {
            lemma_components_step(path@, parts.deep_view(), start as int, i as int);
        }
        if chars[i] == SEPARATOR {
            if start < i {
                parts.push(String::from_str(path.substring_char(start, i)));
            }
            start = i + 1;
        }
        i += 1;
    }
    assert(path@.take(n as int) == path@);
    if start < n {
        parts.push(String::from_str(path.substring_char(start, n)));
    }
    parts
}

/// Whether `path` begins at the root of the file system.
pub fn starts_at_root(path: &str) -> (b: bool)
    ensures
        b == is_absolute(path@),
{
    path.unicode_len() > 0 && path.get_char(0) == SEPARATOR
}

/// The last component of `path`, if it has one.
pub fn last_component(path: &str) -> (name: Option<String>)
    ensures
        name.deep_view() == file_name(path@),
{
    let mut parts = split(path);
    parts.pop()
}

/// Whether `full` begins with all of `base`, component by component.
pub fn begins_with(full: &Vec<String>, base: &Vec<String>) -> (b: bool)
    ensures
        b == base.deep_view().is_prefix_of(full.deep_view()),
{
    if base.len() > full.len() {
        return false;
    }
    let mut i: usize = 0;
    while i < base.len()
        invariant
            i <= base.len() <= full.len(),
            forall|k: int| 0 <= k < i ==> full.deep_view()[k] == base.deep_view()[k],
        decreases base.len() - i,
    {
        if full[i] != base[i] {
            assert(full.deep_view().subrange(0, base.len() as int)[i as int]
                != base.deep_view()[i as int]);
            return false;
        }
        i += 1;
    }
    true
}

/// The name under which `path` stands directly in the directory whose
/// components are `base`.
pub fn child_in(base: &Vec<String>, path: &str) -> (name: Option<String>)
    ensures
        name.deep_view() == child_after(base.deep_view(), path@),
{
    let mut full = split(path);
    if base.len() < full.len() && full.len() - base.len() == 1 && begins_with(&full, base) {
        full.pop()
    } else {
        None
    }
}

/// Writes the components `parts[from..]` as one text.
fn join_from(parts: &Vec<String>, from: usize) -> (text: String)
    requires
        from <= parts.len(),
    ensures
        text@ == joined(parts.deep_view().skip(from as int)),
{
    let mut text = String::new();
    let mut i: usize = from;
    let ghost tail = parts.deep_view().skip(from as int);
    while i < parts.len()
        invariant
            from <= i <= parts.len(),
            tail == parts.deep_view().skip(from as int),
            text@ == joined(tail.take(i - from)),
        decreases parts.len() - i,
    {
        proof {
            assert(tail.take(i - from + 1).drop_last() == tail.take(i - from));
            reveal_strlit("/");
        }
        if i > from {
            text.append("/");
        }
        text.append(parts[i].as_str());
        i += 1;
    }
    assert(tail.take(parts.len() - from) == tail);
    text
}

/// Writes the components `parts` as one text.
pub fn join(parts: &Vec<String>) -> (text: String)
    ensures
        text@ == joined(parts.deep_view()),
{
    assert(parts.deep_view().skip(0) == parts.deep_view());
    join_from(parts, 0)
}

/// What is left of `path` once the components `base` are taken from its
/// front.
pub fn relative_from(base: &Vec<String>, path: &str) -> (rest: Option<String>)
    ensures
        rest.deep_view() == rest_after(base.deep_view(), path@),
{
    let full = split(path);
    if begins_with(&full, base) {
        Some(join_from(&full, base.len()))
    } else {
        None
    }
}

/// The path of `path` as seen from `root`.
pub fn relative_to(root: &str, path: &str) -> (rest: Option<String>)
    ensures
        rest.deep_view() == relative(root@, path@),
{
    let base = split(root);
    relative_from(&base, path)
}

/// The path of the entry called `name` in the directory `dir`.
pub fn child_of(dir: &str, name: &str) -> (path: String)
    ensures
        path@ == child_path(dir@, name@),
{
    let n = dir.unicode_len();
    let mut path = String::from_str(dir);
    if n > 0 && dir.get_char(n - 1) != SEPARATOR {
        proof {
            reveal_strlit("/");
        }
        path.append("/");
    }
    path.append(name);
    path
}

/// A path that ends in a character other than the separator has a last
/// component.
proof fn lemma_open_end(path: Seq<char>)
    requires
        path.len() > 0,
        path.last() != SEPARATOR,
    ensures
        components(path).len() > 0,
    decreases path.len(),
{
    if path.len() >= 2 && path[path.len() - 2] != SEPARATOR {
        lemma_open_end(path.drop_last());
    }
}

/// Every component of a path is a name.
pub proof fn components_are_names(path: Seq<char>)
    ensures
        forall|i: int| 0 <= i < components(path).len() ==> is_name(#[trigger] components(path)[i]),
    decreases path.len(),
{
    if path.len() > 0 {
        components_are_names(path.drop_last());
        if path.last() != SEPARATOR && path.len() >= 2 && path[path.len() - 2] != SEPARATOR {
            lemma_open_end(path.drop_last());
        }
    }
}

/// A name is its own and only component.
pub proof fn components_of_name(name: Seq<char>)
    requires
        is_name(name),
    ensures
        components(name) == seq![name],
    decreases name.len(),
{
    let front = name.drop_last();
    if front.len() > 0 {
        components_of_name(front);
        assert(front.push(name.last()) =~= name);
    } else {
        assert(seq![name.last()] =~= name);
        assert(components(name) == components(front).push(seq![name.last()]));
    }
}

/// The components of two paths written with a separator between them are
/// those of the first, then those of the second.
pub proof fn components_of_both(first: Seq<char>, second: Seq<char>)
    ensures
        components(first + seq![SEPARATOR] + second) == components(first) + components(second),
    decreases second.len(),
{
    let both = first + seq![SEPARATOR] + second;
    let head = components(first);
    if second.len() == 0 {
        assert(both.drop_last() =~= first);
        assert(head + components(second) =~= head);
    } else {
        let front = second.drop_last();
        let tail = components(front);
        let last = second.last();
        assert(both.drop_last() =~= first + seq![SEPARATOR] + front);
        components_of_both(first, front);
        if last != SEPARATOR {
            if front.len() > 0 && front.last() != SEPARATOR {
                // The last character extends the last component of `second`.
                lemma_open_end(front);
                assert((head + tail).drop_last() =~= head + tail.drop_last());
                assert((head + tail.drop_last()).push(tail.last().push(last)) =~= head
                    + tail.drop_last().push(tail.last().push(last)));
            } else {
                // The last character begins a component of its own.
                assert((head + tail).push(seq![last]) =~= head + tail.push(seq![last]));
            }
        }
    }
}

/// The path made for the entry called `name` in `dir` is that of a child of
/// `dir` with this name.
pub proof fn child_path_is_child(dir: Seq<char>, name: Seq<char>)
    requires
        is_name(name),
    ensures
        is_child_named(dir, child_path(dir, name), name),
{
    components_of_name(name);
    if dir.len() == 0 {
        assert(dir + name =~= name);
        assert(components(dir).push(name) =~= seq![name]);
    } else if dir.last() == SEPARATOR {
        let front = dir.drop_last();
        assert(dir + name =~= front + seq![SEPARATOR] + name);
        components_of_both(front, name);
        assert(components(front) + seq![name] =~= components(dir).push(name));
    } else {
        components_of_both(dir, name);
        assert(components(dir) + seq![name] =~= components(dir).push(name));
    }
}

} // verus!
