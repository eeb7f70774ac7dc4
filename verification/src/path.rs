//! POSIX path composition used to lay out Vapor's directory tree.
//!
//! Paths are plain strings with `/` as the separator. Joining follows the
//! rule of `std::path::PathBuf::push` on Unix: an absolute child replaces the
//! base, and otherwise a separator is inserted unless the base is empty or
//! already ends in one.

use vstd::prelude::*;

verus! {

/// The path separator.
pub open spec fn separator() -> char {
    '/'
}

/// `true` when `path` starts at the filesystem root.
pub open spec fn is_absolute(path: Seq<char>) -> bool {
    path.len() > 0 && path[0] == separator()
}

/// `base` with `child` appended as a further component.
pub open spec fn path_join(base: Seq<char>, child: Seq<char>) -> Seq<char> {
    if is_absolute(child) {
        child
    } else if base.len() == 0 || base.last() == separator() {
        base + child
    } else {
        base + seq![separator()] + child
    }
}

/// Executable check that a path starts at the filesystem root.
pub fn path_is_absolute(path: &str) -> (absolute: bool)
    ensures
        absolute == is_absolute(path@),
{
    let len = path.unicode_len();
    len > 0 && path.get_char(0) == '/'
}

/// Append `child` to `base` as a further path component.
pub fn join_path(base: &str, child: &str) -> (joined: String)
    ensures
        joined@ == path_join(base@, child@),
{
    if path_is_absolute(child) {
        return String::from_str(child);
    }
    let len = base.unicode_len();
    let mut joined = String::from_str(base);
    if len > 0 && base.get_char(len - 1) != '/' {
        joined.append("/");
        proof {
            reveal_strlit("/");
            assert(seq!['/'] =~= "/"@);
        }
    }
    joined.append(child);
    joined
}

/// `true` when a component other than `.` starts at index `k > 0`, just after
/// a separator. For a relative path this means the path has at least two
/// components in the sense of `std::path::Path::components`.
pub open spec fn starts_later_component(path: Seq<char>, k: int) -> bool {
    &&& 0 < k < path.len()
    &&& path[k - 1] == separator()
    &&& path[k] != separator()
    &&& !(path[k] == '.' && (k + 1 == path.len() || path[k + 1] == separator()))
}

/// `true` when `path` is absolute or has more than one component, so it
/// names a file location instead of a bare command to look up on `PATH`.
pub open spec fn names_location(path: Seq<char>) -> bool {
    is_absolute(path) || exists|k: int| starts_later_component(path, k)
}

/// Executable check that `path` is absolute or has several components.
pub fn path_names_location(path: &str) -> (location: bool)
    ensures
        location == names_location(path@),
{
    let chars = crate::text::chars_of(path);
    let len = chars.len();
    if len > 0 && chars[0] == '/' {
        return true;
    }
    let mut k: usize = 1;
    while k < len
        invariant
            chars@ == path@,
            len == chars.len(),
            1 <= k,
            forall|j: int| 0 < j < k ==> !starts_later_component(path@, j),
        decreases len - k,
    {
        if chars[k - 1] == '/' && chars[k] != '/' && !(chars[k] == '.' && (k + 1 == len
            || chars[k + 1] == '/')) {
            assert(starts_later_component(path@, k as int));
            return true;
        }
        k = k + 1;
    }
    assert(forall|j: int| !starts_later_component(path@, j));
    false
}

/// `path` without trailing separators and trailing `.` components, the way
/// `std::path::Path::components` ignores them. A lone root `/` and a lone
/// leading `.` are kept.
pub open spec fn strip_tail(path: Seq<char>) -> Seq<char>
    decreases path.len(),
{
    if path.len() > 1 && path.last() == separator() {
        strip_tail(path.drop_last())
    } else if path.len() >= 2 && path.last() == '.' && path[path.len() - 2] == separator() {
        strip_tail(path.drop_last())
    } else {
        path
    }
}

/// The index just past the last separator of `path`, or 0 when it has none.
pub open spec fn last_component_start(path: Seq<char>) -> int
    decreases path.len(),
{
    if path.len() == 0 {
        0
    } else if path.last() == separator() {
        path.len() as int
    } else {
        last_component_start(path.drop_last())
    }
}

/// The final component of `path`, as text (empty for `/` and the empty path).
pub open spec fn last_component(path: Seq<char>) -> Seq<char> {
    let trimmed = strip_tail(path);
    trimmed.subrange(last_component_start(trimmed), trimmed.len() as int)
}

/// `true` when `path` has a final component other than `/`, `.`, or `..`.
pub open spec fn has_file_name(path: Seq<char>) -> bool {
    let name = last_component(path);
    name.len() > 0 && name != seq!['.'] && name != seq!['.', '.']
}

/// `std::path::Path::file_name`: the final component when it is a normal
/// name.
pub open spec fn file_name(path: Seq<char>) -> Option<Seq<char>> {
    if has_file_name(path) {
        Some(last_component(path))
    } else {
        None
    }
}

/// `std::path::Path::parent`: the path without its final component, or
/// `None` for the root and the empty path.
pub open spec fn parent(path: Seq<char>) -> Option<Seq<char>> {
    let trimmed = strip_tail(path);
    if trimmed.len() == 0 || trimmed == seq![separator()] {
        None
    } else {
        Some(strip_tail(trimmed.subrange(0, last_component_start(trimmed))))
    }
}

/// The length of `strip_tail` of the first `len` characters.
fn strip_tail_len(chars: &Vec<char>, len: usize) -> (n: usize)
    requires
        len <= chars.len(),
    ensures
        n <= len,
        strip_tail(chars@.subrange(0, len as int)) == chars@.subrange(0, n as int),
{
    let mut n = len;
    while (n > 1 && chars[n - 1] == '/') || (n >= 2 && chars[n - 1] == '.' && chars[n - 2] == '/')
        invariant
            n <= len <= chars.len(),
            strip_tail(chars@.subrange(0, len as int)) == strip_tail(chars@.subrange(0, n as int)),
        decreases n,
    {
        assert(chars@.subrange(0, n as int).drop_last() =~= chars@.subrange(0, n - 1));
        n = n - 1;
    }
    n
}

/// The start of the last component among the first `len` characters.
fn last_component_start_of(chars: &Vec<char>, len: usize) -> (start: usize)
    requires
        len <= chars.len(),
    ensures
        start <= len,
        start as int == last_component_start(chars@.subrange(0, len as int)),
{
    let mut k = len;
    while k > 0 && chars[k - 1] != '/'
        invariant
            k <= len <= chars.len(),
            last_component_start(chars@.subrange(0, len as int)) == last_component_start(
                chars@.subrange(0, k as int),
            ),
        decreases k,
    {
        assert(chars@.subrange(0, k as int).drop_last() =~= chars@.subrange(0, k - 1));
        k = k - 1;
    }
    k
}

fn string_of(chars: &Vec<char>, from: usize, to: usize) -> (text: String)
    requires
        from <= to <= chars.len(),
    ensures
        text@ == chars@.subrange(from as int, to as int),
{
    let mut text = String::new();
    let mut i = from;
    while i < to
        invariant
            from <= i <= to <= chars.len(),
            text@ == chars@.subrange(from as int, i as int),
        decreases to - i,
    {
        let mut one = String::new();
        push_char(&mut one, chars[i]);
        text.append(one.as_str());
        i = i + 1;
        assert(text@ =~= chars@.subrange(from as int, i as int));
    }
    text
}

/// Appends one character to a string: `String::push`.
#[verifier::external_body]
pub(crate) fn push_char(text: &mut String, c: char)
    ensures
        final(text)@ == old(text)@.push(c),
{
    text.push(c);
}

/// `std::path::Path::file_name` on Unix paths.
pub fn path_file_name(path: &str) -> (name: Option<String>)
    ensures
        name.deep_view() == file_name(path@),
{
    let chars = crate::text::chars_of(path);
    let n = strip_tail_len(&chars, chars.len());
    assert(chars@.subrange(0, chars.len() as int) =~= path@);
    let start = last_component_start_of(&chars, n);
    proof {
        let trimmed = chars@.subrange(0, n as int);
        assert(trimmed.subrange(start as int, n as int) =~= chars@.subrange(start as int, n as int));
    }
    let len = n - start;
    if len == 0 || (len == 1 && chars[start] == '.') || (len == 2 && chars[start] == '.'
        && chars[start + 1] == '.') {
        proof {
            let name = chars@.subrange(start as int, n as int);
            if len == 1 {
                assert(name =~= seq!['.']);
            }
            if len == 2 {
                assert(name =~= seq!['.', '.']);
            }
        }
        None
    } else {
        proof {
            let name = chars@.subrange(start as int, n as int);
            if len == 1 {
                assert(name != seq!['.']) by {
                    assert(name[0] != '.');
                }
            }
            if len == 2 {
                assert(name != seq!['.', '.']) by {
                    assert(name[0] != '.' || name[1] != '.');
                }
            }
        }
        Some(string_of(&chars, start, n))
    }
}

/// `std::path::Path::parent` on Unix paths.
pub fn path_parent(path: &str) -> (up: Option<String>)
    ensures
        up.deep_view() == parent(path@),
{
    let chars = crate::text::chars_of(path);
    let n = strip_tail_len(&chars, chars.len());
    assert(chars@.subrange(0, chars.len() as int) =~= path@);
    if n == 0 || (n == 1 && chars[0] == '/') {
        proof {
            if n == 1 {
                assert(chars@.subrange(0, 1) =~= seq![separator()]);
            }
        }
        return None;
    }
    proof {
        if n == 1 {
            assert(chars@.subrange(0, 1) != seq![separator()]) by {
                assert(chars@.subrange(0, 1)[0] != separator());
            }
        }
    }
    let start = last_component_start_of(&chars, n);
    assert(chars@.subrange(0, n as int).subrange(0, start as int) =~= chars@.subrange(
        0,
        start as int,
    ));
    let m = strip_tail_len(&chars, start);
    Some(string_of(&chars, 0, m))
}


/// What `std::path::Path::strip_prefix` returns for `path` and `base`: the
/// rest of `path` after the components of `base`, or `None` when `base` is
/// not a component-wise prefix of `path`.
pub uninterp spec fn stripped_prefix(path: Seq<char>, base: Seq<char>) -> Option<Seq<char>>;

/// `std::path::Path::strip_prefix`, trusted: its result (as text, `None` for
/// the error) is `stripped_prefix` of the two paths, and, as its
/// documentation says, the rest joined onto `base` yields `path` again (as
/// `==` on paths compares them).
#[verifier::external_body]
pub(crate) fn path_strip_prefix(path: &str, base: &str) -> (rest: Option<String>)
    ensures
        rest.deep_view() == stripped_prefix(path@, base@),
        rest matches Some(r) ==> same_path(path_join(base@, r@), path@),
{
    std::path::Path::new(path).strip_prefix(base).ok().map(|rest| rest.to_string_lossy().into_owned())
}

/// What `==` on `std::path::Path` answers: whether the two paths have the
/// same components.
pub uninterp spec fn same_path(left: Seq<char>, right: Seq<char>) -> bool;

/// `==` on `std::path::Path`, trusted: its answer is `same_path` of the two
/// paths.
#[verifier::external_body]
pub(crate) fn paths_equal(left: &str, right: &str) -> (equal: bool)
    ensures
        equal == same_path(left@, right@),
{
    std::path::Path::new(left) == std::path::Path::new(right)
}

/// A path with a file name has a parent.
pub(crate) proof fn lemma_file_name_has_parent(path: Seq<char>)
    requires
        has_file_name(path),
    ensures
        parent(path) is Some,
{
    let trimmed = strip_tail(path);
    if trimmed.len() == 0 {
        assert(last_component_start(trimmed) == 0);
        assert(last_component(path).len() == 0);
    } else if trimmed == seq![separator()] {
        assert(trimmed.last() == separator());
        assert(last_component_start(trimmed) == 1);
        assert(last_component(path).len() == 0);
    }
}


/// `true` for a single normal path component: not empty, no separator, and
/// neither `.` nor `..`.
pub open spec fn is_simple_name(name: Seq<char>) -> bool {
    &&& name.len() > 0
    &&& forall|i: int| 0 <= i < name.len() ==> name[i] != separator()
    &&& name != seq!['.']
    &&& name != seq!['.', '.']
}

proof fn lemma_last_component_start_after(prefix: Seq<char>, name: Seq<char>)
    requires
        prefix.len() == 0 || prefix.last() == separator(),
        forall|i: int| 0 <= i < name.len() ==> name[i] != separator(),
    ensures
        last_component_start(prefix + name) == prefix.len(),
    decreases name.len(),
{
    if name.len() == 0 {
        assert(prefix + name =~= prefix);
        if prefix.len() > 0 {
            assert(last_component_start(prefix) == prefix.len());
        }
    } else {
        assert((prefix + name).drop_last() =~= prefix + name.drop_last());
        lemma_last_component_start_after(prefix, name.drop_last());
    }
}

/// Law: a simple name joined onto any base is the file name of the result,
/// as `Path::file_name` of `PathBuf::join` gives back the pushed name.
pub proof fn lemma_file_name_of_join(base: Seq<char>, name: Seq<char>)
    requires
        is_simple_name(name),
    ensures
        file_name(path_join(base, name)) == Some(name),
{
    let joined = path_join(base, name);
    assert(!is_absolute(name)) by {
        assert(name[0] != separator());
    }
    let prefix = if base.len() == 0 || base.last() == separator() {
        base
    } else {
        base + seq![separator()]
    };
    assert(joined =~= prefix + name);
    assert(joined.last() == name.last());
    assert(joined.last() != separator());
    if joined.last() == '.' && joined.len() >= 2 && joined[joined.len() - 2] == separator() {
        if name.len() >= 2 {
            assert(joined[joined.len() - 2] == name[name.len() - 2]);
        } else {
            assert(name =~= seq!['.']);
        }
    }
    assert(strip_tail(joined) == joined);
    lemma_last_component_start_after(prefix, name);
    assert(last_component(joined) =~= name);
}


proof fn lemma_strip_tail_shape(path: Seq<char>)
    ensures
        strip_tail(path).len() <= path.len(),
        strip_tail(path).len() <= 1 || strip_tail(path).last() != separator(),
    decreases path.len(),
{
    if path.len() > 1 && path.last() == separator() {
        lemma_strip_tail_shape(path.drop_last());
    } else if path.len() >= 2 && path.last() == '.' && path[path.len() - 2] == separator() {
        lemma_strip_tail_shape(path.drop_last());
    }
}

proof fn lemma_last_component_start_bound(path: Seq<char>)
    ensures
        0 <= last_component_start(path) <= path.len(),
        path.len() > 0 && path.last() != separator() ==> last_component_start(path) < path.len(),
    decreases path.len(),
{
    if path.len() > 0 && path.last() != separator() {
        lemma_last_component_start_bound(path.drop_last());
    }
}

/// Law: a parent is shorter than the path it was taken from, so walking
/// up through parents always ends.
pub proof fn lemma_parent_is_shorter(path: Seq<char>)
    ensures
        parent(path) matches Some(up) ==> up.len() < path.len(),
{
    let trimmed = strip_tail(path);
    lemma_strip_tail_shape(path);
    if trimmed.len() > 0 && trimmed != seq![separator()] {
        let start = last_component_start(trimmed);
        lemma_last_component_start_bound(trimmed);
        if trimmed.len() == 1 {
            assert(trimmed.last() != separator()) by {
                if trimmed.last() == separator() {
                    assert(trimmed =~= seq![separator()]);
                }
            }
        }
        lemma_strip_tail_shape(trimmed.subrange(0, start));
    }
}


/// Law: the parent of a simple name joined onto a directory is that
/// directory, as `Path::parent` of `PathBuf::join` gives it back.
pub proof fn lemma_parent_of_join(base: Seq<char>, name: Seq<char>)
    requires
        is_simple_name(name),
        base.len() > 0,
        strip_tail(base) == base,
        base.last() != separator(),
    ensures
        parent(path_join(base, name)) == Some(base),
{
    let joined = path_join(base, name);
    let prefix = base + seq![separator()];
    assert(!is_absolute(name)) by {
        assert(name[0] != separator());
    }
    assert(joined =~= prefix + name);
    assert(joined.last() == name.last());
    if joined.last() == '.' && joined.len() >= 2 && joined[joined.len() - 2] == separator() {
        if name.len() >= 2 {
            assert(joined[joined.len() - 2] == name[name.len() - 2]);
        } else {
            assert(name =~= seq!['.']);
        }
    }
    assert(strip_tail(joined) == joined);
    lemma_last_component_start_after(prefix, name);
    assert(joined != seq![separator()]) by {
        assert(joined.len() >= 2);
    }
    assert(joined.subrange(0, prefix.len() as int) =~= prefix);
    assert(prefix.drop_last() =~= base);
    assert(strip_tail(prefix) == strip_tail(base));
}

/// A directory joined under a base, when it ends in a normal character, is
/// its own `strip_tail` and does not end in a separator.
pub proof fn lemma_join_ends_plainly(base: Seq<char>, child: Seq<char>)
    requires
        child.len() > 0,
        child[0] != separator(),
        child.last() != separator(),
        child.last() != '.',
    ensures
        path_join(base, child).len() > 0,
        path_join(base, child).last() != separator(),
        strip_tail(path_join(base, child)) == path_join(base, child),
{
    let joined = path_join(base, child);
    assert(!is_absolute(child));
    if base.len() == 0 || base.last() == separator() {
        assert(joined =~= base + child);
    } else {
        assert(joined =~= base + seq![separator()] + child);
    }
    assert(joined.last() == child.last());
}

} // verus!
