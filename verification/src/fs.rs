//! Path handling. The path grammar is the one `std::path` implements for the
//! target platform; its results are named here and the logic above them is
//! verified against those names.

use vstd::prelude::*;
use vstd::string::*;

verus! {

/// What `Path::parent` returns for a path, read back as text.
pub uninterp spec fn path_parent(p: Seq<char>) -> Option<Seq<char>>;

/// What `Path::file_name` returns for a path, read back as text.
pub uninterp spec fn path_file_name(p: Seq<char>) -> Option<Seq<char>>;

/// The index of the last occurrence of `c` in `s`.
pub open spec fn last_index_of(s: Seq<char>, c: char) -> Option<int>
    decreases s.len(),
{
    if s.len() == 0 {
        None
    } else if s.last() == c {
        Some(s.len() - 1)
    } else {
        last_index_of(s.drop_last(), c)
    }
}

/// The stem of a file name: the part before its last `.`, or the whole name
/// where it holds no `.` other than a leading one.
pub open spec fn name_stem(name: Seq<char>) -> Seq<char> {
    match last_index_of(name, '.') {
        Some(i) => if i > 0 { name.subrange(0, i) } else { name },
        None => name,
    }
}

/// The extension of a file name: the part after its last `.`, and none
/// where it holds no `.` other than a leading one.
pub open spec fn name_extension(name: Seq<char>) -> Option<Seq<char>> {
    match last_index_of(name, '.') {
        Some(i) => if i > 0 { Some(name.subrange(i + 1, name.len() as int)) } else { None },
        None => None,
    }
}

/// What `Path::file_stem` returns for a path: the stem of its file name.
pub open spec fn path_file_stem(p: Seq<char>) -> Option<Seq<char>> {
    match path_file_name(p) {
        Some(name) => Some(name_stem(name)),
        None => None,
    }
}

/// What `Path::extension` returns for a path: the extension of its file name.
pub open spec fn path_extension(p: Seq<char>) -> Option<Seq<char>> {
    match path_file_name(p) {
        Some(name) => name_extension(name),
        None => None,
    }
}

/// What `Path::join` returns for two paths, read back as text.
pub uninterp spec fn path_join(base: Seq<char>, tail: Seq<char>) -> Seq<char>;

/// The text of an optional string.
pub open spec fn opt_text(o: Option<String>) -> Option<Seq<char>> {
    match o {
        Some(s) => Some(s@),
        None => None,
    }
}

/// Calls `Path::parent` on `p` and reads the result back with
/// `to_string_lossy`. Claims that the result is `path_parent(p)`, and, as the
/// documentation says, that the empty path has no parent.
#[verifier::external_body]
pub(crate) fn parent_of(p: &str) -> (r: Option<String>)
    ensures
        opt_text(r) == path_parent(p@),
        p@.len() == 0 ==> r is None,
{
    match std::path::Path::new(p).parent() {
        Some(q) => Some(q.to_string_lossy().into_owned()),
        None => None,
    }
}

/// Calls `Path::file_name` on `p` and reads the result back with
/// `to_string_lossy`. Claims only that the result is `path_file_name(p)`.
#[verifier::external_body]
pub(crate) fn file_name_of(p: &str) -> (r: Option<String>)
    ensures
        opt_text(r) == path_file_name(p@),
{
    match std::path::Path::new(p).file_name() {
        Some(q) => Some(q.to_string_lossy().into_owned()),
        None => None,
    }
}

/// The index of the last `c` in `s`.
fn last_index_of_char(s: &str, c: char) -> (r: Option<usize>)
    ensures
        match r {
            Some(i) => last_index_of(s@, c) == Some(i as int) && i < s@.len(),
            None => last_index_of(s@, c) is None,
        },
{
    let n = s.unicode_len();
    let mut i: usize = n;
    assert(s@.subrange(0, n as int) =~= s@);
    while i > 0
        invariant
            n == s@.len(),
            i <= n,
            last_index_of(s@, c) == last_index_of(s@.subrange(0, i as int), c),
        decreases i,
    {
        let ghost pre = s@.subrange(0, i as int);
        assert(pre.drop_last() =~= s@.subrange(0, i - 1));
        if s.get_char(i - 1) == c {
            return Some(i - 1);
        }
        i -= 1;
    }
    None
}

/// The file stem of `p`, as `Path::file_stem` gives it: the file name up to
/// its last `.`, or the whole file name where it has no `.` or only a
/// leading one; none without a file name.
pub(crate) fn file_stem_of(p: &str) -> (r: Option<String>)
    ensures
        opt_text(r) == path_file_stem(p@),
{
    match file_name_of(p) {
        None => None,
        Some(name) => match last_index_of_char(name.as_str(), '.') {
            Some(i) => if i > 0 {
                Some(String::from_str(name.as_str().substring_char(0, i)))
            } else {
                Some(name)
            },
            None => Some(name),
        },
    }
}

/// The extension of `p`, as `Path::extension` gives it: the part of the file
/// name after its last `.`; none without a file name, or where the file name
/// has no `.` or only a leading one.
pub(crate) fn extension_of(p: &str) -> (r: Option<String>)
    ensures
        opt_text(r) == path_extension(p@),
{
    match file_name_of(p) {
        None => None,
        Some(name) => match last_index_of_char(name.as_str(), '.') {
            Some(i) => if i > 0 {
                let n = name.as_str().unicode_len();
                Some(String::from_str(name.as_str().substring_char(i + 1, n)))
            } else {
                None
            },
            None => None,
        },
    }
}

/// Calls `Path::join` on `base` and `tail` and reads the result back with
/// `to_string_lossy`. Claims only that the result is `path_join(base, tail)`.
#[verifier::external_body]
pub(crate) fn join_paths(base: &str, tail: &str) -> (r: String)
    ensures
        r@ == path_join(base@, tail@),
{
    std::path::Path::new(base).join(tail).to_string_lossy().into_owned()
}

/// The parent directory of `dir`. The path must have a parent.
pub fn get_parent_path(dir: &str) -> (r: String)
    requires
        path_parent(dir@) is Some,
    ensures
        Some(r@) == path_parent(dir@),
{
    match parent_of(dir) {
        Some(p) => p,
        None => {
            proof { assert(false); }
            String::new()
        }
    }
}

/// The final component of `dir`. The path must have one.
pub fn get_filename(dir: &str) -> (r: String)
    requires
        path_file_name(dir@) is Some,
    ensures
        Some(r@) == path_file_name(dir@),
{
    match file_name_of(dir) {
        Some(p) => p,
        None => {
            proof { assert(false); }
            String::new()
        }
    }
}

/// The parent directory of `dir`, or `None` where it has none (where
/// `get_parent_path` may not be called).
pub fn checked_parent_path(dir: &str) -> (r: Option<String>)
    ensures
        opt_text(r) == path_parent(dir@),
{
    match parent_of(dir) {
        Some(_) => Some(get_parent_path(dir)),
        None => None,
    }
}

/// The final component of `dir`, or `None` where it has none (where
/// `get_filename` may not be called).
pub fn checked_filename(dir: &str) -> (r: Option<String>)
    ensures
        opt_text(r) == path_file_name(dir@),
{
    match file_name_of(dir) {
        Some(_) => Some(get_filename(dir)),
        None => None,
    }
}

} // verus!
