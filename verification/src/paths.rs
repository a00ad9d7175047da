//! What the library asks of the standard library's path handling: taking a
//! path apart and putting one together. Paths are texts here, so that the
//! rest of the library can speak of them in contracts. A path is cut and
//! joined at separators and dots only, so the parts of a text are texts
//! again and nothing is lost on the way back from the standard library.

use vstd::prelude::*;
use std::path::Path;

verus! {

/// An optional text as an optional sequence of characters.
pub open spec fn text_of(text: Option<String>) -> Option<Seq<char>> {
    match text {
        Some(t) => Some(t@),
        None => None,
    }
}

/// The parent of a path, as `Path::parent` gives it on the platform that the
/// library is built for: the path without its final component, or `None`
/// where it ends in a root or is empty. It depends on the path alone.
pub uninterp spec fn path_parent_of(path: Seq<char>) -> Option<Seq<char>>;

/// The file name of a path, as `Path::file_name` gives it on the platform
/// that the library is built for: the final component, or `None` where the
/// path does not end in the name of a file or directory. It depends on the
/// path alone.
pub uninterp spec fn path_file_name_of(path: Seq<char>) -> Option<Seq<char>>;

/// A path with one more component, as `Path::join` puts the two together on
/// the platform that the library is built for. It depends on the two texts
/// alone.
pub uninterp spec fn path_join_of(base: Seq<char>, tail: Seq<char>) -> Seq<char>;

/// The place of the last `.` in `name`, or -1 where it has none.
pub open spec fn last_dot(name: Seq<char>) -> int
    decreases name.len(),
{
    if name.len() == 0 {
        -1
    } else if name.last() == '.' {
        name.len() - 1
    } else {
        last_dot(name.drop_last())
    }
}

/// The extension of a file name, by the rule of `Path::extension`: what
/// follows the last `.` of the name, unless the name has no `.` or only the
/// one it begins with. The name `..` has none.
pub open spec fn extension_of_name(name: Seq<char>) -> Option<Seq<char>> {
    let dot = last_dot(name);
    if dot <= 0 || name == seq!['.', '.'] {
        None
    } else {
        Some(name.subrange(dot + 1, name.len() as int))
    }
}

/// Calls `Path::parent`. Nothing is proved of this call: the contract only
/// gives the result its name, `path_parent_of`.
#[verifier::external_body]
pub(crate) fn path_parent(path: &str) -> (parent: Option<String>)
    ensures
        text_of(parent) == path_parent_of(path@),
{
    match Path::new(path).parent() {
        Some(parent) => Some(parent.to_string_lossy().into_owned()),
        None => None,
    }
}

/// Calls `Path::file_name`. Nothing is proved of this call: the contract only
/// gives the result its name, `path_file_name_of`.
#[verifier::external_body]
pub(crate) fn path_file_name(path: &str) -> (name: Option<String>)
    ensures
        text_of(name) == path_file_name_of(path@),
{
    match Path::new(path).file_name() {
        Some(name) => Some(name.to_string_lossy().into_owned()),
        None => None,
    }
}

/// Calls `Path::join`. Nothing is proved of this call: the contract only
/// gives the result its name, `path_join_of`.
#[verifier::external_body]
pub(crate) fn path_join(base: &str, tail: &str) -> (joined: String)
    ensures
        joined@ == path_join_of(base@, tail@),
{
    Path::new(base).join(tail).to_string_lossy().into_owned()
}

/// Where nothing after place `i` is a `.`, the last `.` of `name` is at
/// `i - 1` if there is one there, and at the last `.` before it otherwise.
proof fn lemma_last_dot_found(name: Seq<char>, i: int)
    requires
        0 <= i <= name.len(),
        forall|k: int| i <= k < name.len() ==> name[k] != '.',
        i > 0 ==> name[i - 1] == '.',
    ensures
        last_dot(name) == i - 1,
    decreases name.len(),
{
    if name.len() > 0 && i < name.len() {
        lemma_last_dot_found(name.drop_last(), i);
    }
}

/// Splits the extension off a file name.
pub fn extension_of(name: &str) -> (extension: Option<String>)
    ensures
        text_of(extension) == extension_of_name(name@),
{
    let length = name.unicode_len();
    let mut i: usize = length;
    while i > 0 && name.get_char(i - 1) != '.'
        invariant
            i <= length,
            length == name@.len(),
            forall|k: int| i <= k < length ==> name@[k] != '.',
        decreases i,
    {
        i -= 1;
    }
    proof {
        lemma_last_dot_found(name@, i as int);
    }
    if i <= 1 {
        None
    } else if length == 2 && name.get_char(0) == '.' {
        assert(name@ =~= seq!['.', '.']);
        None
    } else {
        assert(name@ != seq!['.', '.']) by {
            if name@ == seq!['.', '.'] {
                assert(seq!['.', '.'].len() == 2);
                assert(seq!['.', '.'][0] == '.');
            }
        }
        Some(name.substring_char(i, length).to_owned())
    }
}

} // verus!
