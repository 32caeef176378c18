//! Filesystem paths as a report carries them.
//!
//! A path is kept as the platform gave it. Verified code never looks inside
//! one: it copies paths, and it asks for the text of a path through
//! `path_to_str`, whose answer is known to the proofs as `path_text`.

use std::path::PathBuf;
use vstd::prelude::*;

verus! {

/// `std::path::PathBuf`, declared so that paths can stand in fields and in
/// signatures. The verifier sees nothing of what a path holds.
#[verifier::external_type_specification]
#[verifier::external_body]
pub struct ExPathBuf(std::path::PathBuf);

/// The text of a path, as `Path::to_str` gives it: the characters of the
/// path where it is valid Unicode, and `None` where it is not.
pub uninterp spec fn path_text(path: PathBuf) -> Option<Seq<char>>;

/// `Clone::clone` of `std::path::PathBuf`: the copy is the same path as the
/// one it was taken from.
pub assume_specification[ <std::path::PathBuf as Clone>::clone ](path: &PathBuf) -> (copy: PathBuf)
    ensures
        copy == *path,
;

/// `Path::to_str`, called on the path buffer: the path as a string slice
/// where it is valid Unicode, and `None` where it is not. The answer depends
/// on the path alone; the proofs know it as `path_text` of the path.
#[verifier::external_body]
pub(crate) fn path_to_str(path: &PathBuf) -> (text: Option<&str>)
    ensures
        match text {
            Some(s) => path_text(*path) == Some(s@),
            None => path_text(*path) is None,
        },
{
    path.to_str()
}

/// The paths of an optional list, in order.
pub open spec fn paths_view(paths: Option<Vec<PathBuf>>) -> Option<Seq<PathBuf>> {
    match paths {
        Some(list) => Some(list@),
        None => None,
    }
}

/// What a line shows for the text of a path: the text, or nothing at all
/// where the path has none.
pub open spec fn text_or_empty(text: Option<Seq<char>>) -> Seq<char> {
    match text {
        Some(s) => s,
        None => Seq::empty(),
    }
}

/// Picks what to show for the text of a path: the text, or the empty string
/// where the path has none.
pub fn shown_text<'a>(text: Option<&'a str>) -> (shown: &'a str)
    ensures
        shown@ == text_or_empty(text.deep_view()),
{
    match text {
        Some(s) => s,
        None => {
            proof {
                reveal_strlit("");
            }
            ""
        },
    }
}

/// Copies an optional path.
pub fn copy_path(path: &Option<PathBuf>) -> (copy: Option<PathBuf>)
    ensures
        copy == *path,
{
    match path {
        Some(p) => Some(p.clone()),
        None => None,
    }
}

/// Copies a list of paths, one by one and in order.
pub fn copy_paths(paths: &Vec<PathBuf>) -> (copy: Vec<PathBuf>)
    ensures
        copy@ == paths@,
{
    let mut copy: Vec<PathBuf> = Vec::new();
    let mut i: usize = 0;
    while i < paths.len()
        invariant
            i <= paths.len(),
            copy@ == paths@.take(i as int),
        decreases paths.len() - i,
    {
        copy.push(paths[i].clone());
        proof {
            assert(paths@.take(i as int).push(paths@[i as int]) =~= paths@.take(i + 1));
        }
        i += 1;
    }
    proof {
        assert(paths@.take(paths.len() as int) =~= paths@);
    }
    copy
}

} // verus!
