//! The choice of the file to edit.
//!
//! The caller looks at the command line and at the disk; the rules for what to do with what
//! it found are here. A file named on the command line is taken as it is. Without one, the
//! directories from the root of the repository upwards are searched for a checklist, and
//! the first that has one wins; if none has, a new checklist at the root of the repository
//! is the target.

use vstd::prelude::*;

verus! {

/// A place where a checklist may be, and whether one was found there.
#[derive(Debug, PartialEq, Eq)]
pub struct Candidate {
    /// The path of the checklist.
    pub path: String,
    /// Whether a file is there.
    pub exists: bool,
}

/// What the search of a repository gave.
#[derive(Debug, PartialEq, Eq)]
pub struct Repository {
    /// The path of the checklist at the root of the repository.
    pub default_file: String,
    /// The places that were looked at, from the root of the repository upwards.
    pub candidates: Vec<Candidate>,
}

/// The file to edit, or the reason why there is none.
#[derive(Debug, PartialEq, Eq)]
pub enum Target {
    /// Edit the file at this path.
    File(String),
    /// No file was named and there is no repository to look in.
    NoRepository,
}

/// The paths of the candidates that exist, in order.
pub open spec fn existing(candidates: Seq<Candidate>) -> Seq<Seq<char>>
    decreases candidates.len(),
{
    if candidates.len() == 0 {
        Seq::empty()
    } else if candidates.last().exists {
        existing(candidates.drop_last()).push(candidates.last().path@)
    } else {
        existing(candidates.drop_last())
    }
}

/// The file that the command line names: its first argument, unless that is empty.
pub open spec fn requested(args: Seq<String>) -> Option<Seq<char>> {
    if args.len() > 1 && args[1]@.len() > 0 {
        Some(args[1]@)
    } else {
        None
    }
}

/// The file to edit: the one that the command line names; else the first checklist found
/// from the root of the repository upwards; else the checklist at the root of the
/// repository. Without a file on the command line and without a repository there is none.
pub open spec fn target_of(args: Seq<String>, repository: Option<Repository>) -> Option<
    Seq<char>,
> {
    match requested(args) {
        Some(path) => Some(path),
        None => match repository {
            Some(found) => if existing(found.candidates@).len() > 0 {
                Some(existing(found.candidates@)[0])
            } else {
                Some(found.default_file@)
            },
            None => None,
        },
    }
}

/// The views of a sequence of strings, in the same order.
pub open spec fn path_views(paths: Seq<String>) -> Seq<Seq<char>> {
    paths.map_values(|path: String| path@)
}

/// The file that the command line names, if it names one. The first entry of `args` is the
/// name of the program.
pub fn requested_file(args: &Vec<String>) -> (path: Option<String>)
    ensures
        match path {
            Some(p) => requested(args@) == Some(p@),
            None => requested(args@).is_none(),
        },
{
    if args.len() > 1 && !args[1].as_str().is_empty() {
        Some(args[1].clone())
    } else {
        None
    }
}

/// The checklists that were found among `candidates`, in the order of the search.
pub fn find_todo_files(candidates: &Vec<Candidate>) -> (todo_files: Vec<String>)
    ensures
        path_views(todo_files@) == existing(candidates@),
{
    let mut todo_files: Vec<String> = Vec::new();
    for i in 0..candidates.len()
        invariant
            path_views(todo_files@) =~= existing(candidates@.take(i as int)),
    {
        assert(candidates@.take(i + 1).drop_last() =~= candidates@.take(i as int));
        if candidates[i].exists {
            todo_files.push(candidates[i].path.clone());
        }
    }
    assert(candidates@.take(candidates@.len() as int) =~= candidates@);
    todo_files
}

/// Chooses the file to edit from the command line and, where the command line names none,
/// from what the search of the repository gave.
pub fn determine_target_file(args: &Vec<String>, repository: Option<Repository>) -> (target:
    Target)
    ensures
        match target {
            Target::File(path) => target_of(args@, repository) == Some(path@),
            Target::NoRepository => target_of(args@, repository).is_none(),
        },
{
    match requested_file(args) {
        Some(path) => Target::File(path),
        None => match repository {
            Some(found) => {
                let mut todo_files = find_todo_files(&found.candidates);
                if todo_files.len() > 0 {
                    Target::File(todo_files.swap_remove(0))
                } else {
                    Target::File(found.default_file)
                }
            },
            None => Target::NoRepository,
        },
    }
}

} // verus!
