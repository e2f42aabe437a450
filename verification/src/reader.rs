//! The tree reader: the names directly below one tree of a branch. It reads
//! without the repository's lock.

use vstd::prelude::*;
use crate::composer::store_failure;
use crate::errors::{AppError, ErrorKind};
use crate::object_id::ObjectId;
use crate::repository::branch_head;
use crate::store::{
    commit_tree, fault_message, find_commit, find_tree, is_empty, tree_entry_id, tree_get_path,
    tree_len, tree_name_at, tree_names,
};

verus! {

/// The branch that a listing reads: `master` where none is named.
pub open spec fn effective_branch_of(branch: Seq<char>) -> Seq<char> {
    if branch.len() == 0 {
        "master"@
    } else {
        branch
    }
}

/// The branch that a listing reads.
pub fn effective_branch(branch: &str) -> (name: &str)
    ensures
        name@ == effective_branch_of(branch@),
{
    if branch.is_empty() {
        "master"
    } else {
        branch
    }
}

/// The failure of a listing whose subpath the tree does not have; it
/// carries the store's message.
pub fn subpath_failure(message: String) -> (e: AppError)
    ensures
        e.says(ErrorKind::PathNotFound, message@),
{
    AppError::PathNotFoundError(message)
}

/// The listing from what the store says of emptiness: a repository without
/// commits lists as empty, which is an answer and no failure; in any other
/// the store has to be asked further.
pub fn listing_without_commits(empty: bool) -> (names: Option<Vec<String>>)
    ensures
        empty ==> names is Some && names->0@.len() == 0,
        !empty ==> names is None,
{
    if empty {
        Some(Vec::new())
    } else {
        None
    }
}

/// The tree to list from what the store found at a subpath: the object
/// that it found there, or, where it found nothing, the failure of a
/// subpath that is not there, with the store's message.
pub fn subtree_found(found: Result<ObjectId, String>) -> (r: Result<ObjectId, AppError>)
    ensures
        match found {
            Ok(id) => r == Ok::<ObjectId, AppError>(id),
            Err(message) => r is Err && r->Err_0.says(ErrorKind::PathNotFound, message@),
        },
{
    match found {
        Ok(id) => Ok(id),
        Err(message) => Err(subpath_failure(message)),
    }
}

/// Whether `names` are the texts `texts`, one for one and in order.
pub open spec fn are_texts(names: Seq<String>, texts: Seq<Seq<char>>) -> bool {
    names.len() == texts.len() && forall|i: int|
        0 <= i < names.len() ==> (#[trigger] names[i])@ == texts[i]
}

/// The names of the entries of `tree` itself, all of them and in the tree's
/// order; what lies below an entry is not listed.
pub fn entry_names(tree: &git2::Tree<'_>) -> (names: Vec<String>)
    ensures
        are_texts(names@, tree_names(*tree)),
{
    let count = tree_len(tree);
    let mut names: Vec<String> = Vec::new();
    let mut i: usize = 0;
    while i < count
        invariant
            i <= count,
            count == tree_names(*tree).len(),
            are_texts(names@, tree_names(*tree).take(i as int)),
        decreases count - i,
    {
        if let Some(name) = tree_name_at(tree, i) {
            names.push(name);
        }
        i += 1;
    }
    assert(tree_names(*tree).take(count as int) =~= tree_names(*tree));
    names
}

/// The names of the entries directly below the root tree of the head of
/// `branch`, or below the tree at `path` in it. A repository without commits
/// lists as empty.
///
/// Whatever the store answers, what is listed is nothing or one tree's own
/// names; the failures are a branch that cannot be resolved, named in the
/// failure, a missing subpath, only where one was given, and a store failure.
pub fn list_files_of_branch(
    repo: &git2::Repository,
    branch: &str,
    path: Option<&str>,
) -> (r: Result<Vec<String>, AppError>)
    ensures
        r matches Ok(names) ==> names@.len() == 0 || lists_one_tree(names@),
        r matches Err(e) ==> {
            ||| e.kind_of() == ErrorKind::ObjectStore
            ||| e.says(ErrorKind::BranchNotFound, effective_branch_of(branch@))
            ||| (path is Some && e.kind_of() == ErrorKind::PathNotFound)
        },
{
    let empty = match is_empty(repo) {
        Ok(empty) => empty,
        Err(error) => {
            return Err(store_failure(&error));
        },
    };
    if let Some(names) = listing_without_commits(empty) {
        return Ok(names);
    }
    let commit_id = match branch_head(repo, effective_branch(branch)) {
        Ok(commit_id) => commit_id,
        Err(e) => {
            return Err(e);
        },
    };
    let commit = match find_commit(repo, &commit_id) {
        Ok(commit) => commit,
        Err(error) => {
            return Err(store_failure(&error));
        },
    };
    let commit_tree = match commit_tree(&commit) {
        Ok(tree) => tree,
        Err(error) => {
            return Err(store_failure(&error));
        },
    };
    list_tree(repo, &commit_tree, path)
}

/// Whether `names` are the names of the entries of one tree itself, all of
/// them and in that tree's order.
pub open spec fn lists_one_tree(names: Seq<String>) -> bool {
    exists|tree: git2::Tree| are_texts(names, #[trigger] tree_names(tree))
}

/// The names of the entries of `root` itself, or of the tree at `path` below
/// it. Without a path this always succeeds, with exactly the names that
/// `root` holds. With a path the store decides: a path that it does not find
/// is a subpath that is not there, with the store's message, and what it
/// finds there has to be a tree.
pub fn list_tree(repo: &git2::Repository, root: &git2::Tree<'_>, path: Option<&str>) -> (r: Result<
    Vec<String>,
    AppError,
>)
    ensures
        path is None ==> r is Ok && are_texts(r->Ok_0@, tree_names(*root)),
        r matches Ok(names) ==> lists_one_tree(names@),
        r matches Err(e) ==> e.kind_of() == ErrorKind::PathNotFound || e.kind_of()
            == ErrorKind::ObjectStore,
{
    match path {
        Some(p) => {
            let found = match tree_get_path(root, p) {
                Ok(entry) => Ok(tree_entry_id(&entry)),
                Err(error) => Err(fault_message(&error)),
            };
            let id = subtree_found(found)?;
            match find_tree(repo, &id) {
                Ok(tree) => Ok(entry_names(&tree)),
                Err(error) => Err(store_failure(&error)),
            }
        },
        None => Ok(entry_names(root)),
    }
}

} // verus!
