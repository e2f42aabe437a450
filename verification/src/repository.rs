//! Repositories by name: creating, opening, and asking where a branch is.

use vstd::prelude::*;
use vstd::string::StringExecFns;
use crate::composer::{lookup_failure, store_failure};
use crate::errors::{AppError, ErrorKind};
use crate::object_id::{hex_of, ObjectId};
use crate::paths::{is_locatable, repository_path};
use crate::store::{
    branch_into_reference, fault_message, fault_of, find_local_branch, head, init_bare, is_empty,
    open_bare, reference_target,
};

verus! {

/// Whether `r` is what opening or creating the repository called `repo_id`
/// owes: a name that cannot be located is refused as such, and any other
/// failure is the store's.
pub open spec fn is_handle_for(
    current_dir: Seq<char>,
    repo_id: Seq<char>,
    r: Result<git2::Repository, AppError>,
) -> bool {
    match r {
        Ok(_) => is_locatable(current_dir, "repositories"@, repo_id),
        Err(e) => if is_locatable(current_dir, "repositories"@, repo_id) {
            e.kind_of() == ErrorKind::ObjectStore
        } else {
            e.says(ErrorKind::InvalidPath, repo_id)
        },
    }
}

/// Creates the bare repository called `repo_id` at its location.
pub fn repo_create(current_dir: &str, repo_id: &str) -> (r: Result<git2::Repository, AppError>)
    ensures
        is_handle_for(current_dir@, repo_id@, r),
{
    let repo_path = match repository_path(current_dir, repo_id) {
        Ok(repo_path) => repo_path,
        Err(e) => {
            return Err(e);
        },
    };
    match init_bare(repo_path.as_str()) {
        Ok(repo) => Ok(repo),
        Err(error) => Err(store_failure(&error)),
    }
}

/// Opens the bare repository called `repo_id` at its location.
pub fn open_bare_repo(current_dir: &str, repo_id: &str) -> (r: Result<git2::Repository, AppError>)
    ensures
        is_handle_for(current_dir@, repo_id@, r),
{
    let repo_path = match repository_path(current_dir, repo_id) {
        Ok(repo_path) => repo_path,
        Err(e) => {
            return Err(e);
        },
    };
    match open_bare(repo_path.as_str()) {
        Ok(repo) => Ok(repo),
        Err(error) => Err(store_failure(&error)),
    }
}

/// What `HEAD` points at from what the store says of emptiness: in a
/// repository without commits `HEAD` points at no commit, and that is an
/// answer, not a failure; in any other the store has to be asked further.
pub fn head_without_commits(empty: bool) -> (answer: Option<Option<ObjectId>>)
    ensures
        empty ==> answer == Some(None::<ObjectId>),
        !empty ==> answer is None,
{
    if empty {
        Some(None)
    } else {
        None
    }
}

/// The commit that `HEAD` points at, if it points at one directly; none in
/// a repository without commits. Every failure is a failure of the store.
pub fn last_commit_id_of_repo(repo: &git2::Repository) -> (r: Result<Option<ObjectId>, AppError>)
    ensures
        r matches Err(e) ==> e.kind_of() == ErrorKind::ObjectStore,
{
    let empty = match is_empty(repo) {
        Ok(empty) => empty,
        Err(error) => {
            return Err(store_failure(&error));
        },
    };
    if let Some(answer) = head_without_commits(empty) {
        return Ok(answer);
    }
    match head(repo) {
        Ok(reference) => Ok(reference_target(&reference)),
        Err(error) => Err(store_failure(&error)),
    }
}

/// The head of a branch from the target of its reference: a branch without
/// a direct target cannot be resolved.
pub fn head_of_target(target: Option<ObjectId>, branch_name: &str) -> (r: Result<
    ObjectId,
    AppError,
>)
    ensures
        match r {
            Ok(id) => target == Some(id),
            Err(e) => target is None && e.says(ErrorKind::BranchNotFound, branch_name@),
        },
{
    match target {
        Some(id) => Ok(id),
        None => Err(AppError::BranchNotFoundError(String::from_str(branch_name))),
    }
}

/// The head of the local branch `branch_name`. The failures are a branch
/// that cannot be resolved, named in the failure, and a failure of the
/// store.
pub fn branch_head(repo: &git2::Repository, branch_name: &str) -> (r: Result<ObjectId, AppError>)
    ensures
        r matches Err(e) ==> e.kind_of() == ErrorKind::ObjectStore || e.says(
            ErrorKind::BranchNotFound,
            branch_name@,
        ),
{
    match find_local_branch(repo, branch_name) {
        Ok(branch) => {
            let reference = branch_into_reference(branch);
            head_of_target(reference_target(&reference), branch_name)
        },
        Err(error) => Err(lookup_failure(fault_of(&error), branch_name, fault_message(&error))),
    }
}

/// The head of the local branch `branch_name` as forty hexadecimal digits.
/// The failures are those of `branch_head`.
pub fn last_commit_id_of_branch(repo: &git2::Repository, branch_name: &str) -> (r: Result<
    String,
    AppError,
>)
    ensures
        match r {
            Ok(text) => exists|id: ObjectId| text@ == #[trigger] hex_of(id@),
            Err(e) => e.kind_of() == ErrorKind::ObjectStore || e.says(
                ErrorKind::BranchNotFound,
                branch_name@,
            ),
        },
{
    match branch_head(repo, branch_name) {
        Ok(id) => Ok(id.to_hex()),
        Err(e) => Err(e),
    }
}

} // verus!
