//! Serialised single-file commits into bare, content-addressed repositories.
//!
//! A write resolves the repository's location, takes the repository's lock,
//! composes one commit on top of the branch's head and releases the lock; a
//! listing reads one tree of a branch without taking the lock.

pub mod composer;
pub mod errors;
pub mod file;
pub mod object_id;
pub mod paths;
pub mod random;
pub mod reader;
pub mod repository;
pub mod session;
pub mod store;
pub mod validators;

pub use composer::{
    branch_tip, choose_base, commit, compose_file,
    create_file_then_commit_then_push, creation_failure, entry_for, head_tip, location_text,
    lookup_failure, make_index_entry, observe_tip, plan_commit, reopen, stage_file,
    tip_without_commits, write_commit, CommitPlan, CommitRecord, Tip, TreePolicy,
    REGULAR_FILE_MODE,
};
pub use errors::{failure, AppError, ErrorClass, ErrorKind};
pub use file::CreateFileInput;
pub use object_id::ObjectId;
pub use paths::{
    absolute_path, is_repo_locked, join_path, repo_lock_file_path, repository_path,
    resolve_location, storage_path, AbsolutePath,
};
pub use random::{random_string, uuid};
pub use reader::{
    effective_branch, entry_names, list_files_of_branch, list_tree, listing_without_commits,
    subpath_failure, subtree_found,
};
pub use repository::{
    branch_head, head_of_target, head_without_commits, last_commit_id_of_branch,
    last_commit_id_of_repo, open_bare_repo, repo_create,
};
pub use session::{
    write_step, Outcome, Phase, WriteAction, WriteEvent, WritePolicy, WriteSession,
};
pub use store::{EntryTime, StagedEntry, StoreFault};
pub use validators::{
    is_git_object_id, is_uuid, reference_name_verdict, validate_git_reference_name,
};
