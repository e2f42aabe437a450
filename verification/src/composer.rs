//! The commit composer: one commit on top of whatever the branch's head is.
//!
//! The composer never waits and never takes the repository's lock: a caller
//! composes while it holds the lock, and asks again after a conflict as the
//! write session tells it to.
//!
//! The first commit of a repository creates the branch that is named; after
//! that a named branch has to exist.

use vstd::prelude::*;
use vstd::string::{StrSliceExecFns, StringExecFns, StringSliceAdditionalSpecFns};
use crate::errors::{AppError, ErrorKind};
use crate::object_id::ObjectId;
use crate::store::{
    branch_into_reference, commit_id, commit_tree, create_commit, fault_message, fault_of,
    find_commit, find_local_branch, find_tree, head, index_add_frombuffer, index_clear,
    index_entry_of, index_read_tree, index_write_tree, is_empty, object_into_commit, open_bare,
    reference_name, reference_peel_to_commit, reference_resolve, reference_target,
    repository_index, repository_location, EntryTime, StagedEntry, StoreFault,
};

verus! {

/// The place where the next commit goes, as the store reports it.
#[derive(Clone, Debug, PartialEq, Eq)]
pub enum Tip {
    /// The repository has no commits yet; the branch that was asked for, if
    /// one was.
    Unborn { branch: Option<String> },
    /// The named branch: its full reference name and its current head.
    Branch { reference: String, head: ObjectId },
    /// No branch was named: the commit that `HEAD` leads to.
    Head { head: ObjectId },
}

/// What is handed to the store to create one commit.
#[derive(Clone, Debug, PartialEq, Eq)]
pub struct CommitPlan {
    /// The reference that will point at the new commit.
    pub reference: String,
    /// The only parent of the new commit, if it has one.
    pub parent: Option<ObjectId>,
}

/// A commit that the composer wrote, with what it was made of.
#[derive(Clone, Debug, PartialEq, Eq)]
pub struct CommitRecord {
    pub id: ObjectId,
    pub parent: Option<ObjectId>,
    pub tree: ObjectId,
    /// The commit whose tree the new tree was started from; none where the
    /// tree was started from nothing, or was given by the caller.
    pub base: Option<ObjectId>,
    pub reference: String,
    pub message: String,
}

/// The text of a name that may be absent.
pub open spec fn name_text(name: Option<String>) -> Option<Seq<char>> {
    match name {
        Some(text) => Some(text@),
        None => None,
    }
}

/// The text of a name that may be absent.
pub open spec fn name_of(name: Option<&str>) -> Option<Seq<char>> {
    match name {
        Some(text) => Some(text@),
        None => None,
    }
}

/// The full name of the reference of the local branch `branch`.
pub open spec fn branch_reference(branch: Seq<char>) -> Seq<char> {
    "refs/heads/"@ + branch
}

/// The reference that the first commit of a repository moves: that of the
/// branch asked for, or `HEAD` where none is.
pub open spec fn first_reference(branch: Option<Seq<char>>) -> Seq<char> {
    match branch {
        Some(name) => branch_reference(name),
        None => "HEAD"@,
    }
}

/// The reference that a commit on `tip` moves: the branch's own reference,
/// also where the branch gets its first commit, or `HEAD` where no branch is
/// named.
pub open spec fn planned_reference(tip: Tip) -> Seq<char> {
    match tip {
        Tip::Unborn { branch } => first_reference(name_text(branch)),
        Tip::Branch { reference, .. } => reference@,
        Tip::Head { .. } => "HEAD"@,
    }
}

/// The parent of a commit on `tip`: none in a repository without commits,
/// else the head that the store reported.
pub open spec fn planned_parent(tip: Tip) -> Option<ObjectId> {
    match tip {
        Tip::Unborn { .. } => None,
        Tip::Branch { head, .. } => Some(head),
        Tip::Head { head } => Some(head),
    }
}

/// Whether `tip` can be reported where the branch `branch` is asked for, or
/// none is: a tip without commits carries what was asked for, a branch's tip
/// needs a branch, and the tip of `HEAD` needs that none is asked for.
pub open spec fn fits_branch(tip: Tip, branch: Option<Seq<char>>) -> bool {
    match tip {
        Tip::Unborn { branch: asked } => name_text(asked) == branch,
        Tip::Branch { .. } => branch is Some,
        Tip::Head { .. } => branch is None,
    }
}

/// The plan of the commit that goes on `tip`.
pub fn plan_commit(tip: Tip) -> (plan: CommitPlan)
    ensures
        plan.reference@ == planned_reference(tip),
        plan.parent == planned_parent(tip),
{
    match tip {
        Tip::Unborn { branch: Some(name) } => {
            let mut reference = String::from_str("refs/heads/");
            reference.append(name.as_str());
            CommitPlan { reference, parent: None }
        },
        Tip::Unborn { branch: None } => CommitPlan {
            reference: String::from_str("HEAD"),
            parent: None,
        },
        Tip::Branch { reference, head } => CommitPlan { reference, parent: Some(head) },
        Tip::Head { head } => CommitPlan {
            reference: String::from_str("HEAD"),
            parent: Some(head),
        },
    }
}

/// The kind of the failure that a fault of the store becomes when it is met
/// while the branch `branch` is looked up.
pub open spec fn lookup_failure_kind(fault: StoreFault) -> ErrorKind {
    if fault == StoreFault::NotFound {
        ErrorKind::BranchNotFound
    } else {
        ErrorKind::ObjectStore
    }
}

/// The failure of looking up `branch`: the branch is not there, and the
/// failure names it, or the store failed, and the failure carries the
/// store's message.
pub fn lookup_failure(fault: StoreFault, branch: &str, message: String) -> (e: AppError)
    ensures
        e.kind_of() == lookup_failure_kind(fault),
        e.text_of() == (if fault == StoreFault::NotFound {
            branch@
        } else {
            message@
        }),
{
    match fault {
        StoreFault::NotFound => AppError::BranchNotFoundError(String::from_str(branch)),
        _ => AppError::ObjectStoreError(message),
    }
}

/// Whether a fault of the store, met while the commit is created, means
/// that the branch moved under the composer.
pub open spec fn is_conflict(fault: StoreFault) -> bool {
    fault == StoreFault::Modified || fault == StoreFault::Locked
}

/// The failure of creating the commit: a conflict where the reference moved
/// or is held, else a failure of the store; either carries the store's
/// message.
pub fn creation_failure(fault: StoreFault, message: String) -> (e: AppError)
    ensures
        e.kind_of() == (if is_conflict(fault) {
            ErrorKind::CommitConflict
        } else {
            ErrorKind::ObjectStore
        }),
        e.text_of() == message@,
{
    match fault {
        StoreFault::Modified | StoreFault::Locked => AppError::CommitConflictError(message),
        _ => AppError::ObjectStoreError(message),
    }
}

/// A failure of the store with the store's own message.
pub(crate) fn store_failure(error: &git2::Error) -> (e: AppError)
    ensures
        e.kind_of() == ErrorKind::ObjectStore,
{
    AppError::ObjectStoreError(fault_message(error))
}

/// The tip from what the store says of emptiness: in a repository without
/// commits the tip is not born yet and carries the branch that is asked for;
/// in any other the store has to be asked further.
pub fn tip_without_commits(empty: bool, branch_name: Option<&str>) -> (tip: Option<Tip>)
    ensures
        match tip {
            Some(unborn) => empty && unborn is Unborn && fits_branch(unborn, name_of(branch_name)),
            None => !empty,
        },
{
    if !empty {
        return None;
    }
    match branch_name {
        Some(name) => Some(Tip::Unborn { branch: Some(String::from_str(name)) }),
        None => Some(Tip::Unborn { branch: None }),
    }
}

/// The tip of the named branch from what its reference holds: the branch
/// needs a name and a direct target, else it cannot be resolved.
pub fn branch_tip(name: Option<String>, target: Option<ObjectId>, branch: &str) -> (r: Result<
    Tip,
    AppError,
>)
    ensures
        match r {
            Ok(tip) => name is Some && target is Some && tip == (Tip::Branch {
                reference: name->0,
                head: target->0,
            }),
            Err(e) => (name is None || target is None) && e.says(
                ErrorKind::BranchNotFound,
                branch@,
            ),
        },
{
    match (name, target) {
        (Some(reference), Some(head)) => Ok(Tip::Branch { reference, head }),
        _ => Err(AppError::BranchNotFoundError(String::from_str(branch))),
    }
}

/// The tip of `HEAD` from the commit that `HEAD` leads to: without such a
/// commit the store has failed.
pub fn head_tip(commit: Option<ObjectId>) -> (r: Result<Tip, AppError>)
    ensures
        match r {
            Ok(tip) => commit is Some && tip == (Tip::Head { head: commit->0 }),
            Err(e) => commit is None && e.says(
                ErrorKind::ObjectStore,
                "HEAD does not lead to a commit"@,
            ),
        },
{
    match commit {
        Some(head) => Ok(Tip::Head { head }),
        None => Err(AppError::ObjectStoreError(String::from_str("HEAD does not lead to a commit"))),
    }
}

/// The place of a repository as text: a place that is not text cannot be
/// opened again.
pub fn location_text(location: Option<String>) -> (r: Result<String, AppError>)
    ensures
        match r {
            Ok(text) => location == Some(text),
            Err(e) => location is None && e.says(
                ErrorKind::InvalidPath,
                "repository location is not text"@,
            ),
        },
{
    match location {
        Some(text) => Ok(text),
        None => Err(
            AppError::InvalidPathError(String::from_str("repository location is not text")),
        ),
    }
}

/// Asks the store where the next commit goes: nowhere yet in a repository
/// without commits, else on the named branch, else on `HEAD`.
///
/// Whatever the store answers, the tip fits what was asked for: a tip that
/// is not born carries the branch that was named, a branch's tip comes only
/// for a named branch, and the tip of `HEAD` only without one. The only
/// failures are a branch that cannot be resolved, named in the failure, and
/// a failure of the store.
pub fn observe_tip(repo: &git2::Repository, branch_name: Option<&str>) -> (r: Result<
    Tip,
    AppError,
>)
    ensures
        match r {
            Ok(tip) => fits_branch(tip, name_of(branch_name)),
            Err(e) => e.kind_of() == ErrorKind::ObjectStore || (branch_name is Some && e.says(
                ErrorKind::BranchNotFound,
                branch_name->0@,
            )),
        },
{
    let empty = match is_empty(repo) {
        Ok(empty) => empty,
        Err(error) => {
            return Err(store_failure(&error));
        },
    };
    if let Some(tip) = tip_without_commits(empty, branch_name) {
        return Ok(tip);
    }
    match branch_name {
        Some(branch) => match find_local_branch(repo, branch) {
            Ok(found) => {
                let reference = branch_into_reference(found);
                branch_tip(reference_name(&reference), reference_target(&reference), branch)
            },
            Err(error) => Err(lookup_failure(fault_of(&error), branch, fault_message(&error))),
        },
        None => {
            let symbolic = match head(repo) {
                Ok(reference) => reference,
                Err(error) => {
                    return Err(store_failure(&error));
                },
            };
            let direct = match reference_resolve(&symbolic) {
                Ok(reference) => reference,
                Err(error) => {
                    return Err(store_failure(&error));
                },
            };
            let object = match reference_peel_to_commit(&direct) {
                Ok(object) => object,
                Err(error) => {
                    return Err(store_failure(&error));
                },
            };
            match object_into_commit(object) {
                Some(commit) => head_tip(Some(commit_id(&commit))),
                None => head_tip(None),
            }
        },
    }
}

/// Opens the repository afresh, so that what is read is what is on disk
/// now. The failures are a location that is not text and a failure of the
/// store.
pub fn reopen(repo: &git2::Repository) -> (r: Result<git2::Repository, AppError>)
    ensures
        r matches Err(e) ==> e.kind_of() == ErrorKind::ObjectStore || e.says(
            ErrorKind::InvalidPath,
            "repository location is not text"@,
        ),
{
    let location = location_text(repository_location(repo))?;
    match open_bare(location.as_str()) {
        Ok(fresh) => Ok(fresh),
        Err(error) => Err(store_failure(&error)),
    }
}

/// Whether `record` is the commit that `plan` asks for, made of the tree
/// `tree` and the message `message`, with `base` as the commit whose tree
/// the tree was started from.
pub open spec fn is_written(
    record: CommitRecord,
    plan: CommitPlan,
    base: Option<ObjectId>,
    tree: ObjectId,
    message: Seq<char>,
) -> bool {
    &&& record.parent == plan.parent
    &&& record.reference@ == plan.reference@
    &&& record.base == base
    &&& record.tree == tree
    &&& record.message@ == message
}

/// Hands one commit to the store as `plan` says: the tree `tree_id`, the
/// message, the two identities, the plan's parent and nothing else as
/// parents, and the plan's reference to move. The store moves the reference
/// only if the parent is still its tip.
///
/// Whatever the store answers, a commit that was written is the one that
/// was planned, and the failures are a conflict and a failure of the store.
pub fn write_commit(
    repo: &git2::Repository,
    plan: CommitPlan,
    base: Option<ObjectId>,
    tree_id: &ObjectId,
    author_signature: &git2::Signature<'_>,
    committer_signature: &git2::Signature<'_>,
    message: &str,
) -> (r: Result<CommitRecord, AppError>)
    ensures
        match r {
            Ok(record) => is_written(record, plan, base, *tree_id, message@),
            Err(e) => e.kind_of() == ErrorKind::ObjectStore || e.kind_of()
                == ErrorKind::CommitConflict,
        },
{
    let tree = match find_tree(repo, tree_id) {
        Ok(tree) => tree,
        Err(error) => {
            return Err(store_failure(&error));
        },
    };
    let created = match plan.parent {
        Some(parent_id) => {
            let parent = match find_commit(repo, &parent_id) {
                Ok(parent) => parent,
                Err(error) => {
                    return Err(store_failure(&error));
                },
            };
            create_commit(
                repo,
                plan.reference.as_str(),
                author_signature,
                committer_signature,
                message,
                &tree,
                Some(&parent),
            )
        },
        None => create_commit(
            repo,
            plan.reference.as_str(),
            author_signature,
            committer_signature,
            message,
            &tree,
            None,
        ),
    };
    match created {
        Ok(id) => Ok(
            CommitRecord {
                id,
                parent: plan.parent,
                tree: *tree_id,
                base,
                reference: plan.reference,
                message: String::from_str(message),
            },
        ),
        Err(error) => Err(creation_failure(fault_of(&error), fault_message(&error))),
    }
}

/// Whether `record` has the parent and the reference that `plan_commit`
/// plans for some tip that fits `branch`.
pub open spec fn is_planned(record: CommitRecord, branch: Option<Seq<char>>) -> bool {
    exists|tip: Tip|
        fits_branch(tip, branch) && record.parent == #[trigger] planned_parent(tip)
            && record.reference@ == planned_reference(tip)
}

/// Composes one commit of the tree `index_tree_id` and says what it was made
/// of. The repository is opened afresh, so that the tip is the one on disk
/// now; the commit goes where `plan_commit` says for that tip, and the store
/// moves the reference only if the parent is still its tip.
///
/// Whatever the store answers: a commit that was written has the given tree
/// and message, no base, and the parent and the reference that `plan_commit`
/// plans for some tip that fits `branch_name`. So a commit without a parent
/// moves the reference of the branch that was named, or `HEAD` where none
/// was. The failures are those of `observe_tip`, a conflict, and a location
/// that is not text.
pub fn commit(
    repo: &git2::Repository,
    branch_name: Option<&str>,
    index_tree_id: &ObjectId,
    author_signature: &git2::Signature<'_>,
    committer_signature: &git2::Signature<'_>,
    message: &str,
) -> (r: Result<CommitRecord, AppError>)
    ensures
        match r {
            Ok(record) => {
                &&& record.tree == *index_tree_id
                &&& record.message@ == message@
                &&& record.base is None
                &&& is_planned(record, name_of(branch_name))
                &&& branch_name is None ==> record.reference@ == "HEAD"@
                &&& record.parent is None ==> record.reference@ == first_reference(
                    name_of(branch_name),
                )
            },
            Err(e) => {
                ||| e.kind_of() == ErrorKind::ObjectStore
                ||| e.kind_of() == ErrorKind::CommitConflict
                ||| e.kind_of() == ErrorKind::InvalidPath
                ||| (branch_name is Some && e.says(ErrorKind::BranchNotFound, branch_name->0@))
            },
        },
{
    let fresh = reopen(repo)?;
    let tip = observe_tip(&fresh, branch_name)?;
    let ghost seen = tip;
    let written = write_commit(
        &fresh,
        plan_commit(tip),
        None,
        index_tree_id,
        author_signature,
        committer_signature,
        message,
    );
    proof {
        if written is Ok {
            assert(written->Ok_0.parent == planned_parent(seen));
        }
    }
    written
}

/// One commit of a branch: its identifier and its parent.
pub struct Link {
    pub id: ObjectId,
    pub parent: Option<ObjectId>,
}

/// The tip that the store reports where the branch `branch` is asked for
/// and has the commits `history`, oldest first, under the reference name
/// `reference`.
pub open spec fn tip_of(history: Seq<Link>, branch: String, reference: String) -> Tip {
    if history.len() == 0 {
        Tip::Unborn { branch: Some(branch) }
    } else {
        Tip::Branch { reference, head: history.last().id }
    }
}

/// The head of a branch with the commits `history`.
pub open spec fn head_of(history: Seq<Link>) -> Option<ObjectId> {
    if history.len() == 0 {
        None
    } else {
        Some(history.last().id)
    }
}

/// The history after one more commit, called `id`, was composed on the tip
/// of the branch as `plan_commit` plans it.
pub open spec fn extended(
    history: Seq<Link>,
    branch: String,
    reference: String,
    id: ObjectId,
) -> Seq<Link> {
    history.push(Link { id, parent: planned_parent(tip_of(history, branch, reference)) })
}

/// A history in which the first commit has no parent and every other
/// commit has the commit before it as its parent.
pub open spec fn is_chain(history: Seq<Link>) -> bool {
    forall|i: int|
        0 <= i < history.len() ==> (#[trigger] history[i]).parent == (if i == 0 {
            None
        } else {
            Some(history[i - 1].id)
        })
}

/// Chain integrity: the commit planned on an empty branch has no parent,
/// the commit planned on any other has the head just before it as its only
/// parent, and it becomes the head; so a chain stays a chain.
pub proof fn lemma_commits_form_a_chain(
    history: Seq<Link>,
    branch: String,
    reference: String,
    id: ObjectId,
)
    requires
        is_chain(history),
    ensures
        is_chain(extended(history, branch, reference, id)),
        extended(history, branch, reference, id).last().parent == head_of(history),
        history.len() == 0 ==> extended(history, branch, reference, id).last().parent is None,
        head_of(extended(history, branch, reference, id)) == Some(id),
        extended(history, branch, reference, id).len() == history.len() + 1,
        fits_branch(tip_of(history, branch, reference), Some(branch@)),
        history.len() == 0 ==> planned_reference(tip_of(history, branch, reference))
            == branch_reference(branch@),
{
    let longer = extended(history, branch, reference, id);
    assert forall|i: int| 0 <= i < longer.len() implies (#[trigger] longer[i]).parent == (if i
        == 0 {
        None
    } else {
        Some(longer[i - 1].id)
    }) by {
        if i < history.len() {
            assert(longer[i] == history[i]);
        }
    }
}

/// The history of a branch on which the commits `ids` were composed one
/// after the other, each on the tip that the one before it left.
pub open spec fn composed_history(ids: Seq<ObjectId>, branch: String, reference: String) -> Seq<
    Link,
>
    decreases ids.len(),
{
    if ids.len() == 0 {
        Seq::empty()
    } else {
        extended(
            composed_history(ids.drop_last(), branch, reference),
            branch,
            reference,
            ids.last(),
        )
    }
}

/// Chain integrity of a whole history: however many commits are composed
/// one after the other, the first has no parent, every other has the one
/// before it as its parent, and the last is the head.
pub proof fn lemma_composed_history_is_a_chain(
    ids: Seq<ObjectId>,
    branch: String,
    reference: String,
)
    ensures
        is_chain(composed_history(ids, branch, reference)),
        composed_history(ids, branch, reference).len() == ids.len(),
        forall|i: int|
            0 <= i < ids.len() ==> (#[trigger] composed_history(ids, branch, reference)[i]).id
                == ids[i],
        ids.len() > 0 ==> head_of(composed_history(ids, branch, reference)) == Some(ids.last()),
    decreases ids.len(),
{
    if ids.len() > 0 {
        let earlier = composed_history(ids.drop_last(), branch, reference);
        lemma_composed_history_is_a_chain(ids.drop_last(), branch, reference);
        lemma_commits_form_a_chain(earlier, branch, reference, ids.last());
        assert forall|i: int| 0 <= i < ids.len() implies (#[trigger] composed_history(
            ids,
            branch,
            reference,
        )[i]).id == ids[i] by {
            if i < ids.len() - 1 {
                assert(composed_history(ids, branch, reference)[i] == earlier[i]);
                assert(ids.drop_last()[i] == ids[i]);
            }
        }
    }
}

/// How the tree of a new commit is made. Merging is what a write does
/// unless it is asked otherwise, so that a branch keeps the files written
/// before; replacing gives every commit a tree of one file, with the earlier
/// files left in the history only.
#[derive(Clone, Copy, Debug, PartialEq, Eq, Structural)]
pub enum TreePolicy {
    /// The tree of the branch's head with the one file added or replaced.
    MergeIntoHead,
    /// A tree that holds the one file and nothing else.
    ReplaceTree,
}

/// The commit whose tree the new tree starts from: the head that the store
/// reported where files are merged, none where the tree is replaced or no
/// commit exists yet.
pub open spec fn base_commit(policy: TreePolicy, tip: Tip) -> Option<ObjectId> {
    match policy {
        TreePolicy::MergeIntoHead => planned_parent(tip),
        TreePolicy::ReplaceTree => None,
    }
}

/// The commit whose tree the new tree starts from.
pub fn choose_base(policy: TreePolicy, tip: &Tip) -> (base: Option<ObjectId>)
    ensures
        base == base_commit(policy, *tip),
{
    match policy {
        TreePolicy::ReplaceTree => None,
        TreePolicy::MergeIntoHead => match tip {
            Tip::Unborn { .. } => None,
            Tip::Branch { head, .. } => Some(*head),
            Tip::Head { head } => Some(*head),
        },
    }
}

/// The mode of a regular file that is not executable.
pub const REGULAR_FILE_MODE: u32 = 0o100644;

/// Whether `entry` is, but for its path, the entry of a regular file of
/// which nothing is known yet: the mode of a regular file, an identifier of
/// twenty zero bytes, and zero in every other field.
pub open spec fn is_blank_entry(entry: StagedEntry) -> bool {
    &&& entry.mode == REGULAR_FILE_MODE
    &&& entry.ctime == (EntryTime { seconds: 0, nanoseconds: 0 })
    &&& entry.mtime == (EntryTime { seconds: 0, nanoseconds: 0 })
    &&& entry.dev == 0 && entry.ino == 0 && entry.uid == 0 && entry.gid == 0
    &&& entry.file_size == 0 && entry.flags == 0 && entry.flags_extended == 0
    &&& entry.id@ == Seq::new(20, |i: int| 0u8)
}

/// The entry of a regular file that has no path and no content yet: the
/// mode of a regular file, and zero everywhere else.
pub fn make_index_entry() -> (entry: StagedEntry)
    ensures
        is_blank_entry(entry),
        entry.path@ == Seq::<u8>::empty(),
{
    let entry = StagedEntry {
        ctime: EntryTime { seconds: 0, nanoseconds: 0 },
        mtime: EntryTime { seconds: 0, nanoseconds: 0 },
        dev: 0,
        ino: 0,
        mode: REGULAR_FILE_MODE,
        uid: 0,
        gid: 0,
        file_size: 0,
        id: ObjectId::zero(),
        flags: 0,
        flags_extended: 0,
        path: Vec::new(),
    };
    assert(entry.id@ =~= Seq::new(20, |i: int| 0u8));
    entry
}

/// The entry under which the file at `file_path` is staged: that of
/// `make_index_entry` with the bytes of the path.
pub fn entry_for(file_path: &str) -> (entry: StagedEntry)
    ensures
        is_blank_entry(entry),
        entry.path@ == file_path.spec_bytes(),
{
    let mut entry = make_index_entry();
    entry.path = file_path.as_bytes_vec();
    entry
}

/// Stages the one file on top of the tree of the commit `base`, or on an
/// emptied staging area, writes the tree and gives its identifier. Every
/// failure is a failure of the store.
pub fn stage_file(
    repo: &git2::Repository,
    base: Option<ObjectId>,
    file_path: &str,
    file_content: &str,
) -> (r: Result<ObjectId, AppError>)
    ensures
        r matches Err(e) ==> e.kind_of() == ErrorKind::ObjectStore,
{
    let mut index = match repository_index(repo) {
        Ok(index) => index,
        Err(error) => {
            return Err(store_failure(&error));
        },
    };
    match base {
        Some(base_id) => {
            let commit = match find_commit(repo, &base_id) {
                Ok(commit) => commit,
                Err(error) => {
                    return Err(store_failure(&error));
                },
            };
            let tree = match commit_tree(&commit) {
                Ok(tree) => tree,
                Err(error) => {
                    return Err(store_failure(&error));
                },
            };
            if let Err(error) = index_read_tree(&mut index, &tree) {
                return Err(store_failure(&error));
            }
        },
        None => {
            if let Err(error) = index_clear(&mut index) {
                return Err(store_failure(&error));
            }
        },
    }
    let entry = match index_entry_of(&entry_for(file_path)) {
        Ok(entry) => entry,
        Err(error) => {
            return Err(store_failure(&error));
        },
    };
    if let Err(error) = index_add_frombuffer(&mut index, &entry, file_content.as_bytes()) {
        return Err(store_failure(&error));
    }
    match index_write_tree(&mut index) {
        Ok(tree_id) => Ok(tree_id),
        Err(error) => Err(store_failure(&error)),
    }
}

/// Whether `record` has the parent and the reference that `plan_commit`
/// plans for some tip of the branch `branch`, and as its base the commit
/// that `policy` takes from that same tip.
pub open spec fn is_composed(record: CommitRecord, branch: Seq<char>, policy: TreePolicy) -> bool {
    exists|tip: Tip|
        fits_branch(tip, Some(branch)) && record.parent == #[trigger] planned_parent(tip)
            && record.reference@ == planned_reference(tip) && record.base == base_commit(
            policy,
            tip,
        )
}

/// One composition under the repository's lock: looks once at the tip of
/// `branch`, stages the file on the base that `policy` takes from that tip,
/// and commits the tree on that tip.
///
/// Whatever the store answers: a commit that was written has the given
/// message, and the parent, the reference and the base that belong to one
/// tip of the branch. So where files are merged the tree was started from
/// the parent's tree, where the tree is replaced it was started from
/// nothing, and a commit without a parent moves the branch's own reference.
/// The failures are a branch that the store does not have, named in the
/// failure, a conflict, a store failure, and a location that is not text.
pub fn compose_file(
    repo: &git2::Repository,
    file_path: &str,
    file_content: &str,
    branch: &str,
    author_signature: &git2::Signature<'_>,
    committer_signature: &git2::Signature<'_>,
    commit_message: &str,
    policy: TreePolicy,
) -> (r: Result<CommitRecord, AppError>)
    ensures
        r matches Ok(record) ==> {
            &&& record.message@ == commit_message@
            &&& is_composed(record, branch@, policy)
            &&& policy == TreePolicy::MergeIntoHead ==> record.base == record.parent
            &&& policy == TreePolicy::ReplaceTree ==> record.base is None
            &&& record.parent is None ==> record.reference@ == branch_reference(branch@)
        },
        r matches Err(e) ==> {
            ||| e.kind_of() == ErrorKind::ObjectStore
            ||| e.kind_of() == ErrorKind::CommitConflict
            ||| e.kind_of() == ErrorKind::InvalidPath
            ||| e.says(ErrorKind::BranchNotFound, branch@)
        },
{
    let fresh = reopen(repo)?;
    let tip = observe_tip(&fresh, Some(branch))?;
    let ghost seen = tip;
    let base = choose_base(policy, &tip);
    let tree_id = stage_file(&fresh, base, file_path, file_content)?;
    let written = write_commit(
        &fresh,
        plan_commit(tip),
        base,
        &tree_id,
        author_signature,
        committer_signature,
        commit_message,
    );
    proof {
        if written is Ok {
            assert(written->Ok_0.parent == planned_parent(seen));
        }
    }
    written
}

/// One composition that keeps the files of the branch's head: `compose_file`
/// with the files merged. The caller holds the repository's lock, and
/// releases it whatever this returns.
///
/// Whatever the store answers: a commit that was written has the given
/// message, the branch's tip as its parent, and a tree that was started from
/// that parent's tree; the first commit of a repository has no parent,
/// starts from nothing and moves the branch's own reference.
pub fn create_file_then_commit_then_push(
    repo: &git2::Repository,
    file_path: &str,
    file_content: &str,
    branch: &str,
    author_signature: &git2::Signature<'_>,
    committer_signature: &git2::Signature<'_>,
    commit_message: &str,
) -> (r: Result<CommitRecord, AppError>)
    ensures
        r matches Ok(record) ==> {
            &&& record.message@ == commit_message@
            &&& is_composed(record, branch@, TreePolicy::MergeIntoHead)
            &&& record.base == record.parent
            &&& record.parent is None ==> record.reference@ == branch_reference(branch@)
        },
        r matches Err(e) ==> {
            ||| e.kind_of() == ErrorKind::ObjectStore
            ||| e.kind_of() == ErrorKind::CommitConflict
            ||| e.kind_of() == ErrorKind::InvalidPath
            ||| e.says(ErrorKind::BranchNotFound, branch@)
        },
{
    compose_file(
        repo,
        file_path,
        file_content,
        branch,
        author_signature,
        committer_signature,
        commit_message,
        TreePolicy::MergeIntoHead,
    )
}

} // verus!
