//! The object store: the outside functions that the components call, each
//! behind one function whose contract is believed, not proved.
//!
//! What the store answers depends on what is on disk, so almost none of
//! these functions promises anything of its result: the callers are verified
//! for every answer.

use vstd::prelude::*;
use crate::object_id::ObjectId;

verus! {

/// `git2::Repository`: an open repository.
#[verifier::external_type_specification]
#[verifier::external_body]
pub struct ExRepository(git2::Repository);

/// `git2::Error`: a failure of the store.
#[verifier::external_type_specification]
#[verifier::external_body]
pub struct ExStoreError(git2::Error);

/// `git2::Reference`: a named pointer of the repository.
#[verifier::external_type_specification]
#[verifier::external_body]
pub struct ExReference<'repo>(git2::Reference<'repo>);

/// `git2::Branch`: a reference that is a branch.
#[verifier::external_type_specification]
#[verifier::external_body]
pub struct ExBranch<'repo>(git2::Branch<'repo>);

/// `git2::Object`: an object of any type.
#[verifier::external_type_specification]
#[verifier::external_body]
pub struct ExObject<'repo>(git2::Object<'repo>);

/// `git2::Commit`: a commit.
#[verifier::external_type_specification]
#[verifier::external_body]
pub struct ExCommit<'repo>(git2::Commit<'repo>);

/// `git2::Tree`: a tree.
#[verifier::external_type_specification]
#[verifier::external_body]
pub struct ExTree<'repo>(git2::Tree<'repo>);

/// `git2::TreeEntry`: one entry of a tree.
#[verifier::external_type_specification]
#[verifier::external_body]
pub struct ExTreeEntry<'tree>(git2::TreeEntry<'tree>);

/// `git2::Index`: a staging area.
#[verifier::external_type_specification]
#[verifier::external_body]
pub struct ExIndex(git2::Index);

/// `git2::IndexEntry`: one staged file.
#[verifier::external_type_specification]
#[verifier::external_body]
pub struct ExIndexEntry(git2::IndexEntry);

/// `git2::Signature`: who wrote or committed, and when.
#[verifier::external_type_specification]
#[verifier::external_body]
pub struct ExSignature<'a>(git2::Signature<'a>);

/// `git2::Oid`: the store's own form of an object's identifier.
#[verifier::external_type_specification]
#[verifier::external_body]
pub struct ExOid(git2::Oid);

/// A time of a staged file.
#[derive(Clone, Copy, Debug, PartialEq, Eq, Structural)]
pub struct EntryTime {
    pub seconds: i32,
    pub nanoseconds: u32,
}

/// One file as it is staged: the fields of an entry of the store's staging
/// area, as plain values.
#[derive(Clone, Debug, PartialEq, Eq)]
pub struct StagedEntry {
    pub ctime: EntryTime,
    pub mtime: EntryTime,
    pub dev: u32,
    pub ino: u32,
    pub mode: u32,
    pub uid: u32,
    pub gid: u32,
    pub file_size: u32,
    pub id: ObjectId,
    pub flags: u16,
    pub flags_extended: u16,
    pub path: Vec<u8>,
}

/// What the components need to know of a failure of the store.
#[derive(Clone, Copy, Debug, PartialEq, Eq, Structural)]
pub enum StoreFault {
    /// The object or reference asked for is not there.
    NotFound,
    /// The reference no longer points where the caller believed.
    Modified,
    /// Another writer holds the store's own lock on the reference.
    Locked,
    /// Anything else.
    Other,
}

/// `git2::Repository::init_bare`: creates a bare repository at `path`. The
/// answer depends on the disk; nothing is claimed of it.
#[verifier::external_body]
pub(crate) fn init_bare(path: &str) -> Result<git2::Repository, git2::Error> {
    git2::Repository::init_bare(path)
}

/// `git2::Repository::open_bare`: opens the bare repository at `path`. The
/// answer depends on the disk; nothing is claimed of it.
#[verifier::external_body]
pub(crate) fn open_bare(path: &str) -> Result<git2::Repository, git2::Error> {
    git2::Repository::open_bare(path)
}

/// `git2::Repository::path`: where the repository lies, or `None` where that
/// path is not UTF-8. Nothing is claimed of the text.
#[verifier::external_body]
pub(crate) fn repository_location(repo: &git2::Repository) -> Option<String> {
    repo.path().to_str().map(String::from)
}

/// `git2::Repository::is_empty`: whether the repository has no commits yet.
/// The answer depends on the disk; nothing is claimed of it.
#[verifier::external_body]
pub(crate) fn is_empty(repo: &git2::Repository) -> Result<bool, git2::Error> {
    repo.is_empty()
}

/// `git2::Repository::head`: the reference that `HEAD` points at. The answer
/// depends on the disk; nothing is claimed of it.
#[verifier::external_body]
pub(crate) fn head<'r>(repo: &'r git2::Repository) -> Result<git2::Reference<'r>, git2::Error> {
    repo.head()
}

/// `git2::Repository::find_branch`, for local branches: the branch called
/// `name`. The answer depends on the disk; nothing is claimed of it.
#[verifier::external_body]
pub(crate) fn find_local_branch<'r>(repo: &'r git2::Repository, name: &str) -> Result<
    git2::Branch<'r>,
    git2::Error,
> {
    repo.find_branch(name, git2::BranchType::Local)
}

/// `git2::Branch::into_reference`: the reference that the branch is.
#[verifier::external_body]
pub(crate) fn branch_into_reference<'r>(branch: git2::Branch<'r>) -> git2::Reference<'r> {
    branch.into_reference()
}

/// `git2::Reference::target`: the object that a direct reference points at,
/// `None` for a symbolic one. Nothing is claimed of the identifier.
#[verifier::external_body]
pub(crate) fn reference_target(reference: &git2::Reference<'_>) -> Option<ObjectId> {
    reference.target().map(object_id_of)
}

/// `git2::Reference::name`: the full name of the reference, `None` where it
/// is not UTF-8. Nothing is claimed of the text.
#[verifier::external_body]
pub(crate) fn reference_name(reference: &git2::Reference<'_>) -> Option<String> {
    reference.name().map(String::from)
}

/// `git2::Reference::resolve`: the direct reference at the end of a chain of
/// symbolic ones. The answer depends on the disk; nothing is claimed of it.
#[verifier::external_body]
pub(crate) fn reference_resolve<'r>(reference: &git2::Reference<'r>) -> Result<
    git2::Reference<'r>,
    git2::Error,
> {
    reference.resolve()
}

/// `git2::Reference::peel`, asking for a commit: the commit that the
/// reference leads to. The answer depends on the disk; nothing is claimed.
#[verifier::external_body]
pub(crate) fn reference_peel_to_commit<'r>(reference: &git2::Reference<'r>) -> Result<
    git2::Object<'r>,
    git2::Error,
> {
    reference.peel(git2::ObjectType::Commit)
}

/// `git2::Object::into_commit`: the object as a commit, `None` where it is
/// of another type.
#[verifier::external_body]
pub(crate) fn object_into_commit<'r>(object: git2::Object<'r>) -> Option<git2::Commit<'r>> {
    object.into_commit().ok()
}

/// `git2::Commit::id`: the identifier of the commit. Nothing is claimed of
/// it.
#[verifier::external_body]
pub(crate) fn commit_id(commit: &git2::Commit<'_>) -> ObjectId {
    object_id_of(commit.id())
}

/// `git2::Commit::tree`: the root tree of the commit. The answer depends on
/// the disk; nothing is claimed of it.
#[verifier::external_body]
pub(crate) fn commit_tree<'r>(commit: &git2::Commit<'r>) -> Result<git2::Tree<'r>, git2::Error> {
    commit.tree()
}

/// `git2::Repository::find_commit`: the commit called `id`. The answer
/// depends on the disk; nothing is claimed of it.
#[verifier::external_body]
pub(crate) fn find_commit<'r>(repo: &'r git2::Repository, id: &ObjectId) -> Result<
    git2::Commit<'r>,
    git2::Error,
> {
    repo.find_commit(git2::Oid::from_bytes(&id.bytes)?)
}

/// `git2::Repository::find_tree`: the tree called `id`. The answer depends
/// on the disk; nothing is claimed of it.
#[verifier::external_body]
pub(crate) fn find_tree<'r>(repo: &'r git2::Repository, id: &ObjectId) -> Result<
    git2::Tree<'r>,
    git2::Error,
> {
    repo.find_tree(git2::Oid::from_bytes(&id.bytes)?)
}

/// `git2::Repository::commit`: writes a commit with the tree, the message,
/// the two identities and at most one parent, and moves `update_ref` to it.
/// The store refuses where `update_ref` exists and `parent` is not its tip.
/// The answer depends on the disk; nothing is claimed of it.
#[verifier::external_body]
pub(crate) fn create_commit(
    repo: &git2::Repository,
    update_ref: &str,
    author: &git2::Signature<'_>,
    committer: &git2::Signature<'_>,
    message: &str,
    tree: &git2::Tree<'_>,
    parent: Option<&git2::Commit<'_>>,
) -> Result<ObjectId, git2::Error> {
    repo.commit(Some(update_ref), author, committer, message, tree, parent.as_slice()).map(
        object_id_of,
    )
}

/// `git2::Repository::index`: the staging area of the repository. The
/// answer depends on the disk; nothing is claimed of it.
#[verifier::external_body]
pub(crate) fn repository_index(repo: &git2::Repository) -> Result<git2::Index, git2::Error> {
    repo.index()
}

/// `git2::Index::clear`: empties what is staged, in memory only. Nothing is
/// claimed of the answer.
#[verifier::external_body]
pub(crate) fn index_clear(index: &mut git2::Index) -> Result<(), git2::Error> {
    index.clear()
}

/// `git2::Index::read_tree`: replaces what is staged by the entries of
/// `tree`. Nothing is claimed of the answer.
#[verifier::external_body]
pub(crate) fn index_read_tree(index: &mut git2::Index, tree: &git2::Tree<'_>) -> Result<
    (),
    git2::Error,
> {
    index.read_tree(tree)
}

/// `git2::IndexEntry`, built field by field from `entry`, with
/// `git2::IndexTime::new` for the two times and `git2::Oid::from_bytes` for
/// the identifier.
#[verifier::external_body]
pub(crate) fn index_entry_of(entry: &StagedEntry) -> Result<git2::IndexEntry, git2::Error> {
    Ok(git2::IndexEntry {
        ctime: git2::IndexTime::new(entry.ctime.seconds, entry.ctime.nanoseconds),
        mtime: git2::IndexTime::new(entry.mtime.seconds, entry.mtime.nanoseconds),
        dev: entry.dev,
        ino: entry.ino,
        mode: entry.mode,
        uid: entry.uid,
        gid: entry.gid,
        file_size: entry.file_size,
        id: git2::Oid::from_bytes(&entry.id.bytes)?,
        flags: entry.flags,
        flags_extended: entry.flags_extended,
        path: entry.path.clone(),
    })
}

/// `git2::Index::add_frombuffer`: stages `data` as the content of the file
/// that `entry` describes. Nothing is claimed of the answer.
#[verifier::external_body]
pub(crate) fn index_add_frombuffer(
    index: &mut git2::Index,
    entry: &git2::IndexEntry,
    data: &[u8],
) -> Result<(), git2::Error> {
    index.add_frombuffer(entry, data)
}

/// `git2::Index::write_tree`: writes what is staged as a tree and gives the
/// tree's identifier. The answer depends on the disk; nothing is claimed.
#[verifier::external_body]
pub(crate) fn index_write_tree(index: &mut git2::Index) -> Result<ObjectId, git2::Error> {
    index.write_tree().map(object_id_of)
}

/// `git2::Tree::get_path`: the entry of `tree` at the relative path `path`.
/// Nothing is claimed of the answer.
#[verifier::external_body]
pub(crate) fn tree_get_path(tree: &git2::Tree<'_>, path: &str) -> Result<
    git2::TreeEntry<'static>,
    git2::Error,
> {
    tree.get_path(std::path::Path::new(path))
}

/// `git2::TreeEntry::id`: the identifier of the object that the entry names.
/// Nothing is claimed of it.
#[verifier::external_body]
pub(crate) fn tree_entry_id(entry: &git2::TreeEntry<'_>) -> ObjectId {
    object_id_of(entry.id())
}

/// What a tree holds: the names of its own entries, in the tree's order,
/// each read as UTF-8 with what is not UTF-8 replaced.
pub uninterp spec fn tree_names(tree: git2::Tree) -> Seq<Seq<char>>;

/// `git2::Tree::len`: how many entries `tree` itself has.
#[verifier::external_body]
pub(crate) fn tree_len(tree: &git2::Tree<'_>) -> (count: usize)
    ensures
        count == tree_names(*tree).len(),
{
    tree.len()
}

/// `git2::Tree::get`, handing out the entry's name as text
/// (`git2::TreeEntry::name_bytes`): the name at position `n`, and none
/// exactly where `n` is not a position of the tree.
#[verifier::external_body]
pub(crate) fn tree_name_at(tree: &git2::Tree<'_>, n: usize) -> (name: Option<String>)
    ensures
        name is Some <==> n < tree_names(*tree).len(),
        name matches Some(text) ==> text@ == tree_names(*tree)[n as int],
{
    tree.get(n).map(|entry| String::from_utf8_lossy(entry.name_bytes()).into_owned())
}

/// `git2::Error::message`: the store's own words for the failure. Nothing is
/// claimed of the text.
#[verifier::external_body]
pub(crate) fn fault_message(error: &git2::Error) -> String {
    error.message().to_string()
}

/// `git2::Error::code`, told apart as far as the components decide by it.
/// Nothing is claimed of the answer.
#[verifier::external_body]
pub(crate) fn fault_of(error: &git2::Error) -> StoreFault {
    match error.code() {
        git2::ErrorCode::NotFound => StoreFault::NotFound,
        git2::ErrorCode::Modified => StoreFault::Modified,
        git2::ErrorCode::Locked => StoreFault::Locked,
        _ => StoreFault::Other,
    }
}

/// What `git2::Reference::is_valid_name` says of a reference name: whether
/// the store accepts it.
pub uninterp spec fn reference_name_validity(name: Seq<char>) -> bool;

/// `git2::Reference::is_valid_name`: whether the store accepts `name` as a
/// reference name. The outside function panics on a name that holds a NUL,
/// which is left out here.
#[verifier::external_body]
pub(crate) fn reference_name_is_valid(name: &str) -> (accepted: bool)
    requires
        !name@.contains('\0'),
    ensures
        accepted == reference_name_validity(name@),
{
    git2::Reference::is_valid_name(name)
}

/// `git2::Oid::as_bytes`: the twenty raw bytes of the store's identifier,
/// one for one.
#[verifier::external_body]
fn object_id_of(oid: git2::Oid) -> ObjectId {
    let mut bytes = [0u8; 20];
    bytes.copy_from_slice(oid.as_bytes());
    ObjectId { bytes }
}

} // verus!
