//! The path resolver: from an identifier to the one place on disk where the
//! repository or workspace of that name lives.
//!
//! Paths are text with `/` between their segments. The location is
//! `<working directory>/./storage/<kind>/<first two characters>/<identifier>`,
//! cleaned of `.`, `..` and doubled slashes. An identifier has to be one
//! plain segment: with a slash, or as `..`, it could name the place of
//! another identifier, so it is refused.

use vstd::prelude::*;
use vstd::string::{StrSliceExecFns, StringExecFns};
use crate::errors::{AppError, ErrorKind};
use crate::random::uuid;
use crate::validators::is_uuid_shaped;

verus! {

/// What is to be located: a repository of a given name, or a workspace,
/// whose name is always made afresh.
pub enum AbsolutePath<'a> {
    Repository(&'a str, Option<String>),
    Workspace(Option<&'a str>, Option<String>),
}

/// What `path_clean::clean` makes of a path.
pub uninterp spec fn cleaned_path(path: Seq<char>) -> Seq<char>;

/// What `std::path::Path::with_extension` makes of a path and an extension.
pub uninterp spec fn path_with_extension(path: Seq<char>, extension: Seq<char>) -> Seq<char>;

/// A path that starts at the root.
pub open spec fn is_absolute(path: Seq<char>) -> bool {
    path.len() > 0 && path[0] == '/'
}

/// A segment that names something by itself: not empty, without a slash,
/// and neither `.` nor `..`.
pub open spec fn is_plain_segment(segment: Seq<char>) -> bool {
    &&& segment.len() > 0
    &&& forall|i: int| 0 <= i < segment.len() ==> segment[i] != '/'
    &&& segment != seq!['.']
    &&& segment != seq!['.', '.']
}

/// Whether `text` ends with `tail`.
pub open spec fn ends_with(text: Seq<char>, tail: Seq<char>) -> bool {
    tail.len() <= text.len() && text.skip(text.len() - tail.len()) == tail
}

/// Cleaning kept the final segment: wherever a slash of `path` is followed
/// by nothing but a plain segment, `cleaned` ends with that slash and
/// segment.
pub open spec fn keeps_final_segment(path: Seq<char>, cleaned: Seq<char>) -> bool {
    forall|k: int|
        0 <= k < path.len() && path[k] == '/' && is_plain_segment(path.skip(k + 1)) ==> ends_with(
            cleaned,
            #[trigger] path.skip(k),
        )
}

/// `path_clean::clean`: the shortest path that names the same place, by the
/// text alone. The result is named. Two facts of it are taken from the
/// outside source, both for a path that starts with a slash: the result is
/// such a path's kept segments, a slash before each, so it starts with a
/// slash too; and a last segment that is plain is kept, since it is added to
/// the kept segments last and only a later `..` would remove it.
#[verifier::external_body]
fn clean(path: &str) -> (cleaned: String)
    ensures
        cleaned@ == cleaned_path(path@),
        is_absolute(path@) ==> is_absolute(cleaned@),
        is_absolute(path@) ==> keeps_final_segment(path@, cleaned@),
{
    path_clean::clean(path)
}

/// `std::path::Path::with_extension`: `path` with the extension of its last
/// segment replaced by `extension`, or with `extension` added where it had
/// none. The result is named; nothing else is claimed of it. The outside
/// function panics on an extension that holds a path separator, which is
/// left out here.
#[verifier::external_body]
fn with_extension(path: &str, extension: &str) -> (changed: String)
    requires
        forall|i: int|
            0 <= i < extension@.len() ==> extension@[i] != '/' && extension@[i] != '\\',
    ensures
        changed@ == path_with_extension(path@, extension@),
{
    std::path::Path::new(path).with_extension(extension).to_string_lossy().into_owned()
}

/// `std::path::Path::exists`: whether something is at `path` now. The answer
/// depends on the disk; nothing is claimed of it.
#[verifier::external_body]
fn marker_exists(path: &str) -> bool {
    std::path::Path::new(path).exists()
}

/// `part` below `base`: `part` alone where it is absolute, else `base`, a
/// slash unless `base` is empty or ends with one, and `part`.
pub open spec fn joined(base: Seq<char>, part: Seq<char>) -> Seq<char> {
    if is_absolute(part) {
        part
    } else if base.len() > 0 && base.last() != '/' {
        base + seq!['/'] + part
    } else {
        base + part
    }
}

/// The directory that shards the identifiers: the first two characters.
pub open spec fn shard_of(id: Seq<char>) -> Seq<char> {
    id.take(2)
}

/// The location of `id` before it is cleaned.
pub open spec fn unresolved_location(
    current_dir: Seq<char>,
    sub_dir: Seq<char>,
    id: Seq<char>,
) -> Seq<char> {
    joined(joined(joined(joined(current_dir, "./storage"@), sub_dir), shard_of(id)), id)
}

/// The location of `id`.
pub open spec fn resolved_location(
    current_dir: Seq<char>,
    sub_dir: Seq<char>,
    id: Seq<char>,
) -> Seq<char> {
    cleaned_path(unresolved_location(current_dir, sub_dir, id))
}

/// Whether an identifier can be located at all: it is one plain segment, it
/// has the two characters of its shard, and its location is absolute.
pub open spec fn is_locatable(current_dir: Seq<char>, sub_dir: Seq<char>, id: Seq<char>) -> bool {
    &&& is_plain_segment(id)
    &&& id.len() >= 2
    &&& is_absolute(unresolved_location(current_dir, sub_dir, id))
}

/// Whether `path` is the location of `id` below `sub_dir`, as the resolver
/// gives it: the cleaned form of the joined path, which is absolute and
/// which still ends with the identifier where that is a plain segment.
pub open spec fn resolves(
    current_dir: Seq<char>,
    sub_dir: Seq<char>,
    id: Seq<char>,
    path: Seq<char>,
) -> bool {
    &&& is_locatable(current_dir, sub_dir, id)
    &&& path == resolved_location(current_dir, sub_dir, id)
    &&& is_absolute(path)
    &&& keeps_final_segment(unresolved_location(current_dir, sub_dir, id), path)
}

/// Whether `r` is what the resolver owes for `id` below `sub_dir`: the
/// location, or the refusal of an identifier that cannot be located.
pub open spec fn is_resolution(
    current_dir: Seq<char>,
    sub_dir: Seq<char>,
    id: Seq<char>,
    r: Result<String, AppError>,
) -> bool {
    match r {
        Ok(path) => resolves(current_dir, sub_dir, id, path@),
        Err(e) => !is_locatable(current_dir, sub_dir, id) && e.says(ErrorKind::InvalidPath, id),
    }
}

/// The directory, relative to the working directory, under which every
/// repository and workspace is kept.
pub fn storage_path() -> (root: String)
    ensures
        root@ == "./storage"@,
{
    String::from_str("./storage")
}

fn starts_at_root(path: &str) -> (b: bool)
    ensures
        b == is_absolute(path@),
{
    path.unicode_len() > 0 && path.get_char(0) == '/'
}

fn plain_segment(segment: &str) -> (b: bool)
    ensures
        b == is_plain_segment(segment@),
{
    let n = segment.unicode_len();
    if n == 0 {
        return false;
    }
    let mut i: usize = 0;
    while i < n
        invariant
            i <= n,
            n == segment@.len(),
            forall|k: int| 0 <= k < i ==> segment@[k] != '/',
        decreases n - i,
    {
        if segment.get_char(i) == '/' {
            return false;
        }
        i += 1;
    }
    if segment.get_char(0) == '.' && (n == 1 || (n == 2 && segment.get_char(1) == '.')) {
        assert(segment@ =~= seq!['.'] || segment@ =~= seq!['.', '.']);
        return false;
    }
    assert(segment@ != seq!['.'] && segment@ != seq!['.', '.']) by {
        if segment@ == seq!['.'] || segment@ == seq!['.', '.'] {
            assert(segment@[0] == '.');
            if n == 2 {
                assert(segment@[1] == '.');
            }
        }
    }
    true
}

/// `part` below `base`.
pub fn join_path(base: &str, part: &str) -> (path: String)
    ensures
        path@ == joined(base@, part@),
{
    if starts_at_root(part) {
        return String::from_str(part);
    }
    let n = base.unicode_len();
    let mut path = String::from_str(base);
    if n > 0 && base.get_char(n - 1) != '/' {
        proof {
            reveal_strlit("/");
        }
        path.append("/");
        assert("/"@ =~= seq!['/']);
    }
    path.append(part);
    path
}

/// Locates `id` below the kind's directory `sub_dir`.
pub fn resolve_location(current_dir: &str, sub_dir: &str, id: &str) -> (r: Result<String, AppError>)
    ensures
        is_resolution(current_dir@, sub_dir@, id@, r),
{
    if !plain_segment(id) || id.unicode_len() < 2 {
        return Err(AppError::InvalidPathError(String::from_str(id)));
    }
    let shard = id.substring_char(0, 2);
    let root = join_path(current_dir, storage_path().as_str());
    let kind = join_path(root.as_str(), sub_dir);
    let sharded = join_path(kind.as_str(), shard);
    let path = join_path(sharded.as_str(), id);
    assert(shard@ == shard_of(id@));
    if !starts_at_root(path.as_str()) {
        return Err(AppError::InvalidPathError(String::from_str(id)));
    }
    Ok(clean(path.as_str()))
}

/// Locates what `path_type` describes: the repository of the given name, or
/// a workspace under a fresh random name.
pub fn absolute_path(current_dir: &str, path_type: &AbsolutePath) -> (r: Result<String, AppError>)
    ensures
        match *path_type {
            AbsolutePath::Repository(id, _) => is_resolution(
                current_dir@,
                "repositories"@,
                id@,
                r,
            ),
            AbsolutePath::Workspace(_, _) => match r {
                Ok(path) => is_absolute(current_dir@) && exists|id: Seq<char>|
                    is_uuid_shaped(id) && #[trigger] resolves(
                        current_dir@,
                        "workspace"@,
                        id,
                        path@,
                    ),
                Err(e) => !is_absolute(current_dir@) && e.kind_of() == ErrorKind::InvalidPath,
            },
        },
{
    match path_type {
        AbsolutePath::Repository(id, _) => resolve_location(current_dir, "repositories", id),
        AbsolutePath::Workspace(_, _) => {
            let id = uuid();
            proof {
                lemma_uuid_is_plain_segment(id@);
                reveal_strlit("workspace");
                lemma_location_is_absolute_with_its_base(current_dir@, "workspace"@, id@);
            }
            resolve_location(current_dir, "workspace", id.as_str())
        },
    }
}

/// Locates the repository called `repo_id`.
pub fn repository_path(current_dir: &str, repo_id: &str) -> (r: Result<String, AppError>)
    ensures
        is_resolution(current_dir@, "repositories"@, repo_id@, r),
{
    absolute_path(current_dir, &AbsolutePath::Repository(repo_id, None))
}

/// Where the lock marker of the repository at `repo_path` lies: the same
/// path with the extension `lock`.
pub open spec fn lock_marker_of(repo_path: Seq<char>) -> Seq<char> {
    path_with_extension(repo_path, "lock"@)
}

/// The path of the lock marker of the repository at `repo_path`.
pub fn repo_lock_file_path(repo_path: &str) -> (marker: String)
    ensures
        marker@ == lock_marker_of(repo_path@),
{
    proof {
        reveal_strlit("lock");
    }
    with_extension(repo_path, "lock")
}

/// Whether the lock marker of the repository at `repo_path` is there now.
/// This only reads: the lock is taken by creating the marker, never by
/// looking first.
pub fn is_repo_locked(repo_path: &str) -> bool {
    marker_exists(repo_lock_file_path(repo_path).as_str())
}

/// Below a directory that is not itself absolute nothing becomes absolute,
/// and below an absolute one everything stays so.
pub proof fn lemma_joined_is_absolute_with_its_base(base: Seq<char>, part: Seq<char>)
    requires
        !is_absolute(part),
    ensures
        is_absolute(joined(base, part)) == is_absolute(base),
{
}

/// A plain identifier with the two characters of its shard is located at
/// an absolute path, and can be located at all, exactly when the working
/// directory is absolute.
pub proof fn lemma_location_is_absolute_with_its_base(
    current_dir: Seq<char>,
    sub_dir: Seq<char>,
    id: Seq<char>,
)
    requires
        !is_absolute(sub_dir),
        is_plain_segment(id),
        id.len() >= 2,
    ensures
        is_absolute(unresolved_location(current_dir, sub_dir, id)) == is_absolute(current_dir),
        is_locatable(current_dir, sub_dir, id) == is_absolute(current_dir),
{
    reveal_strlit("./storage");
    let root = joined(current_dir, "./storage"@);
    let kind = joined(root, sub_dir);
    let sharded = joined(kind, shard_of(id));
    lemma_joined_is_absolute_with_its_base(current_dir, "./storage"@);
    lemma_joined_is_absolute_with_its_base(root, sub_dir);
    lemma_joined_is_absolute_with_its_base(kind, shard_of(id));
    lemma_joined_is_absolute_with_its_base(sharded, id);
}

/// A version-4 identifier is a plain segment that does not start with a
/// slash and has the two characters of its shard.
pub proof fn lemma_uuid_is_plain_segment(id: Seq<char>)
    requires
        is_uuid_shaped(id),
    ensures
        is_plain_segment(id),
        id.len() >= 2,
        id[0] != '/',
{
    assert forall|i: int| 0 <= i < id.len() implies id[i] != '/' by {
        assert(crate::validators::fits_uuid_at(i, id[i]));
    }
    assert(id != seq!['.']);
    assert(id != seq!['.', '.']);
}

/// Below a directory that is not empty, a plain segment is the end of the
/// joined path: the joined path has a slash at the place that is returned,
/// and after that slash the segment and nothing else.
pub proof fn lemma_joined_ends_with_segment(base: Seq<char>, part: Seq<char>) -> (k: int)
    requires
        base.len() > 0,
        is_plain_segment(part),
    ensures
        0 <= k < joined(base, part).len(),
        joined(base, part)[k] == '/',
        joined(base, part).skip(k + 1) == part,
        joined(base, part).skip(k) == seq!['/'] + part,
{
    let path = joined(base, part);
    let k = if base.last() != '/' {
        base.len() as int
    } else {
        base.len() - 1
    };
    assert(path.skip(k + 1) =~= part);
    assert(path.skip(k) =~= seq!['/'] + part);
    k
}

/// A text cannot end with a slash and one plain segment and also with a
/// slash and another.
pub proof fn lemma_one_final_segment(text: Seq<char>, a: Seq<char>, b: Seq<char>)
    requires
        is_plain_segment(a),
        is_plain_segment(b),
        ends_with(text, seq!['/'] + a),
        ends_with(text, seq!['/'] + b),
    ensures
        a == b,
{
    let tail_a = seq!['/'] + a;
    let tail_b = seq!['/'] + b;
    if tail_a.len() == tail_b.len() {
        assert(a =~= tail_a.skip(1));
        assert(b =~= tail_b.skip(1));
    } else if tail_a.len() < tail_b.len() {
        let at = tail_b.len() - tail_a.len();
        assert(tail_b[at] == text.skip(text.len() - tail_b.len())[at]);
        assert(tail_a[0] == text.skip(text.len() - tail_a.len())[0]);
        assert(b[at - 1] == '/');
    } else {
        let at = tail_a.len() - tail_b.len();
        assert(tail_a[at] == text.skip(text.len() - tail_a.len())[at]);
        assert(tail_b[0] == text.skip(text.len() - tail_b.len())[0]);
        assert(a[at - 1] == '/');
    }
}

/// A location ends with a slash and the identifier.
pub proof fn lemma_location_ends_with_id(
    current_dir: Seq<char>,
    sub_dir: Seq<char>,
    id: Seq<char>,
    path: Seq<char>,
)
    requires
        resolves(current_dir, sub_dir, id, path),
    ensures
        ends_with(path, seq!['/'] + id),
{
    let sharded = joined(joined(joined(current_dir, "./storage"@), sub_dir), shard_of(id));
    let k = lemma_joined_ends_with_segment(sharded, id);
}

/// Determinism: two resolutions of the same identifier from the same
/// working directory are the same, character for character: both are the
/// same path, or both are the same refusal.
pub proof fn lemma_resolution_is_deterministic(
    current_dir: Seq<char>,
    sub_dir: Seq<char>,
    id: Seq<char>,
    first: Result<String, AppError>,
    second: Result<String, AppError>,
)
    requires
        is_resolution(current_dir, sub_dir, id, first),
        is_resolution(current_dir, sub_dir, id, second),
    ensures
        first is Ok <==> second is Ok,
        first is Ok ==> first->Ok_0@ == second->Ok_0@,
        first is Err ==> first->Err_0.kind_of() == second->Err_0.kind_of()
            && first->Err_0.text_of() == second->Err_0.text_of(),
{
}

/// No collisions: two identifiers that differ are never located at the same
/// path, whatever the working directory and the kind's directory of either.
pub proof fn lemma_distinct_ids_never_collide(
    current_dir: Seq<char>,
    sub_dir: Seq<char>,
    id: Seq<char>,
    path: Seq<char>,
    other_dir: Seq<char>,
    other_sub_dir: Seq<char>,
    other_id: Seq<char>,
    other_path: Seq<char>,
)
    requires
        resolves(current_dir, sub_dir, id, path),
        resolves(other_dir, other_sub_dir, other_id, other_path),
        id != other_id,
    ensures
        path != other_path,
{
    lemma_location_ends_with_id(current_dir, sub_dir, id, path);
    lemma_location_ends_with_id(other_dir, other_sub_dir, other_id, other_path);
    if path == other_path {
        lemma_one_final_segment(path, id, other_id);
    }
}

} // verus!
