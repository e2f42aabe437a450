use repo_writer::{
    absolute_path, is_repo_locked, is_uuid, join_path, repo_lock_file_path, repository_path,
    resolve_location, storage_path, AbsolutePath, AppError,
};

#[test]
fn storage_lies_below_the_working_directory() {
    assert_eq!(storage_path(), "./storage");
}

#[test]
fn a_repository_lies_below_its_shard() {
    assert_eq!(
        repository_path("/srv/app", "abcdef"),
        Ok("/srv/app/storage/repositories/ab/abcdef".to_string())
    );
    assert_eq!(
        repository_path("/srv/app/", "c0ffee00-0000-4000-8000-000000000000"),
        Ok("/srv/app/storage/repositories/c0/c0ffee00-0000-4000-8000-000000000000".to_string())
    );
    assert_eq!(repository_path("/", "xy"), Ok("/storage/repositories/xy/xy".to_string()));
}

#[test]
fn the_location_is_cleaned() {
    assert_eq!(
        repository_path("/srv//app/../data/.", "abcdef"),
        Ok("/srv/data/storage/repositories/ab/abcdef".to_string())
    );
}

#[test]
fn the_same_identifier_resolves_to_the_same_path() {
    let id = "7d1c2a34-5b6f-4c7d-8e9f-0a1b2c3d4e5f";
    let first = repository_path("/srv/app", id);
    let second = repository_path("/srv/app", id);
    assert!(first.is_ok());
    assert_eq!(first, second);
    assert_eq!(repository_path("/srv/app", "x"), repository_path("/srv/app", "x"));
}

#[test]
fn distinct_identifiers_resolve_to_distinct_paths() {
    let one = repository_path("/srv/app", "7d1c2a34-5b6f-4c7d-8e9f-0a1b2c3d4e5f").unwrap();
    let two = repository_path("/srv/app", "7d1c2a34-5b6f-4c7d-8e9f-0a1b2c3d4e5e").unwrap();
    let three = repository_path("/srv/app", "7d").unwrap();
    assert_ne!(one, two);
    assert_ne!(one, three);
    assert_ne!(two, three);
}

#[test]
fn an_identifier_that_is_not_one_plain_segment_is_refused() {
    for id in ["ab/../ab", "ab/.", "ab/cd", "/etc/passwd", "..", "../ab", "ab/", "a/"] {
        assert_eq!(
            repository_path("/srv/app", id),
            Err(AppError::InvalidPathError(id.to_string()))
        );
    }
    assert_eq!(
        repository_path("/srv/app", "ab"),
        Ok("/srv/app/storage/repositories/ab/ab".to_string())
    );
    assert_eq!(
        repository_path("/srv/app", "a.b..c"),
        Ok("/srv/app/storage/repositories/a./a.b..c".to_string())
    );
}

#[test]
fn a_name_that_would_reach_another_names_place_does_not_collide_with_it() {
    let given = absolute_path("/srv/app", &AbsolutePath::Repository("ab", None));
    let reaching = absolute_path("/srv/app", &AbsolutePath::Repository("ab/../ab", None));
    assert_eq!(given, Ok("/srv/app/storage/repositories/ab/ab".to_string()));
    assert_eq!(reaching, Err(AppError::InvalidPathError("ab/../ab".to_string())));
}

#[test]
fn an_identifier_without_a_shard_is_refused() {
    assert_eq!(repository_path("/srv/app", "a"), Err(AppError::InvalidPathError("a".to_string())));
    assert_eq!(repository_path("/srv/app", ""), Err(AppError::InvalidPathError("".to_string())));
}

#[test]
fn the_shard_is_two_characters_not_two_bytes() {
    assert_eq!(
        repository_path("/srv", "éa-rest"),
        Ok("/srv/storage/repositories/éa/éa-rest".to_string())
    );
    assert_eq!(repository_path("/srv", "é"), Err(AppError::InvalidPathError("é".to_string())));
}

#[test]
fn a_location_that_is_not_absolute_is_refused() {
    assert_eq!(
        repository_path("srv/app", "abcdef"),
        Err(AppError::InvalidPathError("abcdef".to_string()))
    );
    assert_eq!(
        repository_path("", "abcdef"),
        Err(AppError::InvalidPathError("abcdef".to_string()))
    );
}

#[test]
fn the_kind_picks_the_directory() {
    assert_eq!(
        absolute_path("/srv/app", &AbsolutePath::Repository("abcdef", None)),
        Ok("/srv/app/storage/repositories/ab/abcdef".to_string())
    );
    assert_eq!(
        resolve_location("/srv/app", "workspace", "abcdef"),
        Ok("/srv/app/storage/workspace/ab/abcdef".to_string())
    );
}

#[test]
fn a_workspace_gets_a_fresh_identifier() {
    let given = AbsolutePath::Workspace(Some("ignored"), None);
    let path = absolute_path("/srv/app", &given).unwrap();
    let rest = path.strip_prefix("/srv/app/storage/workspace/").unwrap();
    let (shard, id) = rest.split_once('/').unwrap();
    assert!(is_uuid(id));
    assert_eq!(shard, &id[0..2]);
    let again = absolute_path("/srv/app", &given).unwrap();
    assert_ne!(path, again);
    assert!(absolute_path("srv", &given).is_err());
}

#[test]
fn joining_puts_one_slash_between() {
    assert_eq!(join_path("/a", "b"), "/a/b");
    assert_eq!(join_path("/a/", "b"), "/a/b");
    assert_eq!(join_path("", "b"), "b");
    assert_eq!(join_path("/a", ""), "/a/");
    assert_eq!(join_path("/a", "./b"), "/a/./b");
}

#[test]
fn joining_an_absolute_part_drops_the_base() {
    assert_eq!(join_path("/a", "/b"), "/b");
    assert_eq!(join_path("", "/"), "/");
}

#[test]
fn the_marker_is_the_repository_path_with_the_lock_extension() {
    assert_eq!(
        repo_lock_file_path("/srv/storage/repositories/ab/abcdef"),
        "/srv/storage/repositories/ab/abcdef.lock"
    );
    assert_eq!(
        repo_lock_file_path("/srv/storage/repositories/ab/abcdef/"),
        "/srv/storage/repositories/ab/abcdef.lock"
    );
    assert_eq!(repo_lock_file_path("/srv/ab/name.git"), "/srv/ab/name.lock");
}

#[test]
fn a_repository_is_locked_while_its_marker_is_there() {
    let dir = tempfile::tempdir().unwrap();
    let marker =
        tempfile::Builder::new().prefix("repo").suffix(".lock").tempfile_in(dir.path()).unwrap();
    let marker_path = marker.path().to_str().unwrap().to_string();
    let repo_path = marker_path.strip_suffix(".lock").unwrap().to_string();
    assert_eq!(repo_lock_file_path(&repo_path), marker_path);
    assert!(is_repo_locked(&repo_path));
    marker.close().unwrap();
    assert!(!is_repo_locked(&repo_path));
}
