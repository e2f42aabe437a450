use repo_writer::{
    branch_head, commit, compose_file, create_file_then_commit_then_push,
    entry_names, last_commit_id_of_branch, last_commit_id_of_repo, list_files_of_branch,
    list_tree, open_bare_repo, random_string, repo_create, repository_path, uuid, AppError,
    ErrorKind, ObjectId, TreePolicy,
};

fn someone() -> git2::Signature<'static> {
    git2::Signature::now("Zhang", "zhang@gmail.com").unwrap()
}

fn working_dir(dir: &tempfile::TempDir) -> String {
    dir.path().to_str().unwrap().to_string()
}

fn parents_of(repo: &git2::Repository, id: &ObjectId) -> Vec<ObjectId> {
    let found = repo.find_commit(git2::Oid::from_bytes(&id.bytes).unwrap()).unwrap();
    found.parent_ids().map(|oid| ObjectId::from_bytes(oid.as_bytes().try_into().unwrap())).collect()
}

/// Ten writers, each with its own handle on the same repository, write one
/// random file each; every file is there at the end.
#[test]
fn test_create_file_and_commit() {
    let dir = tempfile::tempdir().unwrap();
    let cwd = working_dir(&dir);
    let repo_id = uuid();

    println!(">>>>>>>>>>>>>>>>> repo_id: {}", &repo_id);

    let repo = repo_create(&cwd, &repo_id).unwrap();

    let count = 10;

    for _ in 0..count {
        let signature = git2::Signature::now("Zhang", "zhang@gmail.com").unwrap();
        let branch = "master";

        let file_path = random_string(10);
        let file_content = random_string(100);
        let commit_message = random_string(100);

        let repo = open_bare_repo(&cwd, &repo_id).unwrap();

        match create_file_then_commit_then_push(
            &repo,
            &file_path,
            &file_content,
            branch,
            &signature,
            &signature,
            &commit_message,
        ) {
            Ok(_) => {},
            Err(e) => println!(">>>>>>>>>>>> got error: {:?}", e),
        }
    }

    let files = list_files_of_branch(&repo, "master", None).unwrap();
    assert_eq!(files.len(), count);
}

#[test]
fn listing_after_one_write() {
    let dir = tempfile::tempdir().unwrap();
    let repo = repo_create(&working_dir(&dir), &uuid()).unwrap();
    let who = someone();
    create_file_then_commit_then_push(&repo, "a.txt", "hi", "master", &who, &who, "first").unwrap();
    assert_eq!(list_files_of_branch(&repo, "master", None).unwrap(), vec!["a.txt".to_string()]);
}

#[test]
fn listing_defaults_to_master() {
    let dir = tempfile::tempdir().unwrap();
    let repo = repo_create(&working_dir(&dir), &uuid()).unwrap();
    let who = someone();
    create_file_then_commit_then_push(&repo, "a.txt", "hi", "master", &who, &who, "first").unwrap();
    assert_eq!(list_files_of_branch(&repo, "", None).unwrap(), vec!["a.txt".to_string()]);
}

#[test]
fn listing_an_empty_repository_is_empty() {
    let dir = tempfile::tempdir().unwrap();
    let repo = repo_create(&working_dir(&dir), &uuid()).unwrap();
    assert_eq!(list_files_of_branch(&repo, "master", None).unwrap(), Vec::<String>::new());
    assert_eq!(list_files_of_branch(&repo, "", Some("nope")).unwrap(), Vec::<String>::new());
}

#[test]
fn listing_a_missing_subpath_fails_and_changes_nothing() {
    let dir = tempfile::tempdir().unwrap();
    let repo = repo_create(&working_dir(&dir), &uuid()).unwrap();
    let who = someone();
    let id =
        create_file_then_commit_then_push(&repo, "a.txt", "hi", "master", &who, &who, "first")
            .unwrap()
            .id;
    let failed = list_files_of_branch(&repo, "master", Some("nope")).unwrap_err();
    assert_eq!(failed.kind(), ErrorKind::PathNotFound);
    assert_eq!(branch_head(&repo, "master").unwrap(), id);
    assert_eq!(list_files_of_branch(&repo, "master", None).unwrap(), vec!["a.txt".to_string()]);
}

#[test]
fn listing_a_subpath_gives_its_children_only() {
    let dir = tempfile::tempdir().unwrap();
    let repo = repo_create(&working_dir(&dir), &uuid()).unwrap();
    let who = someone();
    create_file_then_commit_then_push(&repo, "docs/a.txt", "a", "master", &who, &who, "one")
        .unwrap();
    create_file_then_commit_then_push(&repo, "docs/deep/b.txt", "b", "master", &who, &who, "two")
        .unwrap();
    create_file_then_commit_then_push(&repo, "top.txt", "c", "master", &who, &who, "three")
        .unwrap();
    assert_eq!(
        list_files_of_branch(&repo, "master", None).unwrap(),
        vec!["docs".to_string(), "top.txt".to_string()]
    );
    assert_eq!(
        list_files_of_branch(&repo, "master", Some("docs")).unwrap(),
        vec!["a.txt".to_string(), "deep".to_string()]
    );
}

#[test]
fn the_names_of_a_tree_are_those_of_its_own_entries_in_order() {
    let dir = tempfile::tempdir().unwrap();
    let repo = repo_create(&working_dir(&dir), &uuid()).unwrap();
    let who = someone();
    for name in ["b.txt", "a/deep/x.txt", "c.txt", "a/y.txt"] {
        create_file_then_commit_then_push(&repo, name, "x", "master", &who, &who, "add").unwrap();
    }
    let head = branch_head(&repo, "master").unwrap();
    let head = git2::Oid::from_bytes(&head.bytes).unwrap();
    let root = repo.find_commit(head).unwrap().tree().unwrap();
    assert_eq!(entry_names(&root), vec!["a".to_string(), "b.txt".to_string(), "c.txt".to_string()]);
    let below = repo.find_tree(root.get_name("a").unwrap().id()).unwrap();
    assert_eq!(entry_names(&below), vec!["deep".to_string(), "y.txt".to_string()]);
    assert_eq!(entry_names(&below).len(), below.len());
}

#[test]
fn listing_a_tree_without_a_path_gives_its_own_names() {
    let dir = tempfile::tempdir().unwrap();
    let repo = repo_create(&working_dir(&dir), &uuid()).unwrap();
    let who = someone();
    for name in ["b.txt", "a/deep/x.txt", "a/y.txt"] {
        create_file_then_commit_then_push(&repo, name, "x", "master", &who, &who, "add").unwrap();
    }
    let head = git2::Oid::from_bytes(&branch_head(&repo, "master").unwrap().bytes).unwrap();
    let root = repo.find_commit(head).unwrap().tree().unwrap();
    assert_eq!(list_tree(&repo, &root, None), Ok(vec!["a".to_string(), "b.txt".to_string()]));
    assert_eq!(
        list_tree(&repo, &root, Some("a")),
        Ok(vec!["deep".to_string(), "y.txt".to_string()])
    );
    assert_eq!(list_tree(&repo, &root, Some("a/deep")), Ok(vec!["x.txt".to_string()]));
    assert_eq!(
        list_tree(&repo, &root, Some("nope")).unwrap_err().kind(),
        ErrorKind::PathNotFound
    );
    assert_eq!(
        list_tree(&repo, &root, Some("b.txt")).unwrap_err().kind(),
        ErrorKind::ObjectStore
    );
}

#[test]
fn a_composed_file_says_what_its_commit_is_made_of() {
    let dir = tempfile::tempdir().unwrap();
    let repo = repo_create(&working_dir(&dir), &uuid()).unwrap();
    let who = someone();
    let merge = TreePolicy::MergeIntoHead;
    let first = compose_file(&repo, "a.txt", "1", "master", &who, &who, "one", merge).unwrap();
    assert_eq!(first.parent, None);
    assert_eq!(first.base, None);
    assert_eq!(first.reference, "refs/heads/master");
    assert_eq!(first.message, "one");
    assert_eq!(branch_head(&repo, "master").unwrap(), first.id);
    let second = compose_file(&repo, "b.txt", "2", "master", &who, &who, "two", merge).unwrap();
    assert_eq!(second.parent, Some(first.id));
    assert_eq!(second.base, Some(first.id));
    assert_eq!(second.reference, "refs/heads/master");
    assert_eq!(second.message, "two");
    assert_eq!(parents_of(&repo, &second.id), vec![first.id]);
    assert_eq!(branch_head(&repo, "master").unwrap(), second.id);
    let found = repo.find_commit(git2::Oid::from_bytes(&second.id.bytes).unwrap()).unwrap();
    assert_eq!(found.tree_id().as_bytes(), &second.tree.bytes[..]);
    assert_eq!(found.message(), Some("two"));
}

#[test]
fn the_first_commit_creates_the_branch_that_is_named() {
    let dir = tempfile::tempdir().unwrap();
    let repo = repo_create(&working_dir(&dir), &uuid()).unwrap();
    let who = someone();
    let tree = ObjectId::from_bytes(
        repo.treebuilder(None).unwrap().write().unwrap().as_bytes().try_into().unwrap(),
    );
    let written = commit(&repo, Some("dev"), &tree, &who, &who, "m").unwrap();
    assert_eq!(written.parent, None);
    assert_eq!(written.reference, "refs/heads/dev");
    assert_eq!(written.tree, tree);
    let first = written.id;
    assert_eq!(parents_of(&repo, &first), Vec::<ObjectId>::new());
    assert_eq!(last_commit_id_of_branch(&repo, "dev"), Ok(first.to_hex()));
    assert_eq!(branch_head(&repo, "dev"), Ok(first));
    assert_eq!(
        branch_head(&repo, "master"),
        Err(AppError::BranchNotFoundError("master".to_string()))
    );
    let second = commit(&repo, Some("dev"), &tree, &who, &who, "n").unwrap();
    assert_eq!(second.parent, Some(first));
    assert_eq!(second.reference, "refs/heads/dev");
}

#[test]
fn the_first_file_creates_the_branch_that_is_named() {
    let dir = tempfile::tempdir().unwrap();
    let repo = repo_create(&working_dir(&dir), &uuid()).unwrap();
    let who = someone();
    let first =
        create_file_then_commit_then_push(&repo, "a.txt", "1", "dev", &who, &who, "one").unwrap();
    assert_eq!(first.parent, None);
    assert_eq!(first.base, None);
    assert_eq!(first.reference, "refs/heads/dev");
    assert_eq!(first.message, "one");
    assert_eq!(branch_head(&repo, "dev"), Ok(first.id));
    assert_eq!(list_files_of_branch(&repo, "dev", None), Ok(vec!["a.txt".to_string()]));
    let second =
        create_file_then_commit_then_push(&repo, "b.txt", "2", "dev", &who, &who, "two").unwrap();
    assert_eq!(second.parent, Some(first.id));
    assert_eq!(second.base, Some(first.id));
    assert_eq!(second.reference, "refs/heads/dev");
    assert_eq!(
        list_files_of_branch(&repo, "dev", None),
        Ok(vec!["a.txt".to_string(), "b.txt".to_string()])
    );
    assert_eq!(
        list_files_of_branch(&repo, "master", None),
        Err(AppError::BranchNotFoundError("master".to_string()))
    );
}

#[test]
fn a_commit_on_head_without_a_branch() {
    let dir = tempfile::tempdir().unwrap();
    let repo = repo_create(&working_dir(&dir), &uuid()).unwrap();
    let who = someone();
    let tree = ObjectId::from_bytes(
        repo.treebuilder(None).unwrap().write().unwrap().as_bytes().try_into().unwrap(),
    );
    let first = commit(&repo, None, &tree, &who, &who, "m").unwrap();
    assert_eq!(first.parent, None);
    assert_eq!(first.reference, "HEAD");
    assert_eq!(last_commit_id_of_repo(&repo), Ok(Some(first.id)));
    let second = commit(&repo, None, &tree, &who, &who, "n").unwrap();
    assert_eq!(second.parent, Some(first.id));
    assert_eq!(second.reference, "HEAD");
    assert_eq!(last_commit_id_of_repo(&repo), Ok(Some(second.id)));
}

#[test]
fn a_replaced_tree_starts_from_nothing() {
    let dir = tempfile::tempdir().unwrap();
    let repo = repo_create(&working_dir(&dir), &uuid()).unwrap();
    let who = someone();
    let replace = TreePolicy::ReplaceTree;
    let first = compose_file(&repo, "a.txt", "1", "master", &who, &who, "one", replace).unwrap();
    let second = compose_file(&repo, "b.txt", "2", "master", &who, &who, "two", replace).unwrap();
    assert_eq!(first.base, None);
    assert_eq!(second.parent, Some(first.id));
    assert_eq!(second.base, None);
}

#[test]
fn listing_an_unknown_branch_names_it() {
    let dir = tempfile::tempdir().unwrap();
    let repo = repo_create(&working_dir(&dir), &uuid()).unwrap();
    let who = someone();
    create_file_then_commit_then_push(&repo, "a.txt", "hi", "master", &who, &who, "first").unwrap();
    assert_eq!(
        list_files_of_branch(&repo, "feature", None),
        Err(AppError::BranchNotFoundError("feature".to_string()))
    );
}

#[test]
fn first_commit_has_no_parent_and_the_next_has_the_head() {
    let dir = tempfile::tempdir().unwrap();
    let repo = repo_create(&working_dir(&dir), &uuid()).unwrap();
    let who = someone();
    let first =
        create_file_then_commit_then_push(&repo, "a.txt", "1", "master", &who, &who, "one")
            .unwrap()
            .id;
    assert_eq!(parents_of(&repo, &first), Vec::<ObjectId>::new());
    assert_eq!(branch_head(&repo, "master").unwrap(), first);
    let second =
        create_file_then_commit_then_push(&repo, "b.txt", "2", "master", &who, &who, "two")
            .unwrap()
            .id;
    assert_eq!(parents_of(&repo, &second), vec![first]);
    assert_eq!(branch_head(&repo, "master").unwrap(), second);
    let third =
        create_file_then_commit_then_push(&repo, "c.txt", "3", "master", &who, &who, "three")
            .unwrap()
            .id;
    assert_eq!(parents_of(&repo, &third), vec![second]);
    assert_eq!(last_commit_id_of_repo(&repo).unwrap(), Some(third));
    assert_eq!(last_commit_id_of_branch(&repo, "master").unwrap(), third.to_hex());
}

#[test]
fn writes_keep_the_files_of_the_head() {
    let dir = tempfile::tempdir().unwrap();
    let repo = repo_create(&working_dir(&dir), &uuid()).unwrap();
    let who = someone();
    let count = 10;
    for i in 0..count {
        let name = format!("file-{}.txt", i);
        create_file_then_commit_then_push(&repo, &name, "x", "master", &who, &who, "add").unwrap();
    }
    let files = list_files_of_branch(&repo, "master", None).unwrap();
    assert_eq!(files.len(), count);
}

#[test]
fn replacing_the_tree_keeps_one_file() {
    let dir = tempfile::tempdir().unwrap();
    let repo = repo_create(&working_dir(&dir), &uuid()).unwrap();
    let who = someone();
    for name in ["a.txt", "b.txt", "c.txt"] {
        compose_file(&repo, name, "x", "master", &who, &who, "add", TreePolicy::ReplaceTree)
            .unwrap();
    }
    assert_eq!(list_files_of_branch(&repo, "master", None).unwrap(), vec!["c.txt".to_string()]);
}

#[test]
fn writing_the_same_path_twice_replaces_the_file() {
    let dir = tempfile::tempdir().unwrap();
    let repo = repo_create(&working_dir(&dir), &uuid()).unwrap();
    let who = someone();
    create_file_then_commit_then_push(&repo, "a.txt", "1", "master", &who, &who, "one").unwrap();
    create_file_then_commit_then_push(&repo, "a.txt", "2", "master", &who, &who, "two").unwrap();
    assert_eq!(list_files_of_branch(&repo, "master", None).unwrap(), vec!["a.txt".to_string()]);
}

#[test]
fn writing_to_an_unknown_branch_of_a_repository_with_commits_fails() {
    let dir = tempfile::tempdir().unwrap();
    let repo = repo_create(&working_dir(&dir), &uuid()).unwrap();
    let who = someone();
    let first =
        create_file_then_commit_then_push(&repo, "a.txt", "1", "master", &who, &who, "one")
            .unwrap()
            .id;
    assert_eq!(
        create_file_then_commit_then_push(&repo, "b.txt", "2", "feature", &who, &who, "two"),
        Err(AppError::BranchNotFoundError("feature".to_string()))
    );
    assert_eq!(branch_head(&repo, "master").unwrap(), first);
}

#[test]
fn commit_record_says_what_the_commit_is_made_of() {
    let dir = tempfile::tempdir().unwrap();
    let repo = repo_create(&working_dir(&dir), &uuid()).unwrap();
    let who = someone();
    let first =
        create_file_then_commit_then_push(&repo, "a.txt", "1", "master", &who, &who, "one")
            .unwrap()
            .id;
    let tree = ObjectId::from_bytes(
        repo.find_commit(git2::Oid::from_bytes(&first.bytes).unwrap())
            .unwrap()
            .tree_id()
            .as_bytes()
            .try_into()
            .unwrap(),
    );
    let record = commit(&repo, Some("master"), &tree, &who, &who, "again").unwrap();
    assert_eq!(record.parent, Some(first));
    assert_eq!(record.base, None);
    assert_eq!(record.tree, tree);
    assert_eq!(record.reference, "refs/heads/master");
    assert_eq!(record.message, "again");
    assert_eq!(parents_of(&repo, &record.id), vec![first]);
    let on_head = commit(&repo, None, &tree, &who, &who, "once more").unwrap().id;
    assert_eq!(parents_of(&repo, &on_head), vec![record.id]);
    assert_eq!(branch_head(&repo, "master").unwrap(), on_head);
}

#[test]
fn commit_of_an_unknown_tree_is_a_store_failure() {
    let dir = tempfile::tempdir().unwrap();
    let repo = repo_create(&working_dir(&dir), &uuid()).unwrap();
    let who = someone();
    let failed = commit(&repo, Some("master"), &ObjectId::zero(), &who, &who, "none").unwrap_err();
    assert_eq!(failed.kind(), ErrorKind::ObjectStore);
}

#[test]
fn a_repository_is_created_where_its_name_resolves() {
    let dir = tempfile::tempdir().unwrap();
    let cwd = working_dir(&dir);
    let id = uuid();
    let created = repo_create(&cwd, &id).unwrap();
    let expected = repository_path(&cwd, &id).unwrap();
    assert_eq!(created.path().to_str().unwrap().trim_end_matches('/'), expected);
    let opened = open_bare_repo(&cwd, &id).unwrap();
    assert_eq!(opened.path(), created.path());
    assert!(opened.is_bare());
}

#[test]
fn opening_what_was_never_created_is_a_store_failure() {
    let dir = tempfile::tempdir().unwrap();
    let failed = open_bare_repo(&working_dir(&dir), &uuid()).err().unwrap();
    assert_eq!(failed.kind(), ErrorKind::ObjectStore);
}

#[test]
fn a_name_too_short_for_a_shard_is_refused() {
    let dir = tempfile::tempdir().unwrap();
    let cwd = working_dir(&dir);
    assert_eq!(repo_create(&cwd, "a").err(), Some(AppError::InvalidPathError("a".to_string())));
    assert_eq!(open_bare_repo(&cwd, "").err(), Some(AppError::InvalidPathError("".to_string())));
}

#[test]
fn an_unknown_branch_has_no_head() {
    let dir = tempfile::tempdir().unwrap();
    let repo = repo_create(&working_dir(&dir), &uuid()).unwrap();
    assert_eq!(
        last_commit_id_of_branch(&repo, "master"),
        Err(AppError::BranchNotFoundError("master".to_string()))
    );
    assert_eq!(last_commit_id_of_repo(&repo), Ok(None));
}
