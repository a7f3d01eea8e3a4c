use git_sync_service::controller::ApiResponse;
use git_sync_service::errors::SyncError;
use git_sync_service::guard::SyncGuard;
use git_sync_service::model::BootstrapMethod;
use git_sync_service::descriptors::GitRemote;
use git_sync_service::repository::{
    local_ref_name, normalize_remote_url, tracking_ref_name, GitRepository,
};
use git_sync_service::router::{handle_request, HttpMethod};

fn commit_file(repo: &git2::Repository, name: &str, content: &[u8], msg: &str) -> git2::Oid {
    let blob = repo.blob(content).unwrap();
    let mut builder = repo.treebuilder(None).unwrap();
    builder.insert(name, blob, 0o100644).unwrap();
    let tree_id = builder.write().unwrap();
    let tree = repo.find_tree(tree_id).unwrap();
    let sig = git2::Signature::now("tester", "tester@example.test").unwrap();
    let parents = match repo.head() {
        Ok(h) => vec![h.peel_to_commit().unwrap()],
        Err(_) => vec![],
    };
    let parent_refs: Vec<&git2::Commit> = parents.iter().collect();
    repo.commit(Some("HEAD"), &sig, &sig, msg, &tree, &parent_refs)
        .unwrap()
}

fn head_branch_name(repo: &git2::Repository) -> String {
    repo.head().unwrap().shorthand().unwrap().to_string()
}

#[test]
fn ref_names_are_fully_qualified() {
    assert_eq!(local_ref_name("main"), "refs/heads/main");
    assert_eq!(tracking_ref_name("origin", "main"), "refs/remotes/origin/main");
}

#[test]
fn bootstrap_opens_an_existing_repository_without_cloning() {
    let dir = tempfile::tempdir().unwrap();
    let path = dir.path().to_str().unwrap();
    let native = git2::Repository::init(path).unwrap();
    commit_file(&native, "a.txt", b"a", "first");
    // The URL is unusable on purpose: had bootstrap tried to clone, it
    // would have failed, so a success proves opening was attempted first.
    let booted = GitRepository::bootstrap("definitely://not-reachable", path).unwrap();
    assert_eq!(booted.method, BootstrapMethod::Opened);
}

#[test]
fn bootstrap_clones_into_an_empty_path_and_leaves_it_openable() {
    let src = tempfile::tempdir().unwrap();
    let src_path = src.path().to_str().unwrap();
    let native = git2::Repository::init(src_path).unwrap();
    commit_file(&native, "a.txt", b"a", "first");

    let dest = tempfile::tempdir().unwrap();
    let dest_path = dest.path().join("checkout");
    let dest_path = dest_path.to_str().unwrap();
    let booted = GitRepository::bootstrap(src_path, dest_path).unwrap();
    assert_eq!(booted.method, BootstrapMethod::Cloned);

    assert!(GitRepository::open(dest_path).is_ok());
    let again = GitRepository::bootstrap(src_path, dest_path).unwrap();
    assert_eq!(again.method, BootstrapMethod::Opened);
}

#[test]
fn resolve_bootstrap_uses_an_opened_repository_as_is() {
    let dir = tempfile::tempdir().unwrap();
    let path = dir.path().to_str().unwrap();
    let native = git2::Repository::init(path).unwrap();
    commit_file(&native, "a.txt", b"a", "first");
    let opened = GitRepository::open(path);
    assert!(opened.is_ok());
    let booted =
        GitRepository::resolve_bootstrap(opened, "definitely://not-reachable", path).unwrap();
    assert_eq!(booted.method, BootstrapMethod::Opened);
}

#[test]
fn resolve_bootstrap_clones_only_after_a_failed_open() {
    let src = tempfile::tempdir().unwrap();
    let src_path = src.path().to_str().unwrap();
    let native = git2::Repository::init(src_path).unwrap();
    commit_file(&native, "a.txt", b"a", "first");

    let dest = tempfile::tempdir().unwrap();
    let dest_path = dest.path().join("checkout");
    let dest_path = dest_path.to_str().unwrap();
    let opened = GitRepository::open(dest_path);
    assert!(opened.is_err());
    let booted = GitRepository::resolve_bootstrap(opened, src_path, dest_path).unwrap();
    assert_eq!(booted.method, BootstrapMethod::Cloned);
}

#[test]
fn remote_url_normalization_restores_absence() {
    let absent = normalize_remote_url(GitRemote {
        name: Some(String::from("origin")),
        url: Some(String::new()),
        push_url: Some(String::new()),
    });
    assert_eq!(absent.name, Some(String::from("origin")));
    assert_eq!(absent.url, None);
    // Only the URL field gets the treatment: the engine reports an absent
    // push URL as absent already.
    assert_eq!(absent.push_url, Some(String::new()));

    let kept = normalize_remote_url(GitRemote {
        name: None,
        url: Some(String::from("https://example.test/repo.git")),
        push_url: None,
    });
    assert_eq!(kept.url, Some(String::from("https://example.test/repo.git")));
    assert_eq!(kept.name, None);
    assert_eq!(kept.push_url, None);
}

#[test]
fn bootstrap_with_nothing_usable_is_fatal() {
    let dir = tempfile::tempdir().unwrap();
    let dest = dir.path().join("nothing-here");
    let err = match GitRepository::bootstrap("definitely://not-reachable", dest.to_str().unwrap()) {
        Err(e) => e,
        Ok(_) => panic!("bootstrap found something usable in an empty path"),
    };
    assert!(matches!(err, SyncError::BootstrapFailure(_)));
}

#[test]
fn local_branches_lists_every_created_branch() {
    let dir = tempfile::tempdir().unwrap();
    let path = dir.path().to_str().unwrap();
    let native = git2::Repository::init(path).unwrap();
    let oid = commit_file(&native, "a.txt", b"a", "first");
    let commit = native.find_commit(oid).unwrap();
    native.branch("feature-x", &commit, false).unwrap();
    let default_branch = head_branch_name(&native);

    let repo = GitRepository::open(path).unwrap();
    let branches = repo.get_local_branches().unwrap();
    assert_eq!(branches.len(), 2);
    // Order is whatever the enumeration yields; assert membership only.
    assert!(branches.contains(&default_branch));
    assert!(branches.contains(&String::from("feature-x")));
}

#[test]
fn last_commit_descriptor_matches_the_branch_tip() {
    let dir = tempfile::tempdir().unwrap();
    let path = dir.path().to_str().unwrap();
    let native = git2::Repository::init(path).unwrap();
    let oid = commit_file(&native, "a.txt", b"a", "first message");
    let branch = head_branch_name(&native);

    let repo = GitRepository::open(path).unwrap();
    let commit = repo.get_last_commit(&branch).unwrap();
    assert_eq!(commit.id, oid.to_string());
    assert_eq!(commit.message, Some(String::from("first message")));
    assert_eq!(commit.author.name, Some(String::from("tester")));
    assert_eq!(commit.committer.email, Some(String::from("tester@example.test")));
    assert!(commit.timestamp > 0);
}

#[test]
fn last_commit_on_a_missing_branch_is_ref_not_found() {
    let dir = tempfile::tempdir().unwrap();
    let path = dir.path().to_str().unwrap();
    let native = git2::Repository::init(path).unwrap();
    commit_file(&native, "a.txt", b"a", "first");

    let repo = GitRepository::open(path).unwrap();
    let err = repo.get_last_commit("missing").unwrap_err();
    assert!(matches!(err, SyncError::RefNotFound(_)));
}

#[test]
fn checkout_resolves_only_existing_branches() {
    let dir = tempfile::tempdir().unwrap();
    let path = dir.path().to_str().unwrap();
    let native = git2::Repository::init(path).unwrap();
    commit_file(&native, "a.txt", b"a", "first");
    let branch = head_branch_name(&native);

    let repo = GitRepository::open(path).unwrap();
    assert!(repo.checkout(&branch).is_ok());
    let err = repo.checkout("missing").unwrap_err();
    assert!(matches!(err, SyncError::RefNotFound(_)));
}

#[test]
fn remotes_listing_shows_the_clone_origin() {
    let src = tempfile::tempdir().unwrap();
    let src_path = src.path().to_str().unwrap();
    let native = git2::Repository::init(src_path).unwrap();
    commit_file(&native, "a.txt", b"a", "first");

    let dest = tempfile::tempdir().unwrap();
    let dest_path = dest.path().join("checkout");
    let repo = GitRepository::clone(src_path, dest_path.to_str().unwrap()).unwrap();
    let remotes = repo.get_remotes().unwrap();
    assert_eq!(remotes.len(), 1);
    assert_eq!(remotes[0].name, Some(String::from("origin")));
    assert_eq!(remotes[0].url, Some(String::from(src_path)));
    assert_eq!(remotes[0].push_url, None);
}

#[test]
fn fetch_from_an_unknown_remote_is_remote_not_found() {
    let dir = tempfile::tempdir().unwrap();
    let path = dir.path().to_str().unwrap();
    let native = git2::Repository::init(path).unwrap();
    commit_file(&native, "a.txt", b"a", "first");

    let repo = GitRepository::open(path).unwrap();
    let err = repo.fetch("nosuch", "main").unwrap_err();
    assert!(matches!(err, SyncError::RemoteNotFound(_)));
}

#[test]
fn fetch_from_an_unreachable_remote_is_a_network_error() {
    let dir = tempfile::tempdir().unwrap();
    let path = dir.path().to_str().unwrap();
    let native = git2::Repository::init(path).unwrap();
    commit_file(&native, "a.txt", b"a", "first");
    native.remote("origin", "/path/that/does/not/exist").unwrap();

    let repo = GitRepository::open(path).unwrap();
    let err = repo.fetch("origin", "main").unwrap_err();
    assert!(matches!(err, SyncError::NetworkError(_)));
}

#[test]
fn pull_converges_the_checkout_on_upstream() {
    let src = tempfile::tempdir().unwrap();
    let src_path = src.path().to_str().unwrap();
    let upstream = git2::Repository::init(src_path).unwrap();
    commit_file(&upstream, "a.txt", b"a", "first");
    let branch = head_branch_name(&upstream);

    let dest = tempfile::tempdir().unwrap();
    let dest_path = dest.path().join("checkout");
    let dest_path = dest_path.to_str().unwrap();
    let repo = GitRepository::clone(src_path, dest_path).unwrap();

    // Upstream moves ahead after the clone.
    let newer = commit_file(&upstream, "a.txt", b"b", "second");
    assert_ne!(
        repo.get_last_commit(&branch).unwrap().id,
        newer.to_string()
    );

    repo.pull("origin", &branch).unwrap();
    assert_eq!(
        repo.get_last_commit(&branch).unwrap().id,
        newer.to_string()
    );
}

#[test]
fn pull_of_a_branch_the_remote_lacks_fails_without_moving_the_branch() {
    let src = tempfile::tempdir().unwrap();
    let src_path = src.path().to_str().unwrap();
    let upstream = git2::Repository::init(src_path).unwrap();
    commit_file(&upstream, "a.txt", b"a", "first");
    let branch = head_branch_name(&upstream);

    let dest = tempfile::tempdir().unwrap();
    let dest_path = dest.path().join("checkout");
    let repo = GitRepository::clone(src_path, dest_path.to_str().unwrap()).unwrap();
    let before = repo.get_last_commit(&branch).unwrap().id;

    // The transfer itself moves nothing for an unknown branch, so the pull
    // stops at the reset step: the tracking reference it must reset to was
    // never created.
    let err = repo.pull("origin", "missing").unwrap_err();
    assert!(matches!(err, SyncError::ResetFailed(_)), "unexpected kind: {:?}", err);
    assert_eq!(repo.get_last_commit(&branch).unwrap().id, before);
}

#[test]
fn requests_are_dispatched_through_the_guard() {
    let src = tempfile::tempdir().unwrap();
    let src_path = src.path().to_str().unwrap();
    let upstream = git2::Repository::init(src_path).unwrap();
    let oid = commit_file(&upstream, "a.txt", b"a", "first");
    let branch = head_branch_name(&upstream);

    let dest = tempfile::tempdir().unwrap();
    let dest_path = dest.path().join("checkout");
    let repo = GitRepository::clone(src_path, dest_path.to_str().unwrap()).unwrap();
    let mut guard = SyncGuard::new(repo);

    assert_eq!(handle_request(&mut guard, HttpMethod::Get, "/"), ApiResponse::Alive);
    assert_eq!(
        handle_request(&mut guard, HttpMethod::Get, "/nothing/here"),
        ApiResponse::NotFound
    );

    match handle_request(&mut guard, HttpMethod::Get, "/branches/local") {
        ApiResponse::Branches(list) => assert!(list.contains(&branch)),
        other => panic!("unexpected response: {:?}", other),
    }

    let path = format!("/branch/{}", branch);
    match handle_request(&mut guard, HttpMethod::Get, &path) {
        ApiResponse::Commit(commit) => assert_eq!(commit.id, oid.to_string()),
        other => panic!("unexpected response: {:?}", other),
    }

    match handle_request(&mut guard, HttpMethod::Other, "/branch/missing/checkout") {
        ApiResponse::Failure(e) => {
            assert!(matches!(e, SyncError::RefNotFound(_)));
            assert!(!e.message().is_empty());
        },
        other => panic!("unexpected response: {:?}", other),
    }

    match handle_request(&mut guard, HttpMethod::Get, "/remotes") {
        ApiResponse::Remotes(list) => {
            assert_eq!(list.len(), 1);
            assert_eq!(list[0].name, Some(String::from("origin")));
        },
        other => panic!("unexpected response: {:?}", other),
    }

    let fetch_path = format!("/branch/{}/fetch", branch);
    assert_eq!(
        handle_request(&mut guard, HttpMethod::Other, &fetch_path),
        ApiResponse::Empty
    );

    let pull_path = format!("/branch/{}/pull", branch);
    assert_eq!(
        handle_request(&mut guard, HttpMethod::Other, &pull_path),
        ApiResponse::Empty
    );
}

#[test]
fn listing_around_a_pull_reflects_a_sequential_order() {
    let src = tempfile::tempdir().unwrap();
    let src_path = src.path().to_str().unwrap();
    let upstream = git2::Repository::init(src_path).unwrap();
    commit_file(&upstream, "a.txt", b"a", "first");
    let branch = head_branch_name(&upstream);

    let dest = tempfile::tempdir().unwrap();
    let dest_path = dest.path().join("checkout");
    let repo = GitRepository::clone(src_path, dest_path.to_str().unwrap()).unwrap();
    commit_file(&upstream, "a.txt", b"b", "second");
    let mut guard = SyncGuard::new(repo);

    let list = |guard: &mut SyncGuard| match handle_request(guard, HttpMethod::Get, "/branches/local") {
        ApiResponse::Branches(list) => list,
        other => panic!("unexpected response: {:?}", other),
    };

    // Both orders the guard admits yield a listing that is a state of the
    // sequential order: the same set of local branches before and after
    // this pull, never a partial view.
    let before = list(&mut guard);
    let pull_path = format!("/branch/{}/pull", branch);
    assert_eq!(
        handle_request(&mut guard, HttpMethod::Other, &pull_path),
        ApiResponse::Empty
    );
    let after = list(&mut guard);
    assert_eq!(before, vec![branch.clone()]);
    assert_eq!(after, vec![branch]);
}
