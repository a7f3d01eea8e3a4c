use crate::descriptors::{GitCommit, GitRemote};
use crate::errors::SyncError;
use crate::repository::GitRepository;
use vstd::prelude::*;

verus! {

/// The transport-independent shape of a response: what the dispatching
/// layer hands back for one request, before any encoding. A `Failure`
/// carries the error kind so that a caller can tell a retryable failure
/// from a caller error; the transport layer renders it as a server-error
/// response with the message, and never crashes the process for it.
#[derive(Debug, Clone, PartialEq, Eq)]
pub enum ApiResponse {
    Alive,
    NotFound,
    Empty,
    Remotes(Vec<GitRemote>),
    Branches(Vec<String>),
    Commit(GitCommit),
    Failure(SyncError),
}

/// The liveness answer.
pub fn index() -> (r: ApiResponse)
    ensures
        r is Alive,
{
    ApiResponse::Alive
}

/// The answer for a request that matches no route.
pub fn not_found() -> (r: ApiResponse)
    ensures
        r is NotFound,
{
    ApiResponse::NotFound
}

/// Lists the configured remotes.
pub fn remotes(repo: &GitRepository) -> (r: ApiResponse)
    ensures
        r is Remotes || (r matches ApiResponse::Failure(e) && e is EngineFailure),
{
    match repo.get_remotes() {
        Ok(list) => ApiResponse::Remotes(list),
        Err(e) => ApiResponse::Failure(e),
    }
}

/// Lists the local branch names.
pub fn local_branches(repo: &GitRepository) -> (r: ApiResponse)
    ensures
        r is Branches || (r matches ApiResponse::Failure(e) && e is EngineFailure),
{
    match repo.get_local_branches() {
        Ok(list) => ApiResponse::Branches(list),
        Err(e) => ApiResponse::Failure(e),
    }
}

/// Lists the remote-tracking branch names.
pub fn remote_branches(repo: &GitRepository) -> (r: ApiResponse)
    ensures
        r is Branches || (r matches ApiResponse::Failure(e) && e is EngineFailure),
{
    match repo.get_remote_branches() {
        Ok(list) => ApiResponse::Branches(list),
        Err(e) => ApiResponse::Failure(e),
    }
}

/// The last commit on the named local branch.
pub fn last_commit(repo: &GitRepository, branch: &str) -> (r: ApiResponse)
    ensures
        r is Commit || (r matches ApiResponse::Failure(e) && (e is RefNotFound
            || e is EngineFailure)),
{
    match repo.get_last_commit(branch) {
        Ok(commit) => ApiResponse::Commit(commit),
        Err(e) => ApiResponse::Failure(e),
    }
}

/// Materializes the working tree from the named local branch.
pub fn checkout(repo: &GitRepository, branch: &str) -> (r: ApiResponse)
    ensures
        r is Empty || (r matches ApiResponse::Failure(e) && (e is RefNotFound
            || e is EngineFailure)),
{
    match repo.checkout(branch) {
        Ok(()) => ApiResponse::Empty,
        Err(e) => ApiResponse::Failure(e),
    }
}

/// Fetches the named branch from the default `origin` remote, the one
/// remote the branch-scoped routes are fixed to.
pub fn fetch(repo: &GitRepository, branch: &str) -> (r: ApiResponse)
    ensures
        r is Empty || (r matches ApiResponse::Failure(e) && (e is RemoteNotFound
            || e is NetworkError)),
{
    match repo.fetch("origin", branch) {
        Ok(()) => ApiResponse::Empty,
        Err(e) => ApiResponse::Failure(e),
    }
}

/// Pulls the named branch from the default `origin` remote: fetch, then
/// hard-reset onto the updated tracking reference, discarding uncommitted
/// local changes.
pub fn pull(repo: &GitRepository, branch: &str) -> (r: ApiResponse)
    ensures
        r is Empty || (r matches ApiResponse::Failure(e) && (e is RemoteNotFound
            || e is NetworkError || e is ResetFailed)),
{
    match repo.pull("origin", branch) {
        Ok(()) => ApiResponse::Empty,
        Err(e) => ApiResponse::Failure(e),
    }
}

} // verus!
