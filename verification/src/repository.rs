use crate::descriptors::{GitCommit, GitRemote};
use crate::errors::SyncError;
use crate::gitops;
use crate::listing::{decoded_entries, resolved_entries};
use crate::model::BootstrapMethod;
use vstd::prelude::*;

verus! {

/// The handle that owns the one on-disk repository. Exactly one instance
/// exists per process, bound to one path for the process lifetime; every
/// caller reaches it through the `SyncGuard` so that at most one operation
/// at a time touches the working tree or the index.
pub struct GitRepository {
    repo: git2::Repository,
}

/// The result of a successful bootstrap: the handle, and which arm of the
/// open-or-clone protocol produced it.
pub struct Bootstrapped {
    pub repo: GitRepository,
    pub method: BootstrapMethod,
}

/// The fully-qualified name of a local branch reference.
pub fn local_ref_name(branch: &str) -> (r: String)
    ensures
        r@ == "refs/heads/"@ + branch@,
{
    String::from_str("refs/heads/").concat(branch)
}

/// The fully-qualified name of a remote-tracking branch reference.
pub fn tracking_ref_name(remote: &str, branch: &str) -> (r: String)
    ensures
        r@ == "refs/remotes/"@ + remote@ + "/"@ + branch@,
{
    String::from_str("refs/remotes/").concat(remote).concat("/").concat(branch)
}

/// Restores the absent-vs-empty distinction on a remote's URL: the engine
/// reports a remote with no configured URL as an empty string, while the
/// descriptor keeps an absent field as `None`, so an empty URL becomes
/// absence. The name and push URL pass through unchanged.
pub fn normalize_remote_url(r: GitRemote) -> (out: GitRemote)
    ensures
        out.name == r.name,
        out.push_url == r.push_url,
        out.url == (match r.url {
            Some(u) => if u@.len() == 0 {
                None::<String>
            } else {
                Some(u)
            },
            None => None::<String>,
        }),
{
    match r.url {
        Some(u) => {
            if u.as_str().is_empty() {
                GitRemote { name: r.name, url: None, push_url: r.push_url }
            } else {
                GitRemote { name: r.name, url: Some(u), push_url: r.push_url }
            }
        },
        None => GitRemote { name: r.name, url: None, push_url: r.push_url },
    }
}

impl GitRepository {
    /// Opens the existing repository at `path`; any failure (path absent,
    /// not a repository, corrupted metadata) is a bootstrap failure.
    pub fn open(path: &str) -> (r: Result<GitRepository, SyncError>)
        ensures
            r matches Err(e) ==> e is BootstrapFailure,
    {
        match gitops::open_repository(path) {
            Ok(repo) => Ok(GitRepository { repo }),
            Err(e) => Err(SyncError::BootstrapFailure(gitops::error_message(&e))),
        }
    }

    /// Clones the repository at `url` into `path`; any failure is a
    /// bootstrap failure.
    pub fn clone(remote: &str, path: &str) -> (r: Result<GitRepository, SyncError>)
        ensures
            r matches Err(e) ==> e is BootstrapFailure,
    {
        match gitops::clone_repository(remote, path) {
            Ok(repo) => Ok(GitRepository { repo }),
            Err(e) => Err(SyncError::BootstrapFailure(gitops::error_message(&e))),
        }
    }

    /// The decision half of the bootstrap protocol, taking the outcome of
    /// the open attempt as an argument: an opened repository is used
    /// as-is — no clone is attempted and the handle passes through
    /// unchanged; only on open-failure is a clone of `url` into `path`
    /// attempted; with neither available there is no usable repository.
    /// The contract pins the decision: a `Cloned` result can only follow
    /// a failed open, and a failed open is the only path to failure.
    pub fn resolve_bootstrap(
        opened: Result<GitRepository, SyncError>,
        url: &str,
        path: &str,
    ) -> (r: Result<Bootstrapped, SyncError>)
        ensures
            opened matches Ok(repo) ==> (r matches Ok(b) && b.method is Opened && b.repo == repo),
            r matches Ok(b) ==> (b.method is Cloned ==> opened is Err),
            r matches Err(e) ==> e is BootstrapFailure && opened is Err,
    {
        match opened {
            Ok(repo) => Ok(Bootstrapped { repo, method: BootstrapMethod::Opened }),
            Err(_) => match Self::clone(url, path) {
                Ok(repo) => Ok(Bootstrapped { repo, method: BootstrapMethod::Cloned }),
                Err(e) => Err(e),
            },
        }
    }

    /// The open-or-clone bootstrap protocol: open the repository already
    /// at `path` and use it as-is (no implicit fetch or reset); only when
    /// opening fails, clone `url` into `path`; when both fail the service
    /// has no usable repository and must not start. The returned method
    /// records which arm succeeded; `resolve_bootstrap` carries the
    /// decision's contract.
    pub fn bootstrap(url: &str, path: &str) -> (r: Result<Bootstrapped, SyncError>)
        ensures
            r matches Err(e) ==> e is BootstrapFailure,
    {
        Self::resolve_bootstrap(Self::open(path), url, path)
    }

    /// The configured remotes as descriptor records. A remote whose name
    /// does not decode, or whose entry cannot be resolved, is dropped from
    /// the result rather than failing the whole listing; only a failure to
    /// enumerate the names at all is an error.
    pub fn get_remotes(&self) -> (r: Result<Vec<GitRemote>, SyncError>)
        ensures
            r matches Err(e) ==> e is EngineFailure,
    {
        let raw = match gitops::remote_names(&self.repo) {
            Ok(raw) => raw,
            Err(e) => {
                return Err(SyncError::EngineFailure(gitops::error_message(&e)));
            },
        };
        let names = decoded_entries(raw);
        let mut resolved: Vec<Result<GitRemote, git2::Error>> = Vec::new();
        let mut i: usize = 0;
        while i < names.len()
            decreases names.len() - i,
        {
            match gitops::resolve_remote(&self.repo, names[i].as_str()) {
                Ok(remote) => resolved.push(
                    Ok(normalize_remote_url(gitops::remote_descriptor(&remote))),
                ),
                Err(e) => resolved.push(Err(e)),
            }
            i += 1;
        }
        Ok(resolved_entries(resolved))
    }

    /// The branch names of one namespace. A branch whose name cannot be
    /// decoded is dropped from the result rather than failing the listing;
    /// the order is whatever the engine's enumeration yields.
    fn get_branches(&self, local: bool) -> (r: Result<Vec<String>, SyncError>)
        ensures
            r matches Err(e) ==> e is EngineFailure,
    {
        match gitops::branch_names(&self.repo, local) {
            Ok(raw) => Ok(decoded_entries(raw)),
            Err(e) => Err(SyncError::EngineFailure(gitops::error_message(&e))),
        }
    }

    /// The local branch names; see `get_branches` for the drop policy.
    pub fn get_local_branches(&self) -> (r: Result<Vec<String>, SyncError>)
        ensures
            r matches Err(e) ==> e is EngineFailure,
    {
        self.get_branches(true)
    }

    /// The remote-tracking branch names; see `get_branches` for the drop
    /// policy.
    pub fn get_remote_branches(&self) -> (r: Result<Vec<String>, SyncError>)
        ensures
            r matches Err(e) ==> e is EngineFailure,
    {
        self.get_branches(false)
    }

    /// The commit the named local branch points at, as a descriptor
    /// record. Fails with `RefNotFound` when the branch does not exist,
    /// and with `EngineFailure` when the branch exists but its reference
    /// cannot be peeled to a commit.
    pub fn get_last_commit(&self, branch: &str) -> (r: Result<GitCommit, SyncError>)
        ensures
            r matches Err(e) ==> e is RefNotFound || e is EngineFailure,
    {
        let found = match gitops::find_local_branch(&self.repo, branch) {
            Ok(found) => found,
            Err(e) => {
                return Err(SyncError::RefNotFound(gitops::error_message(&e)));
            },
        };
        match gitops::branch_tip_commit(&found) {
            Ok(commit) => {
                let (author, committer) = gitops::commit_identities(&commit);
                Ok(gitops::commit_record(&commit, author, committer))
            },
            Err(e) => Err(SyncError::EngineFailure(gitops::error_message(&e))),
        }
    }

    /// Overwrites the working tree to match the content of
    /// `refs/heads/<branch>`. This is tree materialization only: the
    /// current HEAD pointer is not durably moved. Fails with `RefNotFound`
    /// when the branch reference does not resolve, and with
    /// `EngineFailure` when the tree cannot be written.
    pub fn checkout(&self, branch: &str) -> (r: Result<(), SyncError>)
        ensures
            r matches Err(e) ==> e is RefNotFound || e is EngineFailure,
    {
        let refname = local_ref_name(branch);
        let target = match gitops::resolve_revspec(&self.repo, refname.as_str()) {
            Ok(obj) => obj,
            Err(e) => {
                return Err(SyncError::RefNotFound(gitops::error_message(&e)));
            },
        };
        match gitops::materialize_tree(&self.repo, &target) {
            Ok(()) => Ok(()),
            Err(e) => Err(SyncError::EngineFailure(gitops::error_message(&e))),
        }
    }

    /// Asks the named remote to transfer the named branch's objects and
    /// update `refs/remotes/<remote>/<branch>`. Fails with
    /// `RemoteNotFound` when the remote is not configured, and with
    /// `NetworkError` when the transfer cannot complete. Whether the
    /// transfer is atomic per invocation is delegated to the engine.
    pub fn fetch(&self, remote: &str, branch: &str) -> (r: Result<(), SyncError>)
        ensures
            r matches Err(e) ==> e is RemoteNotFound || e is NetworkError,
    {
        let mut resolved = match gitops::resolve_remote(&self.repo, remote) {
            Ok(resolved) => resolved,
            Err(e) => {
                return Err(SyncError::RemoteNotFound(gitops::error_message(&e)));
            },
        };
        match gitops::fetch_branch(&mut resolved, branch) {
            Ok(()) => Ok(()),
            Err(e) => Err(SyncError::NetworkError(gitops::error_message(&e))),
        }
    }

    /// Fetch, then hard-reset the working tree and index to the commit the
    /// updated remote-tracking reference points at. The reset is
    /// destructive: uncommitted local modifications are discarded
    /// unconditionally — no merge, no stash, no conflict detection — so a
    /// successful pull always converges on exactly what upstream has.
    /// Fails with whatever the fetch fails with; a `ResetFailed` after a
    /// successful fetch leaves the tracking reference already advanced
    /// while the working tree is not, an observable intermediate state a
    /// retried pull reconciles.
    pub fn pull(&self, remote: &str, branch: &str) -> (r: Result<(), SyncError>)
        ensures
            r matches Err(e) ==> e is RemoteNotFound || e is NetworkError || e is ResetFailed,
    {
        match self.fetch(remote, branch) {
            Ok(()) => {},
            Err(e) => {
                return Err(e);
            },
        }
        let refname = tracking_ref_name(remote, branch);
        let id = match gitops::resolve_refname(&self.repo, refname.as_str()) {
            Ok(id) => id,
            Err(e) => {
                return Err(SyncError::ResetFailed(gitops::error_message(&e)));
            },
        };
        let target = match gitops::lookup_object(&self.repo, id) {
            Ok(obj) => obj,
            Err(e) => {
                return Err(SyncError::ResetFailed(gitops::error_message(&e)));
            },
        };
        match gitops::hard_reset(&self.repo, &target) {
            Ok(()) => Ok(()),
            Err(e) => Err(SyncError::ResetFailed(gitops::error_message(&e))),
        }
    }
}

} // verus!
