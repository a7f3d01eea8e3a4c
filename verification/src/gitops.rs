use crate::descriptors::{Contributor, GitCommit, GitRemote};
use vstd::prelude::*;

verus! {

// The engine-native types that cross the boundary. Each is opaque: the
// library carries values of them through, and reads them only via the
// wrappers below.
#[verifier::external_type_specification]
#[verifier::external_body]
pub struct ExRepository(git2::Repository);

#[verifier::external_type_specification]
#[verifier::external_body]
pub struct ExGitError(git2::Error);

#[verifier::external_type_specification]
#[verifier::external_body]
pub struct ExOid(git2::Oid);

#[verifier::external_type_specification]
#[verifier::external_body]
pub struct ExRemote<'a>(git2::Remote<'a>);

#[verifier::external_type_specification]
#[verifier::external_body]
pub struct ExCommit<'a>(git2::Commit<'a>);

#[verifier::external_type_specification]
#[verifier::external_body]
pub struct ExObject<'a>(git2::Object<'a>);

#[verifier::external_type_specification]
#[verifier::external_body]
pub struct ExBranch<'a>(git2::Branch<'a>);

/// Relies on git2::Error::message: the engine's human-readable text for
/// the failure.
#[verifier::external_body]
pub(crate) fn error_message(e: &git2::Error) -> String {
    e.message().to_string()
}

/// Relies on git2::Repository::open: opens the repository at `path`,
/// failing if the path does not hold a usable one.
#[verifier::external_body]
pub(crate) fn open_repository(path: &str) -> Result<git2::Repository, git2::Error> {
    git2::Repository::open(path)
}

/// Relies on git2::Repository::clone: clones the repository at `url` into
/// `path`, failing if the transfer or the checkout cannot complete.
#[verifier::external_body]
pub(crate) fn clone_repository(url: &str, path: &str) -> Result<git2::Repository, git2::Error> {
    git2::Repository::clone(url, path)
}

/// Relies on git2::Repository::remotes: the configured remote names, one
/// entry per remote; a name that is not valid UTF-8 becomes `None`.
#[verifier::external_body]
pub(crate) fn remote_names(repo: &git2::Repository) -> Result<Vec<Option<String>>, git2::Error> {
    Ok(repo.remotes()?.iter().map(|name| name.ok().flatten().map(String::from)).collect())
}

/// Relies on git2::Repository::find_remote: resolves one configured remote
/// by name.
#[verifier::external_body]
pub(crate) fn resolve_remote<'r>(repo: &'r git2::Repository, name: &str) -> Result<
    git2::Remote<'r>,
    git2::Error,
> {
    repo.find_remote(name)
}

/// Relies on git2::Remote::name, ::url and ::pushurl: copies one remote
/// into a plain descriptor record. A name or push URL the engine stores
/// as absent or as non-UTF-8 text becomes `None`; an absent URL, however,
/// the engine itself reports as an empty string, so it arrives here as
/// `Some("")` and the caller restores the absence.
#[verifier::external_body]
pub(crate) fn remote_descriptor(remote: &git2::Remote) -> GitRemote {
    GitRemote {
        name: remote.name().ok().flatten().map(String::from),
        url: remote.url().ok().map(String::from),
        push_url: remote.pushurl().ok().flatten().map(String::from),
    }
}

/// Relies on git2::Remote::fetch with default options: asks the remote to
/// transfer the named branch's objects and update the remote-tracking
/// reference for it.
#[verifier::external_body]
pub(crate) fn fetch_branch(remote: &mut git2::Remote, branch: &str) -> Result<(), git2::Error> {
    remote.fetch(&[branch], None, None)
}

/// Relies on git2::Repository::branches and git2::Branch::name: the branch
/// names of one namespace (local when `local` holds, remote-tracking
/// otherwise), one entry per branch the engine enumerates; an entry the
/// engine reports in error, or whose name is absent or not valid UTF-8,
/// becomes `None`.
#[verifier::external_body]
pub(crate) fn branch_names(repo: &git2::Repository, local: bool) -> Result<
    Vec<Option<String>>,
    git2::Error,
> {
    let kind = if local {
        git2::BranchType::Local
    } else {
        git2::BranchType::Remote
    };
    let branches = repo.branches(Some(kind))?;
    Ok(branches.map(
        |entry| entry.ok().and_then(|(branch, _)| branch.name().ok().flatten().map(String::from)),
    ).collect())
}

/// Relies on git2::Repository::find_branch with the local branch type:
/// resolves one local branch by name, failing when it does not exist.
#[verifier::external_body]
pub(crate) fn find_local_branch<'r>(repo: &'r git2::Repository, branch: &str) -> Result<
    git2::Branch<'r>,
    git2::Error,
> {
    repo.find_branch(branch, git2::BranchType::Local)
}

/// Relies on git2::Branch::get and git2::Reference::peel_to_commit: the
/// commit the branch's reference currently points at.
#[verifier::external_body]
pub(crate) fn branch_tip_commit<'r>(branch: &git2::Branch<'r>) -> Result<
    git2::Commit<'r>,
    git2::Error,
> {
    branch.get().peel_to_commit()
}

/// Relies on git2::Commit::author and ::committer and on
/// git2::Signature::name and ::email: copies the two identities attached
/// to a commit into plain records, author first; a field the engine stores
/// as absent or as non-UTF-8 text becomes `None`.
#[verifier::external_body]
pub(crate) fn commit_identities(item: &git2::Commit) -> (Contributor, Contributor) {
    let (a, c) = (item.author(), item.committer());
    (
        Contributor { name: a.name().ok().map(String::from), email: a.email().ok().map(String::from) },
        Contributor { name: c.name().ok().map(String::from), email: c.email().ok().map(String::from) },
    )
}

/// Relies on git2::Commit's accessors (id, tree_id, message, raw_header,
/// summary, time): copies one commit into a plain descriptor record around
/// the two identities the caller already translated, which are embedded
/// verbatim; a text field the engine stores as absent or as non-UTF-8
/// becomes `None`.
#[verifier::external_body]
pub(crate) fn commit_record(
    item: &git2::Commit,
    author: Contributor,
    committer: Contributor,
) -> (r: GitCommit)
    ensures
        r.author == author,
        r.committer == committer,
{
    GitCommit {
        id: item.id().to_string(),
        tree_id: item.tree_id().to_string(),
        message: item.message().ok().map(String::from),
        header: item.raw_header().ok().map(String::from),
        summary: item.summary().ok().flatten().map(String::from),
        timestamp: item.time().seconds(),
        author,
        committer,
    }
}

/// Relies on git2::Repository::revparse_single: resolves a revision
/// specification to the single object it names.
#[verifier::external_body]
pub(crate) fn resolve_revspec<'r>(repo: &'r git2::Repository, revspec: &str) -> Result<
    git2::Object<'r>,
    git2::Error,
> {
    repo.revparse_single(revspec)
}

/// Relies on git2::Repository::checkout_tree with default options:
/// overwrites the working tree to match the given object's content.
#[verifier::external_body]
pub(crate) fn materialize_tree(repo: &git2::Repository, target: &git2::Object) -> Result<
    (),
    git2::Error,
> {
    repo.checkout_tree(target, None)
}

/// Relies on git2::Repository::refname_to_id: the id of the commit the
/// fully-qualified reference points at.
#[verifier::external_body]
pub(crate) fn resolve_refname(repo: &git2::Repository, refname: &str) -> Result<
    git2::Oid,
    git2::Error,
> {
    repo.refname_to_id(refname)
}

/// Relies on git2::Repository::find_object: looks an object up by id.
#[verifier::external_body]
pub(crate) fn lookup_object<'r>(repo: &'r git2::Repository, id: git2::Oid) -> Result<
    git2::Object<'r>,
    git2::Error,
> {
    repo.find_object(id, None)
}

/// Relies on git2::Repository::reset with ResetType::Hard: moves the
/// current branch to the given object and overwrites both the index and
/// the working tree to match it, discarding uncommitted changes.
#[verifier::external_body]
pub(crate) fn hard_reset(repo: &git2::Repository, target: &git2::Object) -> Result<
    (),
    git2::Error,
> {
    repo.reset(target, git2::ResetType::Hard, None)
}

} // verus!
