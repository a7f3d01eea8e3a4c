use crate::repository::GitRepository;
use vstd::prelude::*;

verus! {

/// The serializing facade around the one repository handle.
///
/// The underlying engine's repository object supports no concurrent
/// mutation and no mutation during a read, so every operation — reads and
/// writes alike, there is no read/write distinction — must hold exclusive
/// access for its whole duration. The guard owns the handle outright and
/// hands it out only through `repository`, which demands an exclusive
/// borrow of the guard: one critical section per operation, scoped to that
/// operation alone. A process that serves requests from several threads
/// wraps the guard in one process-wide mutual-exclusion lock; queuing for
/// that lock is then the only blocking an operation suffers.
pub struct SyncGuard {
    repo: GitRepository,
}

impl SyncGuard {
    /// Takes sole ownership of the bootstrapped handle; no other path to
    /// the underlying repository object remains.
    pub fn new(repo: GitRepository) -> SyncGuard {
        SyncGuard { repo }
    }

    /// One guarded critical section: the handle, for exactly as long as
    /// the exclusive borrow of the guard lasts.
    pub fn repository(&mut self) -> &GitRepository {
        &self.repo
    }
}

} // verus!
