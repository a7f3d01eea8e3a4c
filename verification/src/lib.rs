//! A library for keeping one local checkout of a remote version-control
//! repository synchronized with an upstream branch: the bootstrap protocol
//! (open an existing repository or clone a fresh one), the read operations
//! (list remotes, list branches, last commit on a branch), the mutating
//! operations (checkout, fetch, destructive pull), the single-writer
//! discipline that makes concurrent requests against one on-disk repository
//! safe, and the request routing that maps an HTTP-shaped command onto those
//! operations.

pub mod controller;
pub mod descriptors;
pub mod errors;
mod gitops;
pub mod guard;
pub mod listing;
pub mod model;
pub mod repository;
pub mod router;
