//! A read-only view of a git commit: its identifier, tree, parents,
//! signatures, time and message, read through `git2`.

pub mod extern_git;
pub mod oid;
pub mod signature;
pub mod commit;
