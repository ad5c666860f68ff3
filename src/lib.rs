//! A minimal package manager's core: mirror ordering, fallback over mirrors
//! when fetching, and the filesystem plans that install, roll back and delete
//! a package. The I/O around these decisions is done by the caller.

pub mod mirrors;
pub mod download;
pub mod fsplan;
pub mod install;
pub mod delete;
pub mod permissions;
