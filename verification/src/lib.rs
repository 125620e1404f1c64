//! Tools for keeping a locally cloned contract project in step with the
//! on-chain contract instance it was cloned from: the persisted clone
//! descriptor, a compile cache, a storage-layout compatibility checker, and
//! the generation of replacement ("tweaked") bytecode.

pub mod descriptor;
pub mod errors;
pub mod hex;
pub mod layout;
pub mod metadata;
pub mod project;
pub mod tweak;
