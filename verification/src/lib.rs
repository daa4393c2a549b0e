//! Deployment of a protocol to many chains, as far as it is decided rather
//! than done: which chains a run targets, how the deployer is called for each,
//! what its output tells, and where its records and logs go. Reading files,
//! running the deployer and moving files are left to the caller, who hands in
//! what was read and carries out the steps that are planned here.

pub mod executor;
pub mod files;
pub mod interpreter;
pub mod recorder;
pub mod registry;
pub mod relocator;
pub mod request;
pub mod text;
