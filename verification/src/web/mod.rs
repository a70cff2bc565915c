//! The logic of the in-cluster web service: module catalog, install jobs,
//! and the answers of its API.
pub mod catalog;
pub mod jobs;
pub mod responses;
pub mod templating;
