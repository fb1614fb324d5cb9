//! Inventory of a set of GitHub repositories: which repositories are listed,
//! what each lookup about a repository means, how the answers are merged
//! into one record per repository, and how the records become a report.
//!
//! The library computes; it never talks to the network, reads files or
//! prints. A caller sends the requests that the library describes and hands
//! back what came in.
//!
//! A scan goes through the modules in this order: [`config`] reads the mode
//! and the settings, [`request`] describes the requests, [`repository`]
//! chooses the repositories of the listing, [`lookup`] and [`enrichment`]
//! turn the replies into one record per repository, and [`report`] lays the
//! records out as a table.

pub mod config;
pub mod enrichment;
pub mod lookup;
pub mod report;
pub mod repository;
pub mod request;
pub mod text;

pub use crate::enrichment::CustomRepo;
pub use crate::report::FullRepo;
pub use crate::repository::GithubRepo;
