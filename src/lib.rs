//! Archiving of parameterized feeds: descriptors of the feeds to fetch, the
//! paths they are stored under, and the bounded batch that fetches them.

pub mod config;
pub mod feed;
pub mod batch;
pub mod paths;
pub mod report;
