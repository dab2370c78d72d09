//! Decision logic for a pair of archive tools: telling whether a file that is
//! already on disk holds the same bytes as an archive entry, and naming
//! entries and destinations.

pub mod catalogue;
pub mod conflict;
pub mod controller;
pub mod errors;
pub mod extraction;
pub mod paths;
pub mod report;
pub mod resolver;
pub mod text;
