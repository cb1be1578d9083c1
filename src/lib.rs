//! Cutting a release: the changelog section for a version, the release request
//! that carries it, and the decisions taken around tagging.
pub mod changelog;
pub mod ci;
pub mod document;
pub mod extract;
pub mod git;
pub mod laws;
pub mod markdown;
pub mod github;
pub mod version;
