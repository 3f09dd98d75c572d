//! In-memory manipulation of the version fields of a workspace's package
//! manifests: parse each manifest into a generic document tree, bump the
//! `package.version` field of one or all packages by semantic-versioning
//! rules, and render every document back to text.

pub mod codec;
pub mod doc;
pub mod errors;
pub mod session;
pub mod version;
