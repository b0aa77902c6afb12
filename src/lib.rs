//! Commit categories for emoji-tagged commit messages: a closed, ordered set
//! of five categories, each with an emoji, a description and the semantic
//! versioning bump it calls for.

pub mod bump_level;
pub mod commit_type;
pub mod iterator;

pub use bump_level::BumpLevel;
pub use commit_type::CommitType;
pub use iterator::CommitTypeIterator;
