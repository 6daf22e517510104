//! Branch names that carry a conventional-commit header, and the pending
//! commit messages kept beside the repository until the work is finished.

pub mod codec;
pub mod create;
pub mod error;
pub mod finish;
pub mod slugs;
pub mod store;
pub mod text;
