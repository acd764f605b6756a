//! Directory scanning rules: which entries of a directory a scan reports, and
//! how a recursive scan moves through a tree of directories.
//!
//! The crate holds the decisions only. Listing a directory, asking for the type
//! of an entry and opening a subdirectory are done by the caller, who hands each
//! outcome to the scanner and is told what to do next.

pub mod settings;
pub mod filter;
pub mod error;
pub mod event;
pub mod iter;
pub mod walk;
pub mod tree;

pub use error::Error;
pub use iter::Iter;
pub use settings::ScanDir;
pub use walk::Walker;
