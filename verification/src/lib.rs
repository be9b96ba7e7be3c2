//! File-identity handles for cycle detection during directory traversal.
//!
//! The library decides whether two open file handles refer to the same
//! underlying file.  At construction time a handle captures an identity key
//! (the storage volume's serial number together with the file's index on that
//! volume) and all later comparisons go through that key.  Handles over the
//! process's standard streams are special: when the identity query on such a
//! stream fails, the handle is still constructed, but with an absent key, and
//! then compares equal to no other handle.
//!
//! The operating-system work itself (opening paths, querying metadata,
//! wrapping the raw standard streams) lives with the caller; this crate holds
//! the identity model and every decision taken on the OS's answers.

mod error;
mod handle;
mod key;

pub use error::Error;
pub use handle::Handle;
pub use handle::HandleKind;
pub use key::Key;
