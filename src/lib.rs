//! Host-side bookkeeping for a hot-reloadable game library.
//!
//! The editor loads the compiled game as a dynamic library and asks it to fill a
//! reflection type registry. That registry holds pointers into the library's code,
//! so it must never outlive the library: [`GameLibrary`] keeps the two together and
//! tears them down in the only safe order.
pub mod library;

pub use library::{GameLibrary, UnloadError};
