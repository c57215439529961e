//! Registry of Unity projects known to the application: which ones are
//! registered, which carry an activated runtime, and which one has the
//! focus of the user interface.

pub mod commands;
pub mod error;
pub mod identity;
pub mod laws;
pub mod registry;
pub mod status;
pub mod text;
