//! A relay of encoded image frames from named sources to live viewers.

pub mod broadcaster;
pub mod guarantees;
pub mod ingest;
pub mod page;
pub mod registry;
pub mod session;
pub mod text;
