//! Host information snapshots and environment tables, reduced to the plain
//! text values that a page template shows.
pub mod environment;
pub mod memory;
pub mod snapshot;
pub mod text;
pub mod welcome;
