//! License classification for the dependencies of a software project,
//! verified. The library keeps a versioned, time-bounded snapshot of the
//! license taxonomy, brings license identifiers into a canonical spelling,
//! decides whether a license is restrictive and whether it is compatible with
//! the project's own, and lays out what it found in reports and in an
//! interactive table. Files, the network and the terminal are the caller's
//! business: every function here works on values that it is handed.

pub mod cache;
pub mod cache_format;
pub mod detect;
pub mod document;
pub mod fetch;
pub mod languages;
pub mod license_laws;
pub mod licenses;
pub mod order;
pub mod parser;
pub mod pattern;
pub mod reporter;
pub mod table;
pub mod text;
pub mod versions;
