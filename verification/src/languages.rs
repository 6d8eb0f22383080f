//! What is specific to the ecosystem of one language.

pub mod cpp;
