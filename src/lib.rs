//! Locates wildcard byte signatures inside an executable image and rewrites
//! them in place, refusing any write that would land outside a data section.

pub mod binary;
pub mod engine;
pub mod errors;
pub mod keys;
pub mod patcher;
pub mod patterns;
pub mod platform;
pub mod text;
pub mod trinity;
pub mod section;
