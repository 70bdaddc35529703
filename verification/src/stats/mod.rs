//! Numeric newtypes and the stat resolver.

pub mod base;
pub mod effective;
pub mod modifier;
pub mod types;
