//! A flat administrator registry: bootstrap once, then let current
//! administrators add and remove others, never leaving the set empty.

pub mod error;
pub mod principal;
pub mod store;
pub mod manager;
pub mod laws;
