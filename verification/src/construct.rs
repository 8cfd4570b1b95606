//! The constructs this crate registers with the runtime.

pub mod partial_space_or_tab;
