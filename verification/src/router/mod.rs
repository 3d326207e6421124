//! The `router` macro: routes written as a tree of nested paths, flattened into the list
//! of full paths and what each path serves.

pub mod stage1;
pub mod stage2;
