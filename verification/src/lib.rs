use vstd::prelude::*;

pub mod cli;
pub mod config;
pub mod context_menu;
pub mod explorer;
pub mod ipc;
pub mod keybindings;
pub mod markdown;
pub mod menu;
pub mod navigation;
pub mod pinned_search;
pub mod sorting;
pub mod text;
pub mod viewer;

verus! {
} // verus!
