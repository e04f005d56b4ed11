//! Keyboard shortcut handling: actions, contexts, shortcuts, presets and the matching engine.
pub mod action;
pub mod binding_edit;
pub mod binding_table;
pub mod conflicts;
pub mod context;
pub mod engine;
pub mod hint;
pub mod overlay;
pub mod labels;
pub mod presets;
pub mod shortcut;
