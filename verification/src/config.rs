//! Configuration values that the library's logic reads.
use vstd::prelude::*;

verus! {

/// Behavior for routing externally opened files and directories.
#[derive(Debug, Clone, Copy, PartialEq, Eq, Structural)]
pub enum FileOpenBehavior {
    /// Always create a new window.
    NewWindow,
    /// Open in the last focused visible window when possible.
    LastFocused,
    /// Open in a visible window on the cursor's current screen when possible.
    CurrentScreen,
}

impl Default for FileOpenBehavior {
    fn default() -> (b: FileOpenBehavior)
        ensures
            b == FileOpenBehavior::LastFocused,
    {
        FileOpenBehavior::LastFocused
    }
}

/// The value that an absent boolean setting of the markdown section takes.
pub fn default_true() -> (b: bool)
    ensures
        b,
{
    true
}

/// Configuration for Markdown rendering behavior.
#[derive(Debug, Clone, Copy, PartialEq, Eq, Structural)]
pub struct MarkdownConfig {
    /// Whether bare URLs become clickable links (default: true).
    pub auto_link_urls: bool,
}

impl Default for MarkdownConfig {
    fn default() -> (c: MarkdownConfig)
        ensures
            c.auto_link_urls,
    {
        MarkdownConfig { auto_link_urls: default_true() }
    }
}

/// One configured binding: a shortcut in notation and the name of the action it triggers.
#[derive(Debug, Clone, PartialEq, Eq)]
pub struct KeyAction {
    pub key: String,
    pub action: String,
}

/// A binding as plain values: `(key, action)`.
pub type KeyActionView = (Seq<char>, Seq<char>);

impl View for KeyAction {
    type V = KeyActionView;

    open spec fn view(&self) -> KeyActionView {
        (self.key@, self.action@)
    }
}

/// The views of a list of bindings.
pub open spec fn key_action_views(v: Seq<KeyAction>) -> Seq<KeyActionView> {
    v.map_values(|k: KeyAction| k@)
}

impl KeyAction {
    /// A binding of `key` to `action`.
    pub fn new(key: &str, action: &str) -> (k: KeyAction)
        ensures
            k@ == (key@, action@),
    {
        KeyAction { key: key.to_owned(), action: action.to_owned() }
    }
}

/// The configured keybindings, one list per context; `global` applies everywhere.
#[derive(Debug, Clone, PartialEq, Eq)]
pub struct BindingSet {
    pub global: Vec<KeyAction>,
    pub content: Vec<KeyAction>,
    pub sidebar: Vec<KeyAction>,
    pub quick_access: Vec<KeyAction>,
    pub right_sidebar: Vec<KeyAction>,
    pub search: Vec<KeyAction>,
}

impl Default for BindingSet {
    fn default() -> (b: BindingSet)
        ensures
            b.global@.len() == 0,
            b.content@.len() == 0,
            b.sidebar@.len() == 0,
            b.quick_access@.len() == 0,
            b.right_sidebar@.len() == 0,
            b.search@.len() == 0,
    {
        BindingSet {
            global: Vec::new(),
            content: Vec::new(),
            sidebar: Vec::new(),
            quick_access: Vec::new(),
            right_sidebar: Vec::new(),
            search: Vec::new(),
        }
    }
}

impl BindingSet {
    /// Whether no context has any binding.
    pub fn is_empty(&self) -> (r: bool)
        ensures
            r == (self.global@.len() == 0 && self.content@.len() == 0 && self.sidebar@.len() == 0
                && self.quick_access@.len() == 0 && self.right_sidebar@.len() == 0
                && self.search@.len() == 0),
    {
        self.global.len() == 0 && self.content.len() == 0 && self.sidebar.len() == 0
            && self.quick_access.len() == 0 && self.right_sidebar.len() == 0 && self.search.len()
            == 0
    }
}

} // verus!
