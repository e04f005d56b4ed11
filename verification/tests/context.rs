use arto::keybindings::context::KeyContext;

#[test]
fn context_display_roundtrip() {
    let contexts = [
        KeyContext::Content,
        KeyContext::Sidebar,
        KeyContext::RightSidebar,
        KeyContext::QuickAccess,
        KeyContext::Search,
    ];
    for ctx in &contexts {
        let s = ctx.to_string();
        let parsed: KeyContext = s.parse().unwrap();
        assert_eq!(*ctx, parsed);
    }
}

#[test]
fn context_parse_invalid() {
    assert!("unknown".parse::<KeyContext>().is_err());
    assert!("".parse::<KeyContext>().is_err());
}

#[test]
fn context_names_are_snake_case() {
    assert_eq!(KeyContext::RightSidebar.to_string(), "right_sidebar");
    assert_eq!(KeyContext::QuickAccess.as_str(), "quick_access");
    assert_eq!("search".parse::<KeyContext>().unwrap(), KeyContext::Search);
}
