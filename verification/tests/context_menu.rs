use arto::context_menu::{copy_path_entry, copy_source_lines, menu_flags, ContentContext};
use arto::explorer::entry_is_listed;
use arto::navigation::{drag_cleanup, DetachPhase, DragCleanup};

#[test]
fn copy_path_entry_by_lines() {
    let (label, value) = copy_path_entry(Some("/a/b.md"), Some(3), Some(7));
    assert_eq!(label, "Copy Path with Range (3-7)");
    assert_eq!(value.as_deref(), Some("/a/b.md:3-7"));
    let (label, value) = copy_path_entry(Some("/a/b.md"), Some(3), Some(3));
    assert_eq!(label, "Copy Path with Line (3)");
    assert_eq!(value.as_deref(), Some("/a/b.md:3"));
    let (label, value) = copy_path_entry(Some("/a/b.md"), Some(12), None);
    assert_eq!(label, "Copy Path with Line (12)");
    assert_eq!(value.as_deref(), Some("/a/b.md:12"));
    let (label, value) = copy_path_entry(Some("/a/b.md"), None, Some(4));
    assert_eq!(label, "Copy Path");
    assert_eq!(value.as_deref(), Some("/a/b.md"));
    let (label, value) = copy_path_entry(None, Some(1), Some(2));
    assert_eq!(label, "Copy Path");
    assert_eq!(value, None);
}

#[test]
fn menu_flags_by_element() {
    let general = menu_flags(&ContentContext::General, false, false, false);
    assert!(!general.has_context_specific && !general.has_any_submenu && !general.has_copy_source);
    let with_file = menu_flags(&ContentContext::General, false, true, false);
    assert!(with_file.has_any_submenu);
    let link = menu_flags(&ContentContext::Link { href: "x".into() }, false, false, false);
    assert!(link.has_context_specific && !link.has_any_submenu);
    let image = menu_flags(&ContentContext::Image { src: "a.png".into(), alt: None }, false, false, false);
    assert!(image.is_image && image.has_context_specific && image.has_any_submenu);
    let code = ContentContext::CodeBlock {
        content: "x".into(),
        language: None,
        source_line: Some(4),
        source_line_end: Some(6),
    };
    let flags = menu_flags(&code, false, false, false);
    assert!(flags.has_copy_source && !flags.has_context_specific && flags.has_any_submenu);
    let math = menu_flags(&ContentContext::MathBlock { source: "x".into() }, false, false, false);
    assert!(math.is_math && math.has_copy_source);
}

#[test]
fn copy_source_lines_by_element() {
    let code = ContentContext::CodeBlock {
        content: "x".into(),
        language: None,
        source_line: Some(4),
        source_line_end: Some(6),
    };
    assert_eq!(copy_source_lines(&code, Some(1), Some(2)), (Some(4), Some(6)));
    assert_eq!(copy_source_lines(&ContentContext::Mermaid { source: "g".into() }, Some(1), Some(2)), (Some(1), Some(2)));
    assert_eq!(copy_source_lines(&ContentContext::General, Some(1), Some(2)), (None, None));
}

#[test]
fn closing_the_drag_source_window() {
    assert_eq!(
        drag_cleanup(false, Some((DetachPhase::Attached, 3))),
        DragCleanup { restore_tab: false, commit_preview: false, end_drag: false }
    );
    assert_eq!(
        drag_cleanup(true, Some((DetachPhase::Pending, 3))),
        DragCleanup { restore_tab: true, commit_preview: false, end_drag: true }
    );
    assert_eq!(
        drag_cleanup(true, Some((DetachPhase::Attached, 1))),
        DragCleanup { restore_tab: false, commit_preview: false, end_drag: true }
    );
    assert_eq!(
        drag_cleanup(true, Some((DetachPhase::Detached, 3))),
        DragCleanup { restore_tab: false, commit_preview: true, end_drag: true }
    );
    assert_eq!(drag_cleanup(true, None), DragCleanup { restore_tab: false, commit_preview: false, end_drag: true });
}

#[test]
fn explorer_hides_other_files_unless_all_are_shown() {
    assert!(entry_is_listed(true, false, false));
    assert!(entry_is_listed(false, true, false));
    assert!(!entry_is_listed(false, false, false));
    assert!(entry_is_listed(false, false, true));
}
