use arto::cli::CliOpenMode;
use arto::config::{FileOpenBehavior, MarkdownConfig};
use arto::ipc::protocol::{build_open_request, validate_path, IpcMessage, OpenEvent, OpenRequest, PathKind};
use std::path::PathBuf;

#[test]
fn test_file_open_behavior_default() {
    assert_eq!(FileOpenBehavior::default(), FileOpenBehavior::LastFocused);
}

#[test]
fn markdown_config_default_links_urls() {
    assert!(MarkdownConfig::default().auto_link_urls);
}

#[test]
fn cli_open_mode_maps_to_behavior() {
    assert_eq!(CliOpenMode::Config.to_file_open_behavior(), None);
    assert_eq!(CliOpenMode::LastFocused.to_file_open_behavior(), Some(FileOpenBehavior::LastFocused));
    assert_eq!(CliOpenMode::CurrentScreen.to_file_open_behavior(), Some(FileOpenBehavior::CurrentScreen));
    assert_eq!(CliOpenMode::NewWindow.to_file_open_behavior(), Some(FileOpenBehavior::NewWindow));
}

#[test]
fn build_open_request_uses_positional_directory_when_directory_option_is_missing() {
    let classified = vec![
        Some(PathKind::Directory(PathBuf::from("/tmp/t/docs"))),
        Some(PathKind::File(PathBuf::from("/tmp/t/README.md"))),
    ];
    let request = build_open_request(CliOpenMode::LastFocused, None, classified).unwrap();
    assert_eq!(request.files, vec![PathBuf::from("/tmp/t/README.md")]);
    assert_eq!(request.directory, Some(PathBuf::from("/tmp/t/docs")));
    assert_eq!(request.behavior, Some(FileOpenBehavior::LastFocused));
}

#[test]
fn build_open_request_prefers_directory_option_over_positional_directory() {
    let classified = vec![Some(PathKind::Directory(PathBuf::from("/tmp/t/positional")))];
    let request = build_open_request(
        CliOpenMode::LastFocused,
        Some(PathBuf::from("/tmp/t/option")),
        classified,
    )
    .unwrap();
    assert_eq!(request.files, Vec::<PathBuf>::new());
    assert_eq!(request.directory, Some(PathBuf::from("/tmp/t/option")));
}

#[test]
fn build_open_request_maps_open_mode_to_behavior() {
    let classified = vec![Some(PathKind::File(PathBuf::from("/tmp/t/README.md")))];
    let request = build_open_request(CliOpenMode::CurrentScreen, None, classified).unwrap();
    assert_eq!(request.behavior, Some(FileOpenBehavior::CurrentScreen));
}

#[test]
fn build_open_request_maps_config_mode_to_none_behavior() {
    let classified = vec![Some(PathKind::File(PathBuf::from("/tmp/t/README.md")))];
    let request = build_open_request(CliOpenMode::Config, None, classified).unwrap();
    assert_eq!(request.behavior, None);
}

#[test]
fn build_open_request_without_usable_paths_is_none() {
    assert!(build_open_request(CliOpenMode::Config, None, vec![None, None]).is_none());
    assert!(build_open_request(CliOpenMode::NewWindow, None, Vec::new()).is_none());
}

#[test]
fn build_open_request_keeps_first_directory_and_all_files() {
    let classified = vec![
        Some(PathKind::File(PathBuf::from("/a.md"))),
        None,
        Some(PathKind::Directory(PathBuf::from("/d1"))),
        Some(PathKind::Directory(PathBuf::from("/d2"))),
        Some(PathKind::File(PathBuf::from("/b.md"))),
    ];
    let request = build_open_request(CliOpenMode::NewWindow, None, classified).unwrap();
    assert_eq!(request.files, vec![PathBuf::from("/a.md"), PathBuf::from("/b.md")]);
    assert_eq!(request.directory, Some(PathBuf::from("/d1")));
    assert_eq!(request.behavior, Some(FileOpenBehavior::NewWindow));
}

#[test]
fn validate_path_maps_kinds_to_events() {
    assert!(matches!(
        validate_path(Some(PathKind::File(PathBuf::from("/a.md")))),
        Some(OpenEvent::Open(OpenRequest { files, directory: None, behavior: None }))
        if files == vec![PathBuf::from("/a.md")]
    ));
    assert!(matches!(
        validate_path(Some(PathKind::Directory(PathBuf::from("/d")))),
        Some(OpenEvent::Open(OpenRequest { files, directory: Some(d), behavior: None }))
        if files.is_empty() && d == PathBuf::from("/d")
    ));
    assert!(validate_path(None).is_none());
}

#[test]
fn open_request_roundtrips_through_message() {
    let request = OpenRequest {
        files: vec![PathBuf::from("/x.md")],
        directory: None,
        behavior: Some(FileOpenBehavior::NewWindow),
    };
    let event = IpcMessage::from_open_request(request).into_open_event();
    assert!(matches!(
        event,
        OpenEvent::Open(OpenRequest { files, directory: None, behavior: Some(FileOpenBehavior::NewWindow) })
        if files == vec![PathBuf::from("/x.md")]
    ));
}
