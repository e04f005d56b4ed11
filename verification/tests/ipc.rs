use arto::config::FileOpenBehavior;
use arto::ipc::protocol::{IpcMessage, OpenEvent, OpenRequest};
use arto::ipc::queue::{main_thread_step, shutdown_exit_code, shutdown_step, EventQueue, MainThreadStep, ShutdownStep};
use arto::ipc::window_selection::{
    choose_open_target, window_overlap, DisplayBounds, OpenTarget, WindowBounds, WindowSelectionInput,
};
use std::path::{Path, PathBuf};

#[test]
fn test_ipc_message_into_open_event_open() {
    let msg = IpcMessage::Open {
        files: vec![PathBuf::from("/test.md")],
        directory: Some(PathBuf::from("/test/dir")),
        behavior: Some(FileOpenBehavior::CurrentScreen),
    };
    let event = msg.into_open_event();
    assert!(matches!(
        event,
        OpenEvent::Open(OpenRequest {
            files,
            directory: Some(directory),
            behavior: Some(FileOpenBehavior::CurrentScreen)
        }) if files == vec![PathBuf::from("/test.md")] && directory == Path::new("/test/dir")
    ));
}

#[test]
fn test_ipc_message_into_open_event_reopen() {
    let msg = IpcMessage::Reopen {
        behavior: Some(FileOpenBehavior::LastFocused),
    };
    let event = msg.into_open_event();
    assert!(matches!(
        event,
        OpenEvent::Reopen {
            behavior: Some(FileOpenBehavior::LastFocused)
        }
    ));
}

#[test]
fn ipc_message_file_maps_to_open_event() {
    let event = IpcMessage::File {
        path: PathBuf::from("/tmp/a.md"),
    }
    .into_open_event();

    assert!(matches!(
        event,
        OpenEvent::Open(OpenRequest { files, directory: None, behavior: None })
        if files == vec![PathBuf::from("/tmp/a.md")]
    ));
}

#[test]
fn ipc_message_directory_maps_to_open_event() {
    let event = IpcMessage::Directory {
        path: PathBuf::from("/tmp/dir"),
    }
    .into_open_event();

    assert!(matches!(
        event,
        OpenEvent::Open(OpenRequest { files, directory: Some(directory), behavior: None })
        if files.is_empty() && directory == Path::new("/tmp/dir")
    ));
}

#[test]
fn test_event_queue_fifo_ordering() {
    let mut queue = EventQueue::new();

    queue.push_event(OpenEvent::Open(OpenRequest {
        files: vec![PathBuf::from("/first.md")],
        directory: None,
        behavior: None,
    }));
    queue.push_event(OpenEvent::Open(OpenRequest {
        files: Vec::new(),
        directory: Some(PathBuf::from("/second")),
        behavior: None,
    }));
    queue.push_event(OpenEvent::Reopen { behavior: None });

    // try_pop_first_event returns FIFO order
    let first = queue.try_pop_first_event();
    assert!(matches!(
        first,
        Some(OpenEvent::Open(OpenRequest { files, directory: None, .. }))
        if files == vec![PathBuf::from("/first.md")]
    ));

    // drain_events returns remaining in FIFO order
    let remaining = queue.drain_events();
    assert_eq!(remaining.len(), 2);
    assert!(matches!(
        &remaining[0],
        OpenEvent::Open(OpenRequest { files, directory: Some(directory), .. })
        if files.is_empty() && directory == Path::new("/second")
    ));
    assert!(matches!(&remaining[1], OpenEvent::Reopen { behavior: None }));

    // Queue is empty after drain
    assert!(queue.try_pop_first_event().is_none());
    assert!(queue.drain_events().is_empty());
}

#[test]
fn main_thread_step_follows_shutdown_flags() {
    assert_eq!(main_thread_step(false, false), MainThreadStep::ProcessEvents);
    assert_eq!(main_thread_step(true, false), MainThreadStep::StartShutdown);
    assert_eq!(main_thread_step(true, true), MainThreadStep::Nothing);
}

#[test]
fn shutdown_exit_code_adds_signal_offset() {
    assert_eq!(shutdown_exit_code(15), 143);
    assert_eq!(shutdown_exit_code(2), 130);
    assert_eq!(shutdown_exit_code(0), 0);
    assert_eq!(shutdown_exit_code(-1), 0);
}

#[test]
fn test_choose_open_target_new_window_always_creates_new_window() {
    let windows = vec![WindowSelectionInput {
        window_id: 1_u8,
        is_on_current_screen: true,
    }];

    let target = choose_open_target(FileOpenBehavior::NewWindow, &windows, Some(1));
    assert_eq!(target, OpenTarget::NewWindow);
}

#[test]
fn test_choose_open_target_last_focused_uses_visible_window() {
    let windows = vec![
        WindowSelectionInput {
            window_id: 1_u8,
            is_on_current_screen: false,
        },
        WindowSelectionInput {
            window_id: 2_u8,
            is_on_current_screen: true,
        },
    ];

    let target = choose_open_target(FileOpenBehavior::LastFocused, &windows, Some(2));
    assert_eq!(target, OpenTarget::ExistingWindow(2));
}

#[test]
fn test_choose_open_target_last_focused_falls_back_to_new_window() {
    let windows = vec![WindowSelectionInput {
        window_id: 1_u8,
        is_on_current_screen: true,
    }];

    let target = choose_open_target(FileOpenBehavior::LastFocused, &windows, Some(2));
    assert_eq!(target, OpenTarget::NewWindow);
}

#[test]
fn test_choose_open_target_current_screen_prefers_last_focused() {
    let windows = vec![
        WindowSelectionInput {
            window_id: 1_u8,
            is_on_current_screen: true,
        },
        WindowSelectionInput {
            window_id: 2_u8,
            is_on_current_screen: true,
        },
    ];

    let target = choose_open_target(FileOpenBehavior::CurrentScreen, &windows, Some(2));
    assert_eq!(target, OpenTarget::ExistingWindow(2));
}

#[test]
fn test_choose_open_target_current_screen_uses_first_candidate_without_last_focus() {
    let windows = vec![
        WindowSelectionInput {
            window_id: 4_u8,
            is_on_current_screen: true,
        },
        WindowSelectionInput {
            window_id: 5_u8,
            is_on_current_screen: true,
        },
    ];

    let target = choose_open_target(FileOpenBehavior::CurrentScreen, &windows, None);
    assert_eq!(target, OpenTarget::ExistingWindow(4));
}

#[test]
fn test_choose_open_target_current_screen_falls_back_to_new_window() {
    let windows = vec![WindowSelectionInput {
        window_id: 1_u8,
        is_on_current_screen: false,
    }];

    let target = choose_open_target(FileOpenBehavior::CurrentScreen, &windows, Some(1));
    assert_eq!(target, OpenTarget::NewWindow);
}

#[test]
fn current_screen_ignores_last_focused_window_on_other_screen() {
    let windows = vec![
        WindowSelectionInput {
            window_id: 7_u8,
            is_on_current_screen: false,
        },
        WindowSelectionInput {
            window_id: 8_u8,
            is_on_current_screen: true,
        },
    ];

    let target = choose_open_target(FileOpenBehavior::CurrentScreen, &windows, Some(7));
    assert_eq!(target, OpenTarget::ExistingWindow(8));
}

fn main_display() -> DisplayBounds {
    DisplayBounds {
        x: 0,
        y: 0,
        width: 1920,
        height: 1080,
    }
}

#[test]
fn window_overlap_fully_inside() {
    let bounds = WindowBounds {
        x: 300,
        y: 250,
        width: 400,
        height: 300,
    };
    assert_eq!(window_overlap(main_display(), bounds), Some((120000, 120000)));
}

#[test]
fn window_overlap_spanning_two_monitors() {
    let bounds = WindowBounds {
        x: 1720,
        y: 200,
        width: 400,
        height: 300,
    };
    assert_eq!(window_overlap(main_display(), bounds), Some((60000, 120000)));
}

#[test]
fn window_overlap_minor_overlap() {
    let bounds = WindowBounds {
        x: 1900,
        y: 200,
        width: 400,
        height: 300,
    };
    assert_eq!(window_overlap(main_display(), bounds), Some((6000, 120000)));
}

#[test]
fn window_overlap_completely_outside() {
    let bounds = WindowBounds {
        x: 1921,
        y: 0,
        width: 400,
        height: 300,
    };
    assert_eq!(window_overlap(main_display(), bounds), None);
}

#[test]
fn window_overlap_hidden_in_corner() {
    let bounds = WindowBounds {
        x: 1919,
        y: 1079,
        width: 1265,
        height: 2109,
    };
    assert_eq!(window_overlap(main_display(), bounds), Some((1, 1265 * 2109)));
}

#[test]
fn window_overlap_zero_sized_window() {
    let bounds = WindowBounds {
        x: 10,
        y: 10,
        width: 0,
        height: 300,
    };
    assert_eq!(window_overlap(main_display(), bounds), None);
}

#[test]
fn events_wait_until_a_main_window_exists() {
    let mut queue = EventQueue::new();
    queue.push_event(OpenEvent::Reopen { behavior: None });
    queue.push_event(OpenEvent::Reopen { behavior: Some(FileOpenBehavior::NewWindow) });
    assert!(queue.take_for_main_thread(false).is_empty());
    let taken = queue.take_for_main_thread(true);
    assert_eq!(taken.len(), 2);
    assert!(matches!(taken[1], OpenEvent::Reopen { behavior: Some(FileOpenBehavior::NewWindow) }));
    assert!(queue.take_for_main_thread(true).is_empty());
}

#[test]
fn shutdown_begins_once() {
    assert_eq!(shutdown_step(false, false), ShutdownStep { begin: false, started: false });
    assert_eq!(shutdown_step(true, false), ShutdownStep { begin: true, started: true });
    assert_eq!(shutdown_step(true, true), ShutdownStep { begin: false, started: true });
    let mut started = false;
    let mut begins = 0;
    for requested in [false, true, true, false, true] {
        let step = shutdown_step(requested, started);
        if step.begin {
            begins += 1;
        }
        started = step.started;
    }
    assert_eq!(begins, 1);
}
