use tao::event::{Event, Rect};
use tao::glue::{android_log_priority, focus_event, DestroyOutcome, GlueState, LogLevel};

#[test]
fn initializer_waits_until_looper_installed() {
    let mut glue = GlueState::new();
    // Before the spawned thread installs its looper the initializer's
    // wait predicate must refuse to proceed.
    assert!(!glue.looper_ready());
    glue.install_looper(7);
    assert!(glue.looper_ready());
    assert_eq!(glue.looper, Some(7));
}

#[test]
fn input_queue_callback_finds_looper() {
    let mut glue = GlueState::new();
    glue.install_looper(1);
    let ev = glue.on_input_queue_created(55);
    assert_eq!(ev, Event::InputQueueCreated);
    assert_eq!(glue.input_queue, Some(55));
}

#[test]
fn destroy_blocks_while_guard_held() {
    let mut glue = GlueState::new();
    let ev = glue.on_window_created(3);
    assert_eq!(ev, Event::WindowCreated);

    // A reader acquires the guard, then destruction begins.
    let handle = glue.native_window();
    assert_eq!(handle, Some(3));
    assert_eq!(glue.on_window_destroyed(), DestroyOutcome::Blocked);
    // The resource must not have been released under the reader.
    assert_eq!(glue.native_window, Some(3));

    // Only once the guard is dropped may the OS reclaim the window.
    glue.release_native_window();
    assert_eq!(glue.on_window_destroyed(), DestroyOutcome::Released);
    assert_eq!(glue.native_window, None);
}

#[test]
fn input_queue_destroy_blocks_while_guard_held() {
    let mut glue = GlueState::new();
    glue.install_looper(1);
    let _ = glue.on_input_queue_created(9);
    let handle = glue.input_queue();
    assert_eq!(handle, Some(9));
    assert_eq!(glue.on_input_queue_destroyed(), DestroyOutcome::Blocked);
    assert_eq!(glue.input_queue, Some(9));
    glue.release_input_queue();
    assert_eq!(glue.on_input_queue_destroyed(), DestroyOutcome::Released);
    assert_eq!(glue.input_queue, None);
}

#[test]
fn content_rect_is_stored_and_carried() {
    let mut glue = GlueState::new();
    assert_eq!(
        glue.content_rect(),
        Rect { left: 0, top: 0, right: 0, bottom: 0 }
    );
    let rect = Rect { left: 10, top: 20, right: 640, bottom: 480 };
    let ev = glue.on_content_rect_changed(rect);
    assert_eq!(ev, Event::ContentRectChanged(rect));
    assert_eq!(glue.content_rect(), rect);
}

#[test]
fn focus_flag_maps_to_events() {
    assert_eq!(focus_event(0), Event::WindowLostFocus);
    assert_eq!(focus_event(1), Event::WindowHasFocus);
    assert_eq!(focus_event(-3), Event::WindowHasFocus);
}

#[test]
fn log_priorities_follow_the_android_abi() {
    assert_eq!(android_log_priority(LogLevel::Error), 6);
    assert_eq!(android_log_priority(LogLevel::Warn), 5);
    assert_eq!(android_log_priority(LogLevel::Info), 4);
    assert_eq!(android_log_priority(LogLevel::Debug), 3);
    assert_eq!(android_log_priority(LogLevel::Trace), 2);
}
