use hello_wgpu::events::EventAction;
use hello_wgpu::events::Key;
use hello_wgpu::events::KeyState;
use hello_wgpu::events::WindowInput;
use hello_wgpu::events::on_keyboard_input;
use hello_wgpu::events::on_window_event;
use hello_wgpu::frame::FrameAction;
use hello_wgpu::frame::FrameError;
use hello_wgpu::frame::on_frame_outcome;
use hello_wgpu::geometry::Extent;
use hello_wgpu::geometry::apply_resize;

#[test]
fn resize_zero_width_is_ignored() {
    let current = Extent::new(1280, 720);
    assert_eq!(apply_resize(current, Extent::new(0, 500)), current);
}

#[test]
fn resize_zero_height_is_ignored() {
    let current = Extent::new(1280, 720);
    assert_eq!(apply_resize(current, Extent::new(500, 0)), current);
}

#[test]
fn resize_zero_both_is_ignored() {
    let current = Extent::new(1280, 720);
    assert_eq!(apply_resize(current, Extent::new(0, 0)), current);
}

#[test]
fn resize_positive_is_applied_exactly() {
    let current = Extent::new(1280, 720);
    assert_eq!(apply_resize(current, Extent::new(640, 480)), Extent::new(640, 480));
}

#[test]
fn resize_largest_size_is_applied() {
    let current = Extent::new(1, 1);
    let largest = Extent::new(u32::MAX, u32::MAX);
    assert_eq!(apply_resize(current, largest), largest);
}

#[test]
fn resize_to_current_size_changes_nothing() {
    let current = Extent::new(800, 600);
    assert_eq!(apply_resize(current, current), current);
}

#[test]
fn resize_sequence_scenario() {
    let mut size = Extent::new(1280, 720);
    size = apply_resize(size, Extent::new(0, 0));
    assert_eq!(size, Extent::new(1280, 720));
    size = apply_resize(size, Extent::new(640, 480));
    assert_eq!(size, Extent::new(640, 480));
}

#[test]
fn successful_frame_continues() {
    let current = Extent::new(1280, 720);
    assert_eq!(on_frame_outcome(&Ok(()), current), FrameAction::Continue);
}

#[test]
fn lost_frame_recovers_with_current_size() {
    let current = Extent::new(800, 600);
    assert_eq!(
        on_frame_outcome(&Err(FrameError::Lost), current),
        FrameAction::Recover(current)
    );
}

#[test]
fn out_of_memory_exits() {
    let current = Extent::new(1280, 720);
    assert_eq!(on_frame_outcome(&Err(FrameError::OutOfMemory), current), FrameAction::Exit);
}

#[test]
fn timeout_is_reported_and_skipped() {
    let current = Extent::new(1280, 720);
    assert_eq!(
        on_frame_outcome(&Err(FrameError::Timeout), current),
        FrameAction::Report(FrameError::Timeout)
    );
}

#[test]
fn outdated_is_reported_and_skipped() {
    let current = Extent::new(1280, 720);
    assert_eq!(
        on_frame_outcome(&Err(FrameError::Outdated), current),
        FrameAction::Report(FrameError::Outdated)
    );
}

#[test]
fn close_requested_exits() {
    assert_eq!(on_window_event(&WindowInput::CloseRequested), EventAction::Exit);
}

#[test]
fn escape_release_exits() {
    assert_eq!(
        on_keyboard_input(KeyState::Released, Some(Key::Escape)),
        EventAction::Exit
    );
}

#[test]
fn other_key_release_is_ignored() {
    assert_eq!(
        on_keyboard_input(KeyState::Released, Some(Key::Other)),
        EventAction::Ignore
    );
}

#[test]
fn key_press_is_logged_only() {
    assert_eq!(
        on_keyboard_input(KeyState::Pressed, Some(Key::Escape)),
        EventAction::LogKeyPress
    );
    assert_eq!(
        on_keyboard_input(KeyState::Pressed, Some(Key::Other)),
        EventAction::LogKeyPress
    );
}

#[test]
fn keyboard_event_without_key_is_ignored() {
    assert_eq!(on_keyboard_input(KeyState::Pressed, None), EventAction::Ignore);
    assert_eq!(on_keyboard_input(KeyState::Released, None), EventAction::Ignore);
}

#[test]
fn window_events_dispatch_to_their_actions() {
    let size = Extent::new(300, 200);
    assert_eq!(on_window_event(&WindowInput::Resized(size)), EventAction::Resize(size));
    assert_eq!(
        on_window_event(&WindowInput::Keyboard { state: KeyState::Released, key: Some(Key::Escape) }),
        EventAction::Exit
    );
    assert_eq!(on_window_event(&WindowInput::Other), EventAction::Ignore);
}
