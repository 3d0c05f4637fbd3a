use vstd::prelude::*;

use crate::geometry::Extent;

verus! {

/// Whether a key was pressed or released.
#[derive(Clone, Copy, Debug, PartialEq, Eq, Structural)]
pub enum KeyState {
    Pressed,
    Released,
}

/// A keyboard key, reduced to what the loop's decisions depend on.
#[derive(Clone, Copy, Debug, PartialEq, Eq, Structural)]
pub enum Key {
    Escape,
    Other,
}

/// A window event, reduced to the data the loop reads from it.
#[derive(Clone, Copy, Debug, PartialEq, Eq)]
pub enum WindowInput {
    /// The user asked to close the window.
    CloseRequested,
    /// A keyboard event; `key` is `None` when the platform reports no key.
    Keyboard { state: KeyState, key: Option<Key> },
    /// The window was resized to the given physical size.
    Resized(Extent),
    /// Any other window event.
    Other,
}

/// What the loop does in response to one window event.
#[derive(Clone, Copy, Debug, PartialEq, Eq)]
pub enum EventAction {
    /// Terminate the loop.
    Exit,
    /// Forward the given size to the render context.
    Resize(Extent),
    /// Print the pressed key (diagnostic only, no state change).
    LogKeyPress,
    /// Nothing to do.
    Ignore,
}

/// The reaction owed to one keyboard event: a press is logged, releasing
/// the escape key terminates the loop, and everything else is ignored.
pub open spec fn keyboard_action(state: KeyState, key: Option<Key>) -> EventAction {
    match key {
        Option::None => EventAction::Ignore,
        Option::Some(k) => match state {
            KeyState::Pressed => EventAction::LogKeyPress,
            KeyState::Released => if k == Key::Escape {
                EventAction::Exit
            } else {
                EventAction::Ignore
            },
        },
    }
}

/// The reaction owed to one window event: a close request terminates the
/// loop, a keyboard event goes by `keyboard_action`, a resize is forwarded
/// to the render context, and everything else is ignored.
pub open spec fn window_event_action(input: WindowInput) -> EventAction {
    match input {
        WindowInput::CloseRequested => EventAction::Exit,
        WindowInput::Keyboard { state, key } => keyboard_action(state, key),
        WindowInput::Resized(size) => EventAction::Resize(size),
        WindowInput::Other => EventAction::Ignore,
    }
}

/// Decide the reaction to one keyboard event.
pub fn on_keyboard_input(state: KeyState, key: Option<Key>) -> (a: EventAction)
    ensures
        a == keyboard_action(state, key),
{
    match key {
        None => EventAction::Ignore,
        Some(k) => match state {
            KeyState::Pressed => EventAction::LogKeyPress,
            KeyState::Released => match k {
                Key::Escape => EventAction::Exit,
                Key::Other => EventAction::Ignore,
            },
        },
    }
}

/// Decide the reaction to one window event.
pub fn on_window_event(input: &WindowInput) -> (a: EventAction)
    ensures
        a == window_event_action(*input),
{
    match input {
        WindowInput::CloseRequested => EventAction::Exit,
        WindowInput::Keyboard { state, key } => on_keyboard_input(*state, *key),
        WindowInput::Resized(size) => EventAction::Resize(*size),
        WindowInput::Other => EventAction::Ignore,
    }
}

/// A close request always decides to terminate the loop, whatever else
/// arrives in the same tick.
pub proof fn lemma_close_always_exits()
    ensures
        window_event_action(WindowInput::CloseRequested) == EventAction::Exit,
{
}

/// Releasing the escape key decides to terminate the loop; pressing or
/// releasing any other key never does.
pub proof fn lemma_escape_release_exits(state: KeyState, key: Option<Key>)
    ensures
        keyboard_action(KeyState::Released, Some(Key::Escape)) == EventAction::Exit,
        key != Some(Key::Escape) ==> keyboard_action(state, key) != EventAction::Exit,
{
}

} // verus!
