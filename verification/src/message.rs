//! The units of work and control that travel over the pool's shared queue.

use vstd::prelude::*;

verus! {

/// A key code as delivered by the input-event source: a modifier mask
/// together with the raw code of the key itself.
#[derive(Clone, Copy, PartialEq, Eq, Structural, Hash, Debug)]
pub struct KeyCode {
    /// The modifier-key bitmask held when the key was pressed.
    pub mask: u16,
    /// The raw code of the key that was pressed.
    pub code: u8,
}

/// The kind of a mouse event.
#[derive(Clone, Copy, PartialEq, Eq, Structural, Hash, Debug)]
pub enum MouseEventKind {
    /// A button was pressed.
    Press,
    /// A button was released.
    Release,
    /// The pointer moved with a button held.
    Motion,
}

/// The button and modifier state under which a mouse event fired.
#[derive(Clone, Copy, PartialEq, Eq, Structural, Hash, Debug)]
pub struct MouseState {
    /// The mouse button the event concerns.
    pub button: u8,
    /// The modifier-key bitmask held during the event.
    pub modifiers: u16,
}

/// A mouse event: its kind and the state it fired under. Mouse bindings
/// are keyed by the `(kind, state)` pair.
#[derive(Clone, Copy, PartialEq, Eq, Structural, Hash, Debug)]
pub struct MouseEvent {
    /// What happened.
    pub kind: MouseEventKind,
    /// The button and modifiers it happened under.
    pub state: MouseState,
}

/// A message carried by the pool's shared queue. Each message is
/// consumed by exactly one worker, exactly once. `J` is the type of a
/// deferred one-shot job; the pool never observes a job's outcome.
#[derive(Debug)]
pub enum Message<J> {
    /// Run the action bound to this key code, if any.
    Key(KeyCode),
    /// Run the action bound to this mouse event's `(kind, state)`, if any.
    Mouse(MouseEvent),
    /// Run this deferred job.
    Job(J),
    /// Terminal sentinel: the worker that consumes it stops.
    ShutDown,
}

impl<J> Message<J> {
    /// Whether this message is the terminal sentinel.
    pub fn is_shutdown(&self) -> (r: bool)
        ensures
            r <==> self is ShutDown,
    {
        match self {
            Message::ShutDown => true,
            _ => false,
        }
    }
}

} // verus!
