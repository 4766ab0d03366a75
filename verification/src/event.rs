//! Translation of host input events into the abstract event set.

use vstd::prelude::*;

verus! {

/// An abstract input event, the only event type handed to caller-supplied
/// per-event handlers.
#[derive(Clone, Copy, PartialEq, Eq, Structural, Debug)]
pub enum Event {
    /// A key press.
    KeyPress,

    /// A mouse button press.
    MousePress,

    /// A mouse motion event.
    MouseMotion,

    /// A window resize event.
    WindowResize,
}

/// What the translator reads of a host key: either the escape key or any
/// other key.
#[derive(Clone, Copy, PartialEq, Eq, Structural, Debug)]
pub enum HostKey {
    Escape,
    Other,
}

/// What the translator reads of a host key action.
#[derive(Clone, Copy, PartialEq, Eq, Structural, Debug)]
pub enum HostAction {
    Press,
    Release,
    Repeat,
}

/// A host input event, reduced to what the translator reads of it. The
/// windowing layer converts its native events into this form.
#[derive(Clone, Copy, PartialEq, Eq, Structural, Debug)]
pub enum HostEvent {
    /// A key event: which key, and whether it was pressed, released or
    /// repeated.
    Key(HostKey, HostAction),

    /// A mouse button event.
    MouseButton(HostAction),

    /// The cursor moved.
    CursorPos,

    /// The window was resized.
    Size,

    /// Any other host event.
    Other,
}

/// The event each host event translates to: pressing the escape key is a
/// `KeyPress`; every other host event currently collapses to `MousePress`,
/// a deliberately coarse mapping.
pub open spec fn translate_spec(event: HostEvent) -> Event {
    match event {
        HostEvent::Key(HostKey::Escape, HostAction::Press) => Event::KeyPress,
        _ => Event::MousePress,
    }
}

/// Translate one host event into an abstract event. Total: every host
/// event maps to exactly one abstract event.
pub fn host_event_to_gloss(event: HostEvent) -> (r: Event)
    ensures
        r == translate_spec(event),
{
    match event {
        HostEvent::Key(HostKey::Escape, HostAction::Press) => Event::KeyPress,
        _ => Event::MousePress,
    }
}

} // verus!
