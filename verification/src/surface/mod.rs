//! The edge data of a window: what its events leave behind for the scene
//! that reads them once per period.
//!
//! Key presses, clicks and resizes are events of one period and go into
//! bounded buffers that a flush empties. Modifier keys and the pointer are
//! continuous state and last across periods.

use vstd::prelude::*;
use crate::copyswap::Flushable;
use crate::event_buf::{pushed, EventBuffer};

pub mod event;

pub use event::{ClickEvent, KeyEvent, ModifierState, MouseButton, PressState, ResizeEvent, VirtualKeyCode};

verus! {

/// How many key events one period keeps.
pub const MAX_KEY_EVENT_COUNT: usize = 16;

/// How many clicks one period keeps.
pub const MAX_CLICK_EVENT_COUNT: usize = 4;

/// How many resizes one period keeps.
pub const MAX_RESIZE_EVENT_COUNT: usize = 2;

/// A mouse button as the window names it.
#[derive(Debug, Clone, Copy, PartialEq, Eq, Structural)]
pub enum WindowButton {
    Left,
    Right,
    Middle,
    Other(u16),
}

/// An event of the window, as far as the edge data or the polling loop has
/// a use for it. What the pointer does is not among them: the pointer's
/// state is kept as the windowing layer sees fit.
#[derive(Debug, Clone, Copy, PartialEq, Eq, Structural)]
pub enum WindowEvent {
    /// The user asked for the window to be closed.
    CloseRequested,
    /// The window has a new size.
    Resized { width: usize, height: usize },
    /// Other modifier keys are held than before.
    ModifiersChanged(ModifierState),
    /// A mouse button went down or up.
    MouseInput { pressed: bool, button: WindowButton },
    /// A key went down or up; `keycode` is the key's number, where the
    /// window knows the key.
    KeyboardInput { pressed: bool, keycode: Option<u32> },
    /// The window has no more events for now.
    MainEventsCleared,
    /// Anything else.
    Other,
}

/// What the polling loop does after an event.
#[derive(Debug, Clone, Copy, PartialEq, Eq, Structural)]
pub enum PollAction {
    /// Go on polling.
    Continue,
    /// Mark the surface as closed, and go on polling.
    Close,
    /// Stop polling for this update.
    Exit,
}

/// Whether a button or key is down.
pub open spec fn press_of(pressed: bool) -> PressState {
    if pressed {
        PressState::Down
    } else {
        PressState::Up
    }
}

/// The button that a click of `button` is recorded as. The window's right
/// button is recorded as the middle one and its middle button as the right
/// one; buttons beyond these three are not recorded.
pub open spec fn button_of(button: WindowButton) -> Option<MouseButton> {
    match button {
        WindowButton::Left => Some(MouseButton::Left),
        WindowButton::Right => Some(MouseButton::Middle),
        WindowButton::Middle => Some(MouseButton::Right),
        WindowButton::Other(_) => None,
    }
}

/// What the polling loop does after `event`.
pub open spec fn action_of(event: WindowEvent) -> PollAction {
    match event {
        WindowEvent::CloseRequested => PollAction::Close,
        WindowEvent::MainEventsCleared => PollAction::Exit,
        _ => PollAction::Continue,
    }
}

/// Edge data of a window. `P` is the state of the pointer.
#[derive(Debug, Clone, Copy)]
pub struct SurfaceEdgeData<P> {
    modifers: ModifierState,
    pointer: P,
    key_events: EventBuffer<KeyEvent, MAX_KEY_EVENT_COUNT>,
    click_events: EventBuffer<ClickEvent, MAX_CLICK_EVENT_COUNT>,
    resize_events: EventBuffer<ResizeEvent, MAX_RESIZE_EVENT_COUNT>,
}

/// What edge data holds.
pub struct SurfaceEdgeView<P> {
    pub modifiers: ModifierState,
    pub pointer: P,
    pub key_events: Seq<KeyEvent>,
    pub click_events: Seq<ClickEvent>,
    pub resize_events: Seq<ResizeEvent>,
}

/// Edge data after `event`: a resize, a click of a recorded button and a
/// press of a known key are appended to their buffers as long as there is
/// room, a change of modifiers replaces the modifiers, and nothing else
/// leaves a trace.
pub open spec fn applied<P>(edge: SurfaceEdgeView<P>, event: WindowEvent) -> SurfaceEdgeView<P> {
    match event {
        WindowEvent::Resized { width, height } => SurfaceEdgeView {
            resize_events: pushed(edge.resize_events, ResizeEvent { width, height }, MAX_RESIZE_EVENT_COUNT as nat),
            ..edge
        },
        WindowEvent::ModifiersChanged(modifiers) => SurfaceEdgeView { modifiers, ..edge },
        WindowEvent::MouseInput { pressed, button } => match button_of(button) {
            Some(button) => SurfaceEdgeView {
                click_events: pushed(
                    edge.click_events,
                    ClickEvent { press: press_of(pressed), button },
                    MAX_CLICK_EVENT_COUNT as nat,
                ),
                ..edge
            },
            None => edge,
        },
        WindowEvent::KeyboardInput { pressed, keycode: Some(code) } => match VirtualKeyCode::spec_from_code(code) {
            Some(keycode) => SurfaceEdgeView {
                key_events: pushed(
                    edge.key_events,
                    KeyEvent { press: press_of(pressed), keycode },
                    MAX_KEY_EVENT_COUNT as nat,
                ),
                ..edge
            },
            None => edge,
        },
        _ => edge,
    }
}

impl<P> View for SurfaceEdgeData<P> {
    type V = SurfaceEdgeView<P>;

    closed spec fn view(&self) -> SurfaceEdgeView<P> {
        SurfaceEdgeView {
            modifiers: self.modifers,
            pointer: self.pointer,
            key_events: self.key_events@,
            click_events: self.click_events@,
            resize_events: self.resize_events@,
        }
    }
}

/// Reads whether a button or key is down.
pub fn read_press(pressed: bool) -> (r: PressState)
    ensures
        r == press_of(pressed),
{
    if pressed {
        PressState::Down
    } else {
        PressState::Up
    }
}

/// Reads the button that a click of `button` is recorded as.
pub fn read_button(button: WindowButton) -> (r: Option<MouseButton>)
    ensures
        r == button_of(button),
{
    match button {
        WindowButton::Left => Some(MouseButton::Left),
        WindowButton::Right => Some(MouseButton::Middle),
        WindowButton::Middle => Some(MouseButton::Right),
        WindowButton::Other(_) => None,
    }
}

impl<P> SurfaceEdgeData<P> {
    /// Edge data with no modifier held, no events, and the pointer as
    /// given.
    pub fn new(pointer: P) -> (r: Self)
        ensures
            r@ == (SurfaceEdgeView {
                modifiers: ModifierState { shift: false, ctrl: false, alt: false, logo: false },
                pointer,
                key_events: Seq::<KeyEvent>::empty(),
                click_events: Seq::<ClickEvent>::empty(),
                resize_events: Seq::<ResizeEvent>::empty(),
            }),
    {
        SurfaceEdgeData {
            modifers: ModifierState { shift: false, ctrl: false, alt: false, logo: false },
            pointer,
            key_events: EventBuffer::new(KeyEvent { press: PressState::Up, keycode: VirtualKeyCode::Q }),
            click_events: EventBuffer::new(ClickEvent { press: PressState::Up, button: MouseButton::Left }),
            resize_events: EventBuffer::new(ResizeEvent { width: 0, height: 0 }),
        }
    }

    /// Records `event` and says what the polling loop is to do next.
    pub fn apply(&mut self, event: WindowEvent) -> (r: PollAction)
        ensures
            final(self)@ == applied(old(self)@, event),
            r == action_of(event),
    {
        match event {
            WindowEvent::CloseRequested => PollAction::Close,
            WindowEvent::Resized { width, height } => {
                self.resize_events.push(ResizeEvent { width, height });
                PollAction::Continue
            },
            WindowEvent::ModifiersChanged(modifiers) => {
                self.modifers = modifiers;
                PollAction::Continue
            },
            WindowEvent::MouseInput { pressed, button } => {
                if let Some(button) = read_button(button) {
                    self.click_events.push(ClickEvent { press: read_press(pressed), button });
                }
                PollAction::Continue
            },
            WindowEvent::KeyboardInput { pressed, keycode } => {
                if let Some(code) = keycode {
                    if let Some(keycode) = VirtualKeyCode::from_code(code) {
                        self.key_events.push(KeyEvent { press: read_press(pressed), keycode });
                    }
                }
                PollAction::Continue
            },
            WindowEvent::MainEventsCleared => PollAction::Exit,
            WindowEvent::Other => PollAction::Continue,
        }
    }

    /// The modifier keys that are held.
    pub fn modifiers(&self) -> (r: ModifierState)
        ensures
            r == self@.modifiers,
    {
        self.modifers
    }

    /// The state of the pointer.
    pub fn pointer(&self) -> (r: &P)
        ensures
            *r == self@.pointer,
    {
        &self.pointer
    }

    /// The state of the pointer, to be changed in place. Nothing else
    /// changes with it.
    pub fn pointer_mut(&mut self) -> (r: &mut P)
        ensures
            *r == old(self)@.pointer,
            final(self)@ == (SurfaceEdgeView { pointer: *final(r), ..old(self)@ }),
    {
        &mut self.pointer
    }

    /// The key events of this period, oldest first.
    pub fn key_events(&self) -> (r: &[KeyEvent])
        ensures
            r@ == self@.key_events,
    {
        self.key_events.as_slice()
    }

    /// The clicks of this period, oldest first.
    pub fn click_events(&self) -> (r: &[ClickEvent])
        ensures
            r@ == self@.click_events,
    {
        self.click_events.as_slice()
    }

    /// The resizes of this period, oldest first.
    pub fn resize_events(&self) -> (r: &[ResizeEvent])
        ensures
            r@ == self@.resize_events,
    {
        self.resize_events.as_slice()
    }
}

impl<P> Flushable for SurfaceEdgeData<P> {
    /// A flush empties the three event buffers; the modifiers and the
    /// pointer stay.
    closed spec fn flushed(self) -> Self {
        SurfaceEdgeData {
            modifers: self.modifers,
            pointer: self.pointer,
            key_events: self.key_events.emptied(),
            click_events: self.click_events.emptied(),
            resize_events: self.resize_events.emptied(),
        }
    }

    fn flush(&mut self) {
        self.key_events.flush();
        self.click_events.flush();
        self.resize_events.flush();
    }
}

/// What a flush leaves of edge data: no events, and the continuous state
/// as it was.
pub proof fn lemma_flushed<P>(edge: SurfaceEdgeData<P>)
    ensures
        edge.flushed()@ == (SurfaceEdgeView {
            key_events: Seq::<KeyEvent>::empty(),
            click_events: Seq::<ClickEvent>::empty(),
            resize_events: Seq::<ResizeEvent>::empty(),
            ..edge@
        }),
{
    edge.key_events.lemma_emptied();
    edge.click_events.lemma_emptied();
    edge.resize_events.lemma_emptied();
}

} // verus!
