//! Platform events as the dispatcher sees them.

use vstd::prelude::*;

verus! {

/// Colour scheme that a style profile is built for.
#[derive(Clone, Copy, Debug, PartialEq, Eq, Structural)]
pub enum ThemeMode {
    Light,
    Dark,
}

/// Pixel dimensions of the window's drawable area.
#[derive(Clone, Copy, Debug, PartialEq, Eq, Structural)]
pub struct SurfaceSize {
    pub width: u32,
    pub height: u32,
}

/// One event produced by the host window system.
///
/// A scale factor travels as the bit pattern of its single-precision value:
/// the core stores and compares it and never computes with it.
#[derive(Clone, Copy, Debug, PartialEq, Eq, Structural)]
pub enum InputEvent {
    /// A key went down (`pressed`) or came up.
    KeyPress { code: u32, pressed: bool },
    /// The set of held modifier keys changed.
    ModifiersChanged { state: u32 },
    /// The drawable area has a new size.
    Resized { width: u32, height: u32 },
    /// The window moved to a display with another pixel density.
    ScaleFactorChanged { factor: u32, new_size: SurfaceSize },
    /// The host switched between its light and dark appearance.
    ThemeChanged { mode: ThemeMode },
    /// The window wants its contents drawn.
    RedrawRequested,
    /// A message that the application sent to itself through the event loop.
    ApplicationEvent { payload: u64 },
    /// Any other window notification (pointer, focus, text), known by the
    /// host's own numbering.
    Other { kind: u32 },
}

/// A key coming up.
pub open spec fn key_release(event: InputEvent) -> bool {
    event matches InputEvent::KeyPress { pressed, .. } && !pressed
}

/// Keyboard traffic: a key going down or up, or a change of modifiers.
pub open spec fn keyboard(event: InputEvent) -> bool {
    event is KeyPress || event is ModifiersChanged
}

/// Events that invalidate resources of the presentation surface or the style,
/// and that the surface and theme managers absorb.
pub open spec fn structural(event: InputEvent) -> bool {
    event is Resized || event is ScaleFactorChanged || event is ThemeChanged
}

/// Events that belong to the window, as opposed to the loop itself.
pub open spec fn window_scoped(event: InputEvent) -> bool {
    !(event is RedrawRequested) && !(event is ApplicationEvent)
}

/// Events that the UI layer is allowed to claim. A key release and a change of
/// modifiers are not among them: whoever saw the key go down must see it come
/// up.
pub open spec fn ui_claimable(event: InputEvent) -> bool {
    window_scoped(event) && !structural(event) && !key_release(event) && !(event
        is ModifiersChanged)
}

impl InputEvent {
    pub fn is_key_release(&self) -> (r: bool)
        ensures
            r == key_release(*self),
    {
        match self {
            InputEvent::KeyPress { pressed, .. } => !*pressed,
            _ => false,
        }
    }

    pub fn is_keyboard(&self) -> (r: bool)
        ensures
            r == keyboard(*self),
    {
        match self {
            InputEvent::KeyPress { .. } => true,
            InputEvent::ModifiersChanged { .. } => true,
            _ => false,
        }
    }

    pub fn is_structural(&self) -> (r: bool)
        ensures
            r == structural(*self),
    {
        match self {
            InputEvent::Resized { .. } => true,
            InputEvent::ScaleFactorChanged { .. } => true,
            InputEvent::ThemeChanged { .. } => true,
            _ => false,
        }
    }

    pub fn is_window_scoped(&self) -> (r: bool)
        ensures
            r == window_scoped(*self),
    {
        match self {
            InputEvent::RedrawRequested => false,
            InputEvent::ApplicationEvent { .. } => false,
            _ => true,
        }
    }

    pub fn is_ui_claimable(&self) -> (r: bool)
        ensures
            r == ui_claimable(*self),
    {
        match self {
            InputEvent::KeyPress { pressed, .. } => *pressed,
            InputEvent::Other { .. } => true,
            _ => false,
        }
    }
}

} // verus!
