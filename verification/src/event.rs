//! Window events and what the renderer does about them.

use vstd::prelude::*;

verus! {

/// A key of the keyboard, as far as the renderer tells keys apart.
#[derive(Clone, Copy, Debug, PartialEq, Eq, Structural)]
pub enum Key {
    Escape,
    /// Any other key, by the windowing layer's code for it.
    Other(i32),
}

/// What happened to a key.
#[derive(Clone, Copy, Debug, PartialEq, Eq, Structural)]
pub enum Action {
    Release,
    Press,
    Repeat,
}

/// The rectangle of the window surface that GPU output maps onto.
#[derive(Clone, Copy, Debug, PartialEq, Eq, Structural)]
pub struct Viewport {
    pub x: i32,
    pub y: i32,
    pub width: i32,
    pub height: i32,
}

/// An event delivered by the windowing layer.
#[derive(Clone, Copy, Debug, PartialEq, Eq, Structural)]
pub enum WindowEvent {
    Key(Key, Action),
    /// The framebuffer now has this width and height.
    FramebufferSize(i32, i32),
    /// Any event the renderer does not react to.
    Other,
}

/// The one side effect that an event asks for.
#[derive(Clone, Copy, Debug, PartialEq, Eq, Structural)]
pub enum Effect {
    Nothing,
    /// Set the window's close flag.
    RequestClose,
    /// Set the GPU viewport to this rectangle.
    SetViewport(Viewport),
}

/// What the renderer knows of its window: the close flag and the viewport
/// last set.
#[derive(Clone, Copy, Debug, PartialEq, Eq, Structural)]
pub struct Window {
    pub should_close: bool,
    pub viewport: Viewport,
}

/// The viewport that covers a framebuffer of the given size from its origin.
pub open spec fn full_viewport(width: i32, height: i32) -> Viewport {
    Viewport { x: 0, y: 0, width, height }
}

/// The effect of an event: pressing Escape asks to close, a resized
/// framebuffer asks for a viewport over all of it, and nothing else has any
/// effect.
pub open spec fn effect_of(event: WindowEvent) -> Effect {
    match event {
        WindowEvent::Key(Key::Escape, Action::Press) => Effect::RequestClose,
        WindowEvent::FramebufferSize(width, height) => Effect::SetViewport(
            full_viewport(width, height),
        ),
        _ => Effect::Nothing,
    }
}

impl Window {
    /// The window once `effect` has been carried out on it.
    pub open spec fn after(self, effect: Effect) -> Window {
        match effect {
            Effect::Nothing => self,
            Effect::RequestClose => Window { should_close: true, viewport: self.viewport },
            Effect::SetViewport(viewport) => Window { should_close: self.should_close, viewport },
        }
    }

    /// A window that has not been asked to close.
    pub fn new(viewport: Viewport) -> (window: Window)
        ensures
            window == (Window { should_close: false, viewport }),
    {
        Window { should_close: false, viewport }
    }

    /// Whether the window has been asked to close.
    pub fn should_close(&self) -> (flag: bool)
        ensures
            flag == self.should_close,
    {
        self.should_close
    }

    /// Sets or clears the close flag; the viewport is not touched.
    pub fn set_should_close(&mut self, value: bool)
        ensures
            *final(self) == (Window { should_close: value, viewport: old(self).viewport }),
    {
        self.should_close = value;
    }

    /// Carries out `effect` on the window.
    pub fn apply(&mut self, effect: Effect)
        ensures
            *final(self) == old(self).after(effect),
    {
        match effect {
            Effect::Nothing => {},
            Effect::RequestClose => {
                self.set_should_close(true);
            },
            Effect::SetViewport(viewport) => {
                self.viewport = viewport;
            },
        }
    }
}

/// Decides the effect of `event`.
pub fn effect_for(event: WindowEvent) -> (effect: Effect)
    ensures
        effect == effect_of(event),
{
    match event {
        WindowEvent::Key(key, action) => {
            match (key, action) {
                (Key::Escape, Action::Press) => Effect::RequestClose,
                _ => Effect::Nothing,
            }
        },
        WindowEvent::FramebufferSize(width, height) => Effect::SetViewport(
            Viewport { x: 0, y: 0, width, height },
        ),
        WindowEvent::Other => Effect::Nothing,
    }
}

/// Handles one event: updates `window` and returns the effect to carry out
/// on the real window, of which there is exactly one per event.
///
/// Pressing Escape sets the close flag and nothing else; releasing or
/// repeating it, and any event of another key, changes nothing. A resized
/// framebuffer sets the viewport to `(0, 0, width, height)` and leaves the
/// close flag as it was. Any other event changes nothing.
pub fn handle_window_event(window: &mut Window, event: WindowEvent) -> (effect: Effect)
    ensures
        effect == effect_of(event),
        *final(window) == old(window).after(effect),
        event == WindowEvent::Key(Key::Escape, Action::Press) ==> ({
            &&& effect == Effect::RequestClose
            &&& final(window).should_close
            &&& final(window).viewport == old(window).viewport
        }),
        event is Key && event != WindowEvent::Key(Key::Escape, Action::Press) ==> ({
            &&& effect == Effect::Nothing
            &&& *final(window) == *old(window)
        }),
        event is FramebufferSize ==> ({
            let whole = full_viewport(event->FramebufferSize_0, event->FramebufferSize_1);
            &&& effect == Effect::SetViewport(whole)
            &&& final(window).viewport == whole
            &&& final(window).should_close == old(window).should_close
        }),
        event is Other ==> ({
            &&& effect == Effect::Nothing
            &&& *final(window) == *old(window)
        }),
{
    let effect = effect_for(event);
    window.apply(effect);
    effect
}

} // verus!
