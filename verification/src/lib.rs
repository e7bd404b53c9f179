//! Start-up and frame loop of a single-triangle OpenGL renderer, as a
//! verified state machine.
//!
//! The library decides; it makes no windowing or GPU call itself. A host
//! program asks the [`lifecycle::Renderer`] for the next
//! [`lifecycle::Step`], makes that one call on the windowing or the GPU
//! layer, and hands the outcome back as a [`lifecycle::Reply`]. What is
//! proved here is the order of the start-up, the handling of window events,
//! the end of the loop, and that no failure of a shader goes unreported.
//!
//! - [`event`]: window events and their effect on the window;
//! - [`lifecycle`]: the states, steps and replies of the renderer, and the
//!   transitions between them;
//! - [`machine`]: the executable renderer;
//! - [`laws`]: what holds of every run of the renderer;
//! - [`shader`], [`vertex`], [`settings`]: the fixed data of the renderer;
//! - [`error`]: the failures that end it.

pub mod error;
pub mod event;
pub mod laws;
pub mod lifecycle;
pub mod machine;
pub mod settings;
pub mod shader;
pub mod vertex;
