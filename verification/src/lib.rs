//! The input rules of a scrollable-tiling compositor.
//!
//! An input event from a device becomes a sequence of effects on the rest of the compositor: on
//! the session, the layout, the pointer, the tablet tools. Which effects, with which arguments
//! and in which order, is decided here. Where a decision hangs on something that only the
//! running compositor knows (which window is under the cursor, whether the session is locked),
//! the library asks a question and goes on with the answer.

pub mod config;
pub mod keysyms;
pub mod event;
pub mod binds;
pub mod geometry;
pub mod axis;
pub mod effect;
pub mod step;
pub mod act;
pub mod pointer;
pub mod tablet;
pub mod gesture;
pub mod state;
pub mod script;
pub mod account;
pub mod laws;

pub use binds::CompositorMod;
pub use state::State;
