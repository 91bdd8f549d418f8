//! The color-state engine of an interactive color mixer.
//!
//! A [`ColorState`] owns the primary color that is on display, the
//! reference color that the bottom gradient fades into, and a bounded
//! first-in, first-out history of the primary colors that were shown.
//! Every operation returns the [`RenderEvent`]s that a presentation layer
//! has to carry out; the engine itself touches nothing outside its own
//! state.
//!
//! The operations are specified over [`StateView`](model::StateView), the
//! state as plain mathematical values, and [`laws`] holds what is proved of
//! that model.

pub mod color;
pub mod event;
pub mod laws;
pub mod model;
pub mod palette;
pub mod parse;
pub mod random;
pub mod state;
pub mod text;

pub use crate::color::Color;
pub use crate::event::RenderEvent;
pub use crate::model::Command;
pub use crate::state::ColorState;
