//! Frame-animation resolution engine for a 2D game.
//!
//! Given a named set of animation states, each holding one playback-mode
//! descriptor, the library decides tick by tick which sprite-sheet frame an
//! entity displays and what root-motion offset that frame implies, and
//! smooths the entity's position toward the resulting target.

pub mod animation;
pub mod driver;
pub mod interpolator;
pub mod menu;
pub mod motion;
pub mod resolver;
pub mod selector;
