//! Verified core of a Slint editor for audio plug-ins that runs inside a
//! baseview window: the persisted editor size, the window settings requested
//! when the editor opens, the mapping of window input to Slint events,
//! the per-frame bookkeeping and the queue of programmatic resizes.

pub mod editor_state;
pub mod keys;
pub mod input;
pub mod events;
pub mod window_handler;
pub mod laws;
pub mod platform;
