//! The decisions behind a terminal front end for a stream store.
//!
//! Streams of bytes live in a storage service; this library holds what the front end
//! knows about them, how keys and replies change that knowledge, what is asked of the
//! outside world next, and what is shown on the screen.

pub mod catalog_laws;
pub mod command;
pub mod display_laws;
pub mod layout;
pub mod listing;
pub mod listing_laws;
pub mod model_laws;
pub mod operation_laws;
pub mod payload;
pub mod screen;
pub mod screen_laws;
pub mod session;
pub mod session_laws;
pub mod settings;
pub mod state;
pub mod step;
pub mod step_laws;
pub mod text;
pub mod text_laws;
pub mod transition;
