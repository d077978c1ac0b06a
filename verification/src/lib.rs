//! The view-state engine of a terminal hex viewer: it turns keys, typed
//! commands and the height of the terminal into an offset into a file,
//! says how many bytes to fetch for a frame, and renders the bytes fetched
//! as rows of hexadecimal and ASCII.
//!
//! The engine does no input or output. The host opens the file, reads the
//! bytes that a [`viewport::ReadPlan`] asks for, paints what
//! [`viewport::ViewportBuffer::rows`] and [`state::ViewState::footer`]
//! return, and hands in the keys. It also hands in the time, as
//! milliseconds on a clock that does not run backwards.
//!
//! [`model`] holds the state as a mathematical value and says what each
//! step does to it; [`state`] holds the executable state, whose steps are
//! proved to do just that; [`laws`] holds what follows for every session.

pub mod command;
pub mod format;
pub mod laws;
pub mod messages;
pub mod model;
pub mod offset;
pub mod render;
pub mod state;
pub mod text;
pub mod viewport;
