//! Preview-panel controller for an interactive terminal file browser.
//!
//! The library owns the state machine behind a single-file preview panel:
//! one base preview, an optional filtered overlay derived from a search
//! pattern, a pending (not yet materialized) pattern, a one-step restore
//! slot for the last removed pattern, and the layout / dirty bookkeeping
//! needed for redrawing.  Everything that touches the outside world —
//! reading files, compiling and running the pattern matcher, drawing to
//! the terminal — is the host's job; the host feeds the results back in
//! as plain values and this library decides, with proofs, what the next
//! state and the next visible action are.

pub mod area;
pub mod command;
pub mod laws;
pub mod path;
pub mod pattern;
pub mod preview;
pub mod preview_state;
