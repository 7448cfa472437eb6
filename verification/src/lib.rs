//! Interactive blame navigation: a verified state machine for walking a
//! file's per-line commit attribution backward through history.
//!
//! The library owns the navigation state (attribution list, selection,
//! commit stack, history overlay) and the transition logic for key events.
//! Computing an attribution or a line history is the history provider's
//! job: the caller performs those lookups and feeds the results back in
//! through the `apply_*` operations.

pub mod nav;
pub mod plan;
pub mod props;
pub mod state;
