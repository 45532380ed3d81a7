//! A memoizing cell for an incremental computation engine: it stores the
//! value that a task produced, remembers which tasks read it, and decides
//! when readers must wait for a recomputation and when dependent tasks must
//! be scheduled again.
pub mod task;
pub mod content;
pub mod event;
pub mod cell;
pub mod laws;
