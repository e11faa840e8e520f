//! Values bound to the thread that created them.
//!
//! A [`ThreadBound`] holds a value together with the identity of the thread
//! that bound it, and lets that thread alone reach the value. Threads are
//! named by [`ThreadId`] tokens that the caller passes in, so every rule here
//! is stated, and proved, for all threads at once:
//!
//! - [`thread_bound`] holds the guard and its operations;
//! - [`state`] is the guard as contracts see it, [`GuardState`];
//! - [`error`] is the report of an access from the wrong thread;
//! - [`laws`] states what holds of every guard;
//! - [`thread_id`] and [`text`] hold the tokens and their diagnostic text.

pub mod error;
pub mod laws;
pub mod state;
pub mod text;
pub mod thread_bound;
pub mod thread_id;

pub use error::WrongThreadAccess;
pub use state::GuardState;
pub use thread_bound::{thread_bound, ThreadBound};
pub use thread_id::ThreadId;
