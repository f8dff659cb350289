//! Decision logic of `feel`, a `touch` that creates missing parent
//! directories, can ask before touching an existing path, and reports what it
//! created.
//!
//! The library never touches the filesystem itself. A [`session::Session`]
//! walks the target paths in order and, at each point, names the one
//! operation that the caller must perform next ([`session::Action`]); the
//! caller performs it and hands the outcome back ([`session::Event`]).

mod answer;
pub mod session;
pub mod trace;

pub use answer::is_affirmative;
pub use session::{Action, Event, Options, Phase, Session, TouchError};
