//! Scoped execution contexts for an embedded script engine, without the engine.
//!
//! The library keeps the books of one thread's contexts: which context is
//! current, which contexts are alive, and what each of them owns (a queue of
//! deferred tasks and a store of user data). It never talks to the engine
//! itself. Every operation that needs the engine takes the engine's status
//! code as an argument and says what follows from it.

pub mod context;
pub mod data;
pub mod error;
pub mod lemmas;
pub mod runtime;
pub mod value;
