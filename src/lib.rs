//! A terminal multiplexer core: a scrollback-aware model of a virtual
//! terminal, the input-mode state machine that drives it, the layout of the
//! frame that is painted, and the acquire/release discipline of a
//! pseudo-console session.

pub mod engine;
pub mod keys;
pub mod mux;
pub mod renderer;
pub mod session;
pub mod terminal;
pub mod text;
