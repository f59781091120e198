//! The state of a server-rendered task list and the rules that every request
//! handler follows. Markup, sockets and locks live outside; this crate decides
//! what each request does to the state and what is sent back, and proves it.
//!
//! - `ident`: the identifier allocator.
//! - `task`: tasks and the task store.
//! - `filter`: the three view filters and the selection.
//! - `session`: the session gate, tokens and cookies.
//! - `query`: the parameters of a request.
//! - `state`: the state that the handlers share.
//! - `reply`: responses and their bodies.
//! - `router`: the routes and their handlers.
//! - `fragments`: what the fragments of the page show.
//! - `text`: blank texts and decimal numerals.
//!
//! Every handler takes the state by exclusive reference. Whoever serves
//! requests side by side keeps the state behind a lock and holds the lock for
//! the length of a call; the contracts then describe the requests in the order
//! in which they got the lock.

pub mod filter;
pub mod fragments;
pub mod ident;
pub mod query;
pub mod reply;
pub mod router;
pub mod session;
pub mod state;
pub mod task;
pub mod text;
