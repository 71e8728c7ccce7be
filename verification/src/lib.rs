//! Event distribution and command dispatch for a container-runtime relay.
//!
//! Many clients watch what happens to the containers of one runtime and
//! send it commands, each over a session of its own. This crate holds what
//! such a relay decides, with every decision stated as a contract and
//! proved:
//!
//! - [`events`]: the events that travel between clients, relay and runtime;
//! - [`json`]: the documents that they are written as;
//! - [`serializers`] and [`datas`]: the envelope codec;
//! - [`bus`]: the bounded, lossy bus that fans events out to the sessions;
//! - [`services`]: the upstream source, which keeps the runtime's event
//!   feed alive and turns its raw messages into events;
//! - [`webtransport`]: the sessions and the dispatch of commands.
//!
//! Nothing here waits, reads or writes. Where the relay has to, a function
//! says what to do next and takes what came of it as its next argument; the
//! program around this crate does the waiting, reading and writing.

pub mod bus;
pub mod datas;
pub mod events;
pub mod json;
pub mod serializers;
pub mod services;
pub mod webtransport;
