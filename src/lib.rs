//! A database relay: typed, engine-independent query results, the decoding
//! rules that produce them, and the state machines that drive a worker which
//! owns a live connection and talks to its caller only through messages.

pub mod cell;
pub mod fetch;
pub mod meta;
pub mod model;
pub mod mysql;
pub mod relay;
pub mod session;
pub mod views;
