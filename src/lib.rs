//! An HTTP-accessible message broker: named in-memory FIFO queues, a dispatcher that
//! creates them on first publish, the request adapter that routes `GET`/`POST`
//! calls to it, and the decisions taken for each accepted connection.

pub mod errors;
pub mod queue;
pub mod dispatcher;
pub mod adapter;
pub mod config;
pub mod connection;
pub mod tls;
