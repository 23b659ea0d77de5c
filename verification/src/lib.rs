//! Client library for the Kite Connect trading API.
//!
//! The streaming side decodes the binary tick stream and keeps track of what
//! is watched: `wire` reads big-endian fields, `tick` decodes one sub-packet,
//! `frame` splits a message into sub-packets and decodes them all, `ticker`
//! holds the subscription registry and the state of the session, and
//! `control` writes the frames that go to the server.
//!
//! The REST side describes each call as a request: `connect` holds the
//! credentials and what is computed from them, `request` and `endpoints` the
//! requests, `instruments` the master files, `serializers` and `types` the
//! records of the answers.
//!
//! Nothing in this library reads or writes a socket. Whoever does hands the
//! bytes in and carries out what comes back.

pub mod connect;
pub mod control;
pub mod endpoints;
pub mod frame;
pub mod instruments;
pub mod request;
pub mod serializers;
pub mod tick;
pub mod ticker;
pub mod types;
pub mod wire;
