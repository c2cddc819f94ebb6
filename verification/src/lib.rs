//! A chat relay: messages that authenticated clients submit over persistent
//! connections are, once the store has kept them, fanned out to every client
//! that is subscribed to the message's room.
//!
//! The relay itself is `relay`, over the subscription registry (`registry`),
//! the hub of one room (`hub`), the fan-out (`delivery`), the outbound queue
//! of a connection (`outbound`) and the set of open addresses
//! (`connections`). `history` states the order in which queues take frames.
//! `session` is the read path of a connection, `link` the client's side of
//! it. `protocol`, `client` and `server` hold what goes over the wire, `api`
//! the rules by which the server answers requests, `cache` what a client
//! remembers, and `keys` the random values.
//!
//! Every operation takes its state exclusively (`&mut`): the contracts speak
//! of one operation at a time, and who shares a relay between tasks has to
//! let one operation in at a time.

pub mod api;
pub mod cache;
pub mod client;
pub mod connections;
pub mod delivery;
pub mod history;
pub mod hub;
pub mod keys;
pub mod link;
pub mod outbound;
pub mod protocol;
pub mod registry;
pub mod relay;
pub mod server;
pub mod session;
