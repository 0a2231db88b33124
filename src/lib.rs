//! Session, order and streaming logic of a brokerage client, with the
//! behaviour of each operation stated as a contract.
//!
//! - `session`: credentials and the authorization state machine
//!   (unauthenticated, authenticated, trade-elevated), refresh single-flight,
//!   account resolution.
//! - `orders`: order checks, idempotency bookkeeping, live and paper payloads,
//!   order-id replies, open-order selection.
//! - `stream`: the subscription set, connection state, reconnect backoff and
//!   the routing of inbound frames.
//! - `models`, `builders`: the order vocabulary, wire codes and request builders.
//! - `endpoints`: the REST addresses.
//! - `utils`, `json`, `text`, `error`: helpers and the error taxonomy.

pub mod builders;
pub mod endpoints;
pub mod error;
pub mod json;
pub mod models;
pub mod orders;
pub mod session;
pub mod stream;
pub mod text;
pub mod utils;
