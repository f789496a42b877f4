//! A small user directory served over an RPC endpoint: the store of users that
//! the service's two methods read and write, the keyed registry of users, the
//! user model, and the decisions that the HTTP edge of the service takes on
//! the way in (decoding the request text) and on the way out (the reply's
//! status).

pub mod transport;
pub mod user;
pub mod store;
pub mod registry;
