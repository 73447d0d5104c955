//! A note service's library: the request schemas, the stored note and its
//! public form, the response envelopes, and the decisions of each request
//! handler as a machine that names the next SQL statement or the reply.

pub mod handler;
pub mod model;
pub mod response;
pub mod schema;
pub mod table;
