//! A gateway between HTTP and a unary remote procedure: the translation of
//! requests and responses, the choice of a backend endpoint, the routing of a
//! connection, and the life cycle of the listener.

pub mod config;
pub mod envelope;
pub mod gateway;
pub mod handlers;
pub mod multiplex;
pub mod pool;
pub mod request;
pub mod response;
pub mod supervisor;
pub mod text;
pub mod version;
pub mod wire;
