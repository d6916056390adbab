//! The client side of a Lightning node's control interface, without the
//! transport: what to dial and when to retry, what each request holds, and
//! how short channel identifiers are written.

pub mod amount;
pub mod cln;
pub mod connect;
pub mod decimal;
pub mod error;
pub mod hints;
pub mod identity;
pub mod request;
pub mod scid;
