//! A client for the DigitalOcean Spaces logging endpoints of the Fastly
//! management API.
//!
//! The library decides everything about a call but how bytes travel: it
//! assembles the request, records the rate limit that the answer
//! advertises, and tells success from failure by the status. The caller
//! brings the transport, a function from a request to what came back, and
//! the decoder of the payload. Every function states what it returns, and
//! the statements are proved.

pub mod apis;
pub mod models;
pub mod names;
