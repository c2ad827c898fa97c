//! A single-route HTTP relay.
//!
//! One fixed local path answers GET requests by fetching one fixed remote
//! XML resource and handing its bytes back with a fixed content type and a
//! permissive cross-origin header; a transport-level failure of the outbound
//! fetch is answered with 502 and an empty body. Every decision the relay
//! makes — which requests are relayed, what each fetch outcome turns into,
//! what the fallback responses look like — lives here as verified code;
//! the listener and the outbound HTTP client sit outside the library and
//! only carry plain values in and out.

pub mod config;
pub mod relay;
pub mod response;
pub mod routing;
