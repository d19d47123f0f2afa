//! Protocol adapters for a load-generation harness, with the HTTP adapter.
//!
//! [`http_bench_session`] holds the adapter: its configuration, how a client is set up
//! from it, which request is sent and what is reported of the outcome.
//! [`bench_session`] holds the record that is reported. [`transport`] is the boundary
//! to `reqwest`, where nothing is proved.

pub mod bench_session;
pub mod http_bench_session;
pub mod transport;
