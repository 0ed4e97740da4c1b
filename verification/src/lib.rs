//! A broker between applications and the secret store of the operating system.
//!
//! The library decides; the host performs. For each of the five credential
//! operations it validates the key, plans the request that the native store
//! of the chosen platform is to receive, follows the store's replies through
//! the one fallback a platform may need, and turns the last reply into the
//! operation's result, with every native failure placed in one error
//! vocabulary. It keeps nothing between calls.
//!
//! The host's part is one loop, the same for every operation:
//!
//! ```text
//! let broker = Broker::for_os(std::env::consts::OS, Portability::Deferred)?;
//! let mut exchange = broker.plan_get_password(service, account)?;
//! let reply = loop {
//!     let reply = perform(&exchange.request);          // the native call
//!     match broker.advance(exchange, reply) {
//!         ProgressOf::Continue(next) => exchange = next,
//!         ProgressOf::Settled(reply) => break reply,
//!     }
//! };
//! broker.finish_get_password(reply)
//! ```
//!
//! `store` describes the native stores as the broker expects them to behave,
//! and `laws` proves against that description what callers rely on: a secret
//! that was set is read back, deletion is idempotent, an enumeration shows
//! the entries of its service and no others.
pub mod error;
pub mod secrecy;
pub mod key;
pub mod native;
pub mod windows;
pub mod macos;
pub mod linux;
pub mod broker;
pub mod store;
pub mod laws;
