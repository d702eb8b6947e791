//! Store SSH host credentials and open sessions with them.
//!
//! The library holds the decision logic: the reversible secret codec, the
//! authentication resolver, the choice between the external-client and the
//! embedded-protocol backend with each backend's behaviour, and the peer
//! sync exchange of the whole credential store. Callers supply the outside
//! world (files, processes, sockets) and drive the state machines here.

pub mod codec;
pub mod config;
pub mod error;
pub mod ssh_client;
pub mod sync;
