//! Local-network peer discovery: the verified decision logic of a discovery
//! session.
//!
//! A session advertises this instance's presence under a well-known service
//! type, browses for other instances, and runs a small receiver endpoint for
//! direct "challenge" notifications.  The modules here hold everything that
//! can be decided or computed from plain values: the session state machine,
//! the advertisement record that a start builds, the mapping from browse
//! events to peer events, the handling of a decoded challenge body, and the
//! text formatting those need.  The surrounding runtime (socket binding, the
//! HTTP server, the service daemon) hands outcomes in and carries actions
//! out.

pub mod advert;
pub mod challenge;
pub mod decimal;
pub mod errors;
pub mod peers;
pub mod session;
