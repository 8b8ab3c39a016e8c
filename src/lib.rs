//! Wi-Fi connection orchestration: an access-point catalog, a cooperative
//! cancellation handshake for the scan and connect flows, and the state
//! machine that ties them to a picker UI.

pub mod catalog;
pub mod codec;
pub mod mode;
pub mod network;
pub mod session;
pub mod signal;
pub mod state;
pub mod theme;
