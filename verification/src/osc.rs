//! The OSC endpoint: packets, their form on the wire, what is answered to whom.
pub mod laws;
pub mod loops;
pub mod packet;
pub mod receiver;
pub mod sender;
pub mod state;
pub mod telling;
pub mod wire;
