//! Remote control of a multitrack player: the player's configuration, the
//! keyboard and OSC (Open Sound Control) controllers, and the OSC endpoint that
//! reports the player's state to its clients.
pub mod config;
pub mod controller;
pub mod net;
pub mod osc;
pub mod path;
pub mod player;
pub mod text;
