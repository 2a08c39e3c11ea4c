//! Peripheral chips: each decodes writes to its registers and keeps a small
//! state machine.

pub mod ega;
pub mod pc98_graphics;
pub mod pc98_keyboard;
pub mod pc98_system_port;
pub mod videocard;
