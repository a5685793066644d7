//! Supervision of the backend service process that runs beside the desktop
//! shell: where its executable lives, how it is launched, and the bounded
//! protocol that stops it when the window closes.

pub mod commands;
pub mod platform;
pub mod resolve;
pub mod shutdown;
pub mod supervisor;
