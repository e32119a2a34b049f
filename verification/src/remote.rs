//! The remote console: what a technician's commands, sent over the web socket,
//! make this machine run and answer.
//!
//! The socket, the processes and the filesystem stay with the caller; here are
//! the command texts handed to PowerShell, the replies built from what came
//! back, and the console's own state (live statistics, pending plugin calls,
//! files arriving in chunks).
pub mod powershell;
pub mod replies;
pub mod transfer;
pub mod console;
pub mod power;
pub mod script_commands;
