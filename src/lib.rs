//! Taskbar / dock progress indicator, modelled per desktop shell.
//!
//! Each backend keeps the last-applied indicator state and turns every
//! operation into the exact, ordered list of native calls that the shell
//! must receive. Performing those calls is left to the host.
pub mod state;
pub mod progress;
pub mod linux;
pub mod macos;
pub mod windows;
