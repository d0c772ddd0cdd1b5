//! A verified helper library for a status-bar "now playing" widget.
//!
//! The library models a small media-control pipeline: it builds the exact
//! command lines sent to the `playerctl` controller, parses the controller's
//! text replies into typed values, renders the one-line JSON status that the
//! bar consumes, and decides which player a forwarded command should target.
//! Everything that talks to the outside world (spawning the controller,
//! reading the scratch file, printing) lives in the surrounding binary; the
//! logic here is pure and carries contracts.

pub mod ctl;
pub mod decide;
pub mod render;
pub mod status;
pub mod strutil;
