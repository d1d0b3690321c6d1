//! The rules of a cross-platform installer for Tor Browser.
//!
//! The installer fetches the current release, asks the person to confirm it,
//! downloads it, verifies its checksum and its signature, and installs it. What
//! touches the network, the file system, other programs or the screen is left
//! to a program around this library: it hands in what came of each action and is
//! told what to report and what to do next.
//!
//! - [`builder`] is what the window shows and how that changes; [`states`] is
//!   what a worker reports to it.
//! - [`pipeline`] decides the course of an install, in terms of the actions and
//!   events of [`events`]; [`install_laws`] proves what each of its steps is for,
//!   and [`pipeline_laws`] what holds of every install.
//! - [`release`], [`checksum`] and [`signature`] read and verify what was
//!   fetched.
//! - [`platform`], [`volumes`], [`plist`] and [`search`] know the systems: where
//!   things are installed, mounted and found.
//! - [`commands`] and [`quote`] are what other programs are told, and how they
//!   read it.
//! - [`palette`] and [`icons`] are what things look like.

pub mod builder;
pub mod checksum;
pub mod commands;
pub mod events;
pub mod icons;
pub mod install_laws;
pub mod palette;
pub mod pipeline;
pub mod pipeline_laws;
pub mod platform;
pub mod plist;
pub mod quote;
pub mod release;
pub mod search;
pub mod signature;
pub mod states;
pub mod text;
pub mod volumes;
