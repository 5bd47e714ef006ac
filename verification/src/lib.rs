//! Verified core of the vhost-user sound device launcher.
//!
//! The launcher turns command-line input into a [`config::SoundConfig`] and
//! keeps the device backend server running by starting it again whenever it
//! returns. This crate holds the rules of both steps; reading the command
//! line and running the server are left to the program that links it.

pub mod backend;
pub mod config;
pub mod error;
pub mod supervisor;
pub mod text;
