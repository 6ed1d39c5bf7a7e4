//! Session handling and video capture core of the desktop client.
//!
//! The crate holds the decisions of the application: which servers are
//! known, how a login proceeds, how captured pictures become planar
//! frames and how a publish loop reacts to what its source delivers.
//! Threads, sockets and devices live with the caller.

pub mod discovery;
pub mod pages;
pub mod services;
pub mod text;
pub mod video;
