//! Session engine of an interactive remote-debugging client.
//!
//! The engine is written without I/O of its own: the caller polls the
//! keyboard and drives the transport, and hands every key press and every
//! transport outcome to the state machines defined here.

pub mod addr2line;
pub mod app;
pub mod config;
pub mod input;
pub mod message;
pub mod network;
pub mod popup;
pub mod text;
pub mod ui;
