//! ShellShop: an SSH-first terminal shop.  This crate is its verified core:
//! decoding terminal input into keys, the shop screen's state machine, the
//! screen geometry and the animated frame, command-line options, the
//! per-session rules of the SSH server, and the host key's life cycle.

pub mod app;
pub mod border;
pub mod channel_loop;
pub mod cli;
pub mod host_key;
pub mod keys;
pub mod layout;
pub mod server;
