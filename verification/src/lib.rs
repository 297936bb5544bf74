//! The core of a terminal chat client, verified.
//!
//! The client draws a text interface, takes keys in modes, and exchanges
//! encrypted messages with a chat server. This crate holds what the client
//! decides and computes: the keymap dispatcher, the text buffer with its
//! caret, the log ring, the state machine that turns commands into changes
//! of state and outgoing messages, the multiplexer's rule for turning what
//! its sources deliver into one stream of events, and the dispatcher that
//! says what is to be done for each event. Terminal, socket, timers, codec
//! and cipher belong to the program around it, which performs the actions
//! that the dispatcher asks for.

pub mod app;
pub mod chat_log;
pub mod command;
pub mod default_keybinds;
pub mod event;
pub mod event_bus;
pub mod keymap;
pub mod log_ring;
pub mod shared_secret;
pub mod socket_client;
pub mod style;
pub mod text;
pub mod time;
pub mod update;
pub mod user_config;
pub mod views;
pub mod wire;
