//! Bookkeeping and message routing for the clients of a terminal web server.

pub mod channel;
pub mod connection_bus;
pub mod connection_table;
pub mod control_socket;
pub mod effects;
pub mod laws;
pub mod string_map;
pub mod terminal_socket;
pub mod web_server;
