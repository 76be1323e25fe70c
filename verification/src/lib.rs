//! The verified core of a logging proxy between a Minecraft client and server.
pub mod answer_laws;
pub mod arguments;
pub mod command;
pub mod connection;
pub mod connection_laws;
pub mod console;
pub mod console_laws;
pub mod filter;
pub mod filter_laws;
pub mod grammar;
pub mod help;
pub mod line_laws;
pub mod message;
pub mod number;
pub mod number_laws;
pub mod order;
pub mod packet_laws;
pub mod proxy;
pub mod settings_laws;
pub mod suggestion_laws;
pub mod text;
pub mod util;
