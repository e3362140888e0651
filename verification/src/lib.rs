//! A small chat service: the web room's form and event stream, the line
//! protocol of the terminal server, and the decisions of the terminal client.
pub mod text;
pub mod clock;
pub mod message;
pub mod server;
pub mod web;
pub mod client;
pub mod theme;
