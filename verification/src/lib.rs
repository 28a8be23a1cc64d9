//! Chat-driven browser control: the command language that chat messages are
//! parsed in, the configuration it runs under, and the decisions that the
//! browser worker and the chat bot take on each command.
pub mod text;
pub mod table;
pub mod config;
pub mod browser;
pub mod command_parser;
pub mod streambot;
pub mod stdin_source;
pub mod properties;
pub mod config_properties;
pub mod operation_laws;
