//! Turns a natural-language request into shell commands by driving a
//! tool-augmented conversation with a language model.
//!
//! The library holds the parts that decide: the unicode-aware scrolling
//! window used for live progress output ([`scroll`], [`width`]), token
//! accounting ([`usage`]), the interpretation of a streamed round
//! ([`round`]), the corrective-pass state machine of a resolve request
//! ([`resolve`], [`command`], [`message`]), the prompt templates
//! ([`profile`]), the tools' arguments and reports ([`tools`], [`lines`]),
//! configuration values ([`config`], [`logging`], [`shell`]), the choices
//! offered once commands are proposed ([`select`]) and a canned model
//! endpoint for trying the program out ([`mock`]). Talking to the model,
//! running processes and drawing the terminal are left to the program around
//! it.

pub mod width;
pub mod text;
pub mod scroll;
pub mod usage;
pub mod message;
pub mod tools;
pub mod lines;
pub mod command;
pub mod round;
pub mod profile;
pub mod resolve;
pub mod config;
pub mod logging;
pub mod shell;
pub mod select;
pub mod mock;
