//! The decisions behind Mnemosyne, a learning platform built on spaced
//! repetition, active recall and Socratic dialogue.
//!
//! The server and the browser client do the talking: HTTP, SQL, the model and
//! the screen. What they say next is decided here, in functions from plain
//! values to plain values.

pub mod deepseek;
pub mod frontend;
pub mod handlers;
pub mod health;
pub mod http;
pub mod ids;
pub mod ks_client;
pub mod laws;
pub mod llm_provider;
pub mod text;
pub mod time;
