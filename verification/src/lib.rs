//! A compatibility layer between an OpenAI-style completion API and a native
//! text-generation protocol.
//!
//! Requests are normalised into native generate requests, chat conversations are
//! linearised into one prompt by a configurable template, and native results are
//! turned into complete or streamed OpenAI-shaped responses. Every function is
//! a pure mapping with a machine-checked contract; only the system clock is read
//! from outside.

pub mod protocol;
pub mod timestamp;
pub mod chat;
pub mod request;
pub mod response;
pub mod stream;
