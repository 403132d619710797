//! Decision core of a conversational companion bot.
//!
//! The crate holds the rules of the bot and proves them; everything that talks
//! to the outside (sockets, storage, language models, the clock) lives in the
//! application around it and hands plain values in and out.

pub mod adapters;
pub mod application;
pub mod ctl;
pub mod domain;
pub mod error;
pub mod json;
pub mod scalar;
pub mod text;
pub mod time;
