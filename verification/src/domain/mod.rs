//! The business model, free of infrastructure.

pub mod behavior;
pub mod character;
pub mod conversation;
pub mod emotion;
pub mod event;
pub mod memory;
pub mod message;
pub mod mute;
pub mod relationship;
