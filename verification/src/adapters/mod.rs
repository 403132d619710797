//! The platforms that the bot talks on.

pub mod onebot;
