//! Orchestration: what is decided between the adapters, the storage and the
//! language model.

pub mod action;
pub mod behavior_engine;
pub mod binding;
pub mod character_import;
pub mod cognition;
pub mod cognition_driver;
pub mod command;
pub mod config;
pub mod context;
pub mod control;
pub mod conversation;
pub mod emotion_service;
pub mod event_processor;
pub mod llm_scheduler;
pub mod memory_service;
pub mod message_persistence;
pub mod mood_service;
pub mod plugin_api;
pub mod proactive;
pub mod relationship_service;
pub mod reply_processor;
pub mod runtime;
pub mod scheduler;
