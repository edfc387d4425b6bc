//! Presence-triggered capture agent: the trigger state machine, the capture
//! controller, the durable task queue and the worker rules that consume it.

pub mod activity;
pub mod agent;
pub mod ai;
pub mod capture;
pub mod clock;
pub mod doctor;
pub mod domain;
pub mod health;
pub mod ids;
pub mod image;
pub mod llm;
pub mod monitor;
pub mod novel;
pub mod pending;
pub mod persist;
pub mod presence;
pub mod prompts;
pub mod preprocessor;
pub mod recovery;
pub mod retry;
pub mod session;
pub mod settings;
pub mod setup;
pub mod status;
pub mod task;
pub mod task_store;
pub mod text;
pub mod transcode;
pub mod transcription;
pub mod trigger;
pub mod watcher;
pub mod worker;
