//! Exam content ("simulados") served from a corpus of JSON documents through
//! a process-local cache and a distributed cache tier, with per-request
//! shuffling of answer choices.

pub mod exam;
pub mod laws;
pub mod names;
pub mod progress;
pub mod service;
pub mod shuffle;
pub mod store;
pub mod tier;
pub mod watcher;
