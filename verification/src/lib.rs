//! Installer orchestration core.
//!
//! The heart of this crate is the service status coordinator: a progress
//! sequence (an ordered list of named steps with a monotone cursor) and a
//! status manager that owns one optional sequence plus a busy/idle flag,
//! mutates them one request at a time, and records the events that each
//! mutation must publish. Around it stand the format sniffer for
//! configuration files and a thin, modelled wrapper over the network state
//! engine.

pub mod file_format;
pub mod network;
pub mod progress;
pub mod status;
