//! Prist, a Flutter version manager: the rules it works by.
//!
//! The library decides; it touches neither the disk nor the network. What it
//! needs to know of them it is told as plain values, and what it wants done it
//! says as plain values.

pub mod checksum;
pub mod cli;
pub mod commands;
pub mod config;
pub mod engine;
pub mod error;
pub mod fs_util;
pub mod git_ops;
pub mod ide;
pub mod members;
pub mod paths;
pub mod releases;
pub mod settings;
pub mod text;
pub mod work;
