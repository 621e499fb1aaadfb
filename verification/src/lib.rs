//! The decisions behind OpenLogi, a local companion for Logitech mice.
//!
//! Remapped buttons, hold-to-repeat, the capture of diverted controls, the
//! scriptable DPI, launch-at-login, the tray, the settings form and the
//! self-update are all decided here, from plain values to plain values. Every
//! function states what it returns or changes, and the `law_` functions state
//! what holds across them. Talking to the operating system, the network and the
//! device is left to the caller.
//!
//! - [`hook`], [`win_hook`]: captured mouse events, and the life of the hook;
//! - [`hook_runtime`], [`gesture`], [`repeat`]: what an event leads to;
//! - [`binding`], [`device`], [`config`], [`platform`]: the vocabulary;
//! - [`control`], [`cli`]: the control channel and the command line;
//! - [`updater`], [`json`]: the self-update;
//! - [`launch_agent`], [`tray`], [`settings`]: the desktop;
//! - [`text`], [`utf16`]: characters, numbers and wide strings.

pub mod binding;
pub mod cli;
pub mod config;
pub mod control;
pub mod device;
pub mod gesture;
pub mod hook;
pub mod hook_runtime;
pub mod json;
pub mod launch_agent;
pub mod platform;
pub mod repeat;
pub mod settings;
pub mod text;
pub mod tray;
pub mod updater;
pub mod utf16;
pub mod win_hook;
