//! The settings window: what it shows of the window manager, and what its widgets send.

pub mod config;
pub mod state;
pub mod action;
pub mod debugging;
