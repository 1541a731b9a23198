//! The decision core of a tiling window manager.
//!
//! Everything the window manager *decides* lives here: which windows are managed, how
//! the layers of a workspace are stacked, which windows are dimmed, what an event or a
//! command does to the state. What the window system answers comes in as plain values
//! (see [`desktop::Desktop`]), and what the window system is asked to do goes out as a
//! list of steps (see [`plan::Plan`]).

pub mod geometry;
pub mod text;
pub mod rules;
pub mod styles;
pub mod desktop;
pub mod error;
pub mod manager_op;
pub mod reply;
pub mod plan;
pub mod animation;
pub mod apply_worker;
pub mod window;
pub mod rule_set;
pub mod window_manager_event;
pub mod eligibility;
pub mod ring;
pub mod container;
pub mod workspace;
pub mod socket_message;
pub mod settings;
pub mod wallpaper_worker;
pub mod monitor;
pub mod layers;
pub mod pins;
pub mod transfer;
pub mod behaviour;
pub mod window_manager;
pub mod transparency_manager;
pub mod turn;
pub mod event_end;
pub mod focus_change;
pub mod new_window;
pub mod move_resize;
pub mod window_gone;
pub mod process_event;
pub mod change_settings;
pub mod command_ops;
pub mod subscriptions;
pub mod session;
pub mod change_state;
pub mod command_focus;
pub mod eager_focus;
pub mod command_layers;
pub mod command_files;
pub mod command_replies;
pub mod ignore_rule;
pub mod process_command;
pub mod focus_manager;
pub mod startup;
pub mod gui;
pub mod laws;
