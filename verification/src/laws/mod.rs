//! What holds of the window manager as a whole: how events, commands and passes over the
//! windows relate what comes in to what comes out.

pub mod animations;
pub mod answers;
pub mod arrivals;
pub mod calls;
pub mod changes;
pub mod commands;
pub mod departures;
pub mod dimming;
pub mod drags;
pub mod events;
pub mod focus;
pub mod lists;
pub mod lookups;
pub mod operations;
pub mod places;
pub mod preferences;
pub mod purges;
pub mod stacking;
pub mod widgets;
pub mod windows;
pub mod workers;
