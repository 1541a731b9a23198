//! Settings that are the same for all monitors.

use vstd::prelude::*;

use crate::animation::settings::AnimationOverrides;
use crate::animation::settings::AnimationSettings;
use crate::animation::settings::AnimationStyle;
use crate::behaviour::BorderImplementation;
use crate::socket_message::BorderStyle;
use crate::socket_message::StackbarLabel;
use crate::socket_message::StackbarMode;
use crate::window::AspectRatio;
use crate::window::PredefinedAspectRatio;

verus! {

pub const DEFAULT_WORKSPACE_PADDING: i32 = 10;

pub const DEFAULT_CONTAINER_PADDING: i32 = 10;

pub const DEFAULT_RESIZE_DELTA: i32 = 50;

pub const DEFAULT_MOUSE_FOLLOWS_FOCUS: bool = true;

pub const DEFAULT_FOCUS_NEW_WINDOWS: bool = false;

pub const DEFAULT_KEEP_MONOCLE_ON_WINDOW_CLOSE: bool = true;

/// A colour by its red, green and blue.
#[derive(Clone, Copy, Debug, PartialEq, Eq, Structural)]
pub struct Rgb {
    pub r: u32,
    pub g: u32,
    pub b: u32,
}

/// The colours of borders, as far as they are set.
#[derive(Clone, Copy, Debug, PartialEq, Eq, Structural)]
pub struct BorderColours {
    pub focused: Option<Rgb>,
    pub stack: Option<Rgb>,
    pub monocle: Option<Rgb>,
    pub unfocused: Option<Rgb>,
    pub unfocused_locked: Option<Rgb>,
    pub floating: Option<Rgb>,
    pub pinned: Option<Rgb>,
}

#[derive(Clone, Copy, Debug, PartialEq, Eq, Structural)]
pub struct BorderSettings {
    pub enabled: bool,
    pub width: i32,
    pub offset: i32,
    pub implementation: BorderImplementation,
    pub style: BorderStyle,
    pub colours: BorderColours,
}

/// How stacks show their windows. What is not set is left to the stackbars.
#[derive(Clone, Copy, Debug, PartialEq, Eq, Structural)]
pub struct StackbarSettings {
    pub mode: StackbarMode,
    pub label: StackbarLabel,
    pub focused_text_colour: Option<Rgb>,
    pub unfocused_text_colour: Option<Rgb>,
    pub background_colour: Option<Rgb>,
    pub height: i32,
    pub tab_width: i32,
    pub font_size: i32,
}

#[derive(Clone, Copy, Debug, PartialEq, Eq, Structural)]
pub struct TransparencySettings {
    pub enabled: bool,
    /// The alpha value of dimmed windows.
    pub alpha: u8,
    /// Dim monocle containers on monitors that are not focused.
    pub monocle: bool,
    /// Dim floating windows.
    pub floating: bool,
}

#[derive(Clone, Copy, Debug, PartialEq, Eq, Structural)]
pub struct Settings {
    pub default_container_padding: i32,
    pub default_workspace_padding: i32,
    pub border: BorderSettings,
    pub transparency: TransparencySettings,
    pub animations: AnimationSettings,
    /// Hide pinned windows while the focused workspace is empty.
    pub hide_pinned_on_empty_workspaces: bool,
    pub floating_window_toggle_aspect_ratio: AspectRatio,
    pub stackbar: StackbarSettings,
    /// Windows that a rule names lose their title bar.
    pub remove_titlebars: bool,
    /// The first configuration has been loaded.
    pub initial_configuration_loaded: bool,
    /// The window manager was started so that it can let the focus follow the mouse
    /// itself.
    pub custom_ffm: bool,
    /// The window system can colour the borders of windows itself.
    pub has_accents: bool,
}

impl Settings {
    /// The settings before any configuration is loaded.
    pub open spec fn initial() -> Settings {
        let unset = AnimationOverrides { enabled: None, duration_ms: None, style: None };
        Settings {
            default_container_padding: DEFAULT_CONTAINER_PADDING,
            default_workspace_padding: DEFAULT_WORKSPACE_PADDING,
            border: BorderSettings {
                enabled: false,
                width: 8,
                offset: -1i32,
                implementation: BorderImplementation::Komorebi,
                style: BorderStyle::System,
                colours: BorderColours {
                    focused: None,
                    stack: None,
                    monocle: None,
                    unfocused: None,
                    unfocused_locked: None,
                    floating: None,
                    pinned: None,
                },
            },
            transparency: TransparencySettings {
                enabled: false,
                alpha: 200,
                monocle: false,
                floating: false,
            },
            animations: AnimationSettings {
                enabled: false,
                duration_ms: 250,
                style: AnimationStyle { curve: 0 },
                fps: 60,
                movement: unset,
                transparency: unset,
                ghost_movement: false,
            },
            hide_pinned_on_empty_workspaces: false,
            floating_window_toggle_aspect_ratio: AspectRatio::Predefined(
                PredefinedAspectRatio::Widescreen,
            ),
            stackbar: StackbarSettings {
                mode: StackbarMode::Never,
                label: StackbarLabel::Process,
                focused_text_colour: None,
                unfocused_text_colour: None,
                background_colour: None,
                height: 40,
                tab_width: 200,
                font_size: 0,
            },
            remove_titlebars: false,
            initial_configuration_loaded: false,
            custom_ffm: false,
            has_accents: false,
        }
    }
}

impl Default for Settings {
    fn default() -> (r: Self)
        ensures
            r == Settings::initial(),
    {
        let unset = AnimationOverrides { enabled: None, duration_ms: None, style: None };
        Settings {
            default_container_padding: DEFAULT_CONTAINER_PADDING,
            default_workspace_padding: DEFAULT_WORKSPACE_PADDING,
            border: BorderSettings {
                enabled: false,
                width: 8,
                offset: -1,
                implementation: BorderImplementation::Komorebi,
                style: BorderStyle::System,
                colours: BorderColours {
                    focused: None,
                    stack: None,
                    monocle: None,
                    unfocused: None,
                    unfocused_locked: None,
                    floating: None,
                    pinned: None,
                },
            },
            transparency: TransparencySettings {
                enabled: false,
                alpha: 200,
                monocle: false,
                floating: false,
            },
            animations: AnimationSettings {
                enabled: false,
                duration_ms: 250,
                style: AnimationStyle { curve: 0 },
                fps: 60,
                movement: unset,
                transparency: unset,
                ghost_movement: false,
            },
            hide_pinned_on_empty_workspaces: false,
            floating_window_toggle_aspect_ratio: AspectRatio::Predefined(
                PredefinedAspectRatio::Widescreen,
            ),
            stackbar: StackbarSettings {
                mode: StackbarMode::Never,
                label: StackbarLabel::Process,
                focused_text_colour: None,
                unfocused_text_colour: None,
                background_colour: None,
                height: 40,
                tab_width: 200,
                font_size: 0,
            },
            remove_titlebars: false,
            initial_configuration_loaded: false,
            custom_ffm: false,
            has_accents: false,
        }
    }
}

} // verus!
