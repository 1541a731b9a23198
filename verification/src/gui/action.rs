//! What the widgets of the settings window do.

use vstd::prelude::*;

use crate::behaviour::FocusFollowsMouseImplementation;
use crate::change_settings;
use crate::geometry::DefaultLayout;
use crate::geometry::Rect;
use crate::gui::config::AnimationConfig;
use crate::gui::config::BorderColours;
use crate::gui::config::BorderConfig;
use crate::gui::config;
use crate::gui::config::Colour;
use crate::gui::config::FocusConfig;
use crate::gui::config::MonitorConfigView;
use crate::gui::config::StackbarConfig;
use crate::gui::config::TransparencyConfig;
use crate::gui::config::WorkspaceConfig;
use crate::gui::state::GuiView;
use crate::gui::state::KomorebiGui;
use crate::settings::Rgb;
use crate::settings::Settings;
use crate::socket_message::BorderStyle;
use crate::socket_message::SocketMessage;
use crate::socket_message::StackbarLabel;
use crate::socket_message::StackbarMode;
use crate::socket_message::WindowKind;

verus! {

/// What a widget asks for.
#[derive(Debug)]
pub enum Effect {
    Send(SocketMessage),
    /// Wait for a second.
    Wait,
    /// Ask for the state, and show it where there is an answer.
    LoadState,
    /// Ask for the settings, and show them where there is an answer.
    LoadGlobalState,
    /// Take the list of windows anew.
    ListWindows,
    /// Ask how a window fares against the rules, and show it.
    AskForRules(isize),
}

/// The borders whose colour can be picked.
#[derive(Clone, Copy, Debug, PartialEq, Eq, Structural)]
pub enum BorderKind {
    Single,
    Stack,
    Monocle,
    Floating,
    Unfocused,
    UnfocusedLocked,
}

#[derive(Clone, Copy, Debug, PartialEq, Eq, Structural)]
pub enum Side {
    Left,
    Top,
    Right,
    Bottom,
}

/// A use of a focus widget.
#[derive(Clone, Copy, Debug, PartialEq, Eq, Structural)]
pub enum FocusAction {
    MouseFollowsFocus(bool),
    FocusFollowsMouse(bool),
    Implementation(FocusFollowsMouseImplementation),
    AltFocusHack(bool),
}

/// A use of a border widget. A slider gives its value, and whether it was let go.
#[derive(Clone, Copy, Debug, PartialEq, Eq, Structural)]
pub enum BorderAction {
    Enabled(bool),
    Colour(BorderKind, Colour),
    Style(BorderStyle),
    Width(i32, bool),
    Offset(i32, bool),
}

/// A use of a stackbar widget. A slider gives its value, and whether it was let go.
#[derive(Clone, Copy, Debug, PartialEq, Eq, Structural)]
pub enum StackbarAction {
    Mode(StackbarMode),
    Label(StackbarLabel),
    FocusedText(Colour),
    UnfocusedText(Colour),
    Background(Colour),
    Width(i32, bool),
    Height(i32, bool),
    FontSize(i32, bool),
}

/// A use of an animation widget. A slider gives its value, and whether it was let go.
#[derive(Clone, Copy, Debug, PartialEq, Eq, Structural)]
pub enum AnimationAction {
    Enabled(bool),
    Duration(u64, bool),
    Fps(u64, bool),
}

/// A use of a transparency widget. A slider gives its value, and whether it was let go.
#[derive(Clone, Copy, Debug, PartialEq, Eq, Structural)]
pub enum TransparencyAction {
    Enabled(bool),
    Floating(bool),
    Monocle(bool),
    Alpha(u8, bool),
}

#[derive(Clone, Copy, Debug, PartialEq, Eq, Structural)]
pub enum Button {
    ToggleFloat,
    ToggleMonocle,
    ToggleMaximize,
    Close,
    Minimize,
    ForceFocus,
    NewWorkspace,
    CloseWorkspace,
    FocusLast,
}

/// A use of a widget of a workspace. A slider gives its value, and whether it was let go.
/// A text gives what stands in it, and whether it lost the focus.
#[derive(Debug)]
pub enum WorkspaceAction {
    Focus,
    Tiling(bool),
    Name(String, bool),
    Layout(DefaultLayout),
    ContainerPadding(i32, bool),
    WorkspacePadding(i32, bool),
}

/// A use of a widget.
#[derive(Debug)]
pub enum Action {
    LiveUpdates(bool),
    RefreshWindows,
    SelectWindow(isize),
    Focus(FocusAction),
    Border(BorderAction),
    Stackbar(StackbarAction),
    Animation(AnimationAction),
    Transparency(TransparencyAction),
    InvisibleBorder(Side, i32, bool),
    ResizeDelta(i32, bool),
    Press(Button),
    WorkAreaOffset(usize, Side, i32, bool),
    /// The indices of the monitor and the workspace.
    Workspace(usize, usize, WorkspaceAction),
}

/// A message, and nothing else.
pub open spec fn sent(message: SocketMessage) -> Seq<Effect> {
    seq![Effect::Send(message)]
}

/// A message, after which the workspaces are laid out anew.
pub open spec fn sent_and_retiled(message: SocketMessage) -> Seq<Effect> {
    seq![Effect::Send(message), Effect::Send(SocketMessage::Retile)]
}

/// What a slider sends: a message once it is let go, and nothing while it is dragged.
pub open spec fn once(stopped: bool, effects: Seq<Effect>) -> Seq<Effect> {
    if stopped {
        effects
    } else {
        Seq::empty()
    }
}

fn send(message: SocketMessage) -> (r: Vec<Effect>)
    ensures
        r@ == sent(message),
{
    let mut effects: Vec<Effect> = Vec::new();
    effects.push(Effect::Send(message));
    effects
}

fn send_and_retile(message: SocketMessage) -> (r: Vec<Effect>)
    ensures
        r@ == sent_and_retiled(message),
{
    let mut effects: Vec<Effect> = Vec::new();
    effects.push(Effect::Send(message));
    effects.push(Effect::Send(SocketMessage::Retile));
    effects
}

fn send_once(stopped: bool, message: SocketMessage) -> (r: Vec<Effect>)
    ensures
        r@ == once(stopped, sent(message)),
{
    if stopped {
        send(message)
    } else {
        Vec::new()
    }
}

fn send_once_and_retile(stopped: bool, message: SocketMessage) -> (r: Vec<Effect>)
    ensures
        r@ == once(stopped, sent_and_retiled(message)),
{
    if stopped {
        send_and_retile(message)
    } else {
        Vec::new()
    }
}

impl FocusConfig {
    pub open spec fn acted(self, action: FocusAction) -> (FocusConfig, Seq<Effect>) {
        match action {
            FocusAction::MouseFollowsFocus(enabled) => (
                FocusConfig { mouse_follows_focus: enabled, ..self },
                sent(SocketMessage::MouseFollowsFocus(enabled)),
            ),
            FocusAction::FocusFollowsMouse(true) => {
                let implementation = match self.focus_follows_mouse {
                    Some(implementation) => implementation,
                    None => FocusFollowsMouseImplementation::Komorebi,
                };
                (
                    FocusConfig { focus_follows_mouse: Some(implementation), ..self },
                    sent(SocketMessage::FocusFollowsMouse(implementation, true)),
                )
            },
            FocusAction::FocusFollowsMouse(false) => (
                FocusConfig { focus_follows_mouse: None, ..self },
                match self.focus_follows_mouse {
                    Some(implementation) => sent(
                        SocketMessage::FocusFollowsMouse(implementation, false),
                    ),
                    None => Seq::empty(),
                },
            ),
            FocusAction::Implementation(implementation) => (
                FocusConfig { focus_follows_mouse: Some(implementation), ..self },
                sent(SocketMessage::FocusFollowsMouse(implementation, true)),
            ),
            FocusAction::AltFocusHack(enabled) => (
                FocusConfig { alt_focus_hack: enabled, ..self },
                sent(SocketMessage::AltFocusHack(enabled)),
            ),
        }
    }

    pub fn act(&mut self, action: FocusAction) -> (r: Vec<Effect>)
        ensures
            (*final(self), r@) == old(self).acted(action),
    {
        match action {
            FocusAction::MouseFollowsFocus(enabled) => {
                self.mouse_follows_focus = enabled;
                send(SocketMessage::MouseFollowsFocus(enabled))
            },
            FocusAction::FocusFollowsMouse(enabled) => {
                if enabled {
                    let implementation = match self.focus_follows_mouse {
                        Some(implementation) => implementation,
                        None => FocusFollowsMouseImplementation::Komorebi,
                    };
                    self.focus_follows_mouse = Some(implementation);
                    send(SocketMessage::FocusFollowsMouse(implementation, true))
                } else {
                    let effects = match self.focus_follows_mouse {
                        Some(implementation) => send(
                            SocketMessage::FocusFollowsMouse(implementation, false),
                        ),
                        None => Vec::new(),
                    };
                    self.focus_follows_mouse = None;
                    effects
                }
            },
            FocusAction::Implementation(implementation) => {
                self.focus_follows_mouse = Some(implementation);
                send(SocketMessage::FocusFollowsMouse(implementation, true))
            },
            FocusAction::AltFocusHack(enabled) => {
                self.alt_focus_hack = enabled;
                send(SocketMessage::AltFocusHack(enabled))
            },
        }
    }
}

impl BorderKind {
    pub open spec fn windows(self) -> WindowKind {
        match self {
            BorderKind::Single => WindowKind::Single,
            BorderKind::Stack => WindowKind::Stack,
            BorderKind::Monocle => WindowKind::Monocle,
            BorderKind::Floating => WindowKind::Floating,
            BorderKind::Unfocused => WindowKind::Unfocused,
            BorderKind::UnfocusedLocked => WindowKind::UnfocusedLocked,
        }
    }

    /// The windows that have this border.
    pub fn window_kind(&self) -> (r: WindowKind)
        ensures
            r == self.windows(),
    {
        match self {
            BorderKind::Single => WindowKind::Single,
            BorderKind::Stack => WindowKind::Stack,
            BorderKind::Monocle => WindowKind::Monocle,
            BorderKind::Floating => WindowKind::Floating,
            BorderKind::Unfocused => WindowKind::Unfocused,
            BorderKind::UnfocusedLocked => WindowKind::UnfocusedLocked,
        }
    }
}

impl BorderColours {
    pub open spec fn with(self, kind: BorderKind, colour: Colour) -> BorderColours {
        match kind {
            BorderKind::Single => BorderColours { single: colour, ..self },
            BorderKind::Stack => BorderColours { stack: colour, ..self },
            BorderKind::Monocle => BorderColours { monocle: colour, ..self },
            BorderKind::Floating => BorderColours { floating: colour, ..self },
            BorderKind::Unfocused => BorderColours { unfocused: colour, ..self },
            BorderKind::UnfocusedLocked => BorderColours { unfocused_locked: colour, ..self },
        }
    }

    pub fn set(&mut self, kind: BorderKind, colour: Colour)
        ensures
            *final(self) == old(self).with(kind, colour),
    {
        match kind {
            BorderKind::Single => {
                self.single = colour;
            },
            BorderKind::Stack => {
                self.stack = colour;
            },
            BorderKind::Monocle => {
                self.monocle = colour;
            },
            BorderKind::Floating => {
                self.floating = colour;
            },
            BorderKind::Unfocused => {
                self.unfocused = colour;
            },
            BorderKind::UnfocusedLocked => {
                self.unfocused_locked = colour;
            },
        }
    }
}

impl BorderConfig {
    /// A new style needs some time before the workspaces are laid out for it.
    pub open spec fn acted(self, action: BorderAction) -> (BorderConfig, Seq<Effect>) {
        match action {
            BorderAction::Enabled(enabled) => (
                BorderConfig { border_enabled: enabled, ..self },
                sent(SocketMessage::Border(enabled)),
            ),
            BorderAction::Colour(kind, colour) => (
                BorderConfig { border_colours: self.border_colours.with(kind, colour), ..self },
                sent(
                    SocketMessage::BorderColour(
                        kind.windows(),
                        colour.r as u32,
                        colour.g as u32,
                        colour.b as u32,
                    ),
                ),
            ),
            BorderAction::Style(style) => (
                BorderConfig { border_style: style, ..self },
                seq![
                    Effect::Send(SocketMessage::BorderStyle(style)),
                    Effect::Wait,
                    Effect::Send(SocketMessage::Retile),
                ],
            ),
            BorderAction::Width(width, stopped) => (
                BorderConfig { border_width: width, ..self },
                once(stopped, sent(SocketMessage::BorderWidth(width))),
            ),
            BorderAction::Offset(offset, stopped) => (
                BorderConfig { border_offset: offset, ..self },
                once(stopped, sent(SocketMessage::BorderOffset(offset))),
            ),
        }
    }

    pub fn act(&mut self, action: BorderAction) -> (r: Vec<Effect>)
        ensures
            (*final(self), r@) == old(self).acted(action),
    {
        match action {
            BorderAction::Enabled(enabled) => {
                self.border_enabled = enabled;
                send(SocketMessage::Border(enabled))
            },
            BorderAction::Colour(kind, colour) => {
                self.border_colours.set(kind, colour);
                send(
                    SocketMessage::BorderColour(
                        kind.window_kind(),
                        colour.r as u32,
                        colour.g as u32,
                        colour.b as u32,
                    ),
                )
            },
            BorderAction::Style(style) => {
                self.border_style = style;
                let mut effects = send(SocketMessage::BorderStyle(style));
                effects.push(Effect::Wait);
                effects.push(Effect::Send(SocketMessage::Retile));
                effects
            },
            BorderAction::Width(width, stopped) => {
                self.border_width = width;
                send_once(stopped, SocketMessage::BorderWidth(width))
            },
            BorderAction::Offset(offset, stopped) => {
                self.border_offset = offset;
                send_once(stopped, SocketMessage::BorderOffset(offset))
            },
        }
    }
}

impl StackbarConfig {
    pub open spec fn acted(self, action: StackbarAction) -> (StackbarConfig, Seq<Effect>) {
        match action {
            StackbarAction::Mode(mode) => (
                StackbarConfig { mode, ..self },
                sent_and_retiled(SocketMessage::StackbarMode(mode)),
            ),
            StackbarAction::Label(label) => (
                StackbarConfig { label, ..self },
                sent(SocketMessage::StackbarLabel(label)),
            ),
            StackbarAction::FocusedText(colour) => (
                StackbarConfig { focused_text_colour: colour, ..self },
                sent(
                    SocketMessage::StackbarFocusedTextColour(
                        colour.r as u32,
                        colour.g as u32,
                        colour.b as u32,
                    ),
                ),
            ),
            StackbarAction::UnfocusedText(colour) => (
                StackbarConfig { unfocused_text_colour: colour, ..self },
                sent(
                    SocketMessage::StackbarUnfocusedTextColour(
                        colour.r as u32,
                        colour.g as u32,
                        colour.b as u32,
                    ),
                ),
            ),
            StackbarAction::Background(colour) => (
                StackbarConfig { background_colour: colour, ..self },
                sent(
                    SocketMessage::StackbarBackgroundColour(
                        colour.r as u32,
                        colour.g as u32,
                        colour.b as u32,
                    ),
                ),
            ),
            StackbarAction::Width(width, stopped) => (
                StackbarConfig { width, ..self },
                once(stopped, sent_and_retiled(SocketMessage::StackbarTabWidth(width))),
            ),
            StackbarAction::Height(height, stopped) => (
                StackbarConfig { height, ..self },
                once(stopped, sent_and_retiled(SocketMessage::StackbarHeight(height))),
            ),
            StackbarAction::FontSize(font_size, stopped) => (
                StackbarConfig { font_size, ..self },
                once(stopped, sent(SocketMessage::StackbarFontSize(font_size))),
            ),
        }
    }

    pub fn act(&mut self, action: StackbarAction) -> (r: Vec<Effect>)
        ensures
            (*final(self), r@) == old(self).acted(action),
    {
        match action {
            StackbarAction::Mode(mode) => {
                self.mode = mode;
                send_and_retile(SocketMessage::StackbarMode(mode))
            },
            StackbarAction::Label(label) => {
                self.label = label;
                send(SocketMessage::StackbarLabel(label))
            },
            StackbarAction::FocusedText(colour) => {
                self.focused_text_colour = colour;
                send(
                    SocketMessage::StackbarFocusedTextColour(
                        colour.r as u32,
                        colour.g as u32,
                        colour.b as u32,
                    ),
                )
            },
            StackbarAction::UnfocusedText(colour) => {
                self.unfocused_text_colour = colour;
                send(
                    SocketMessage::StackbarUnfocusedTextColour(
                        colour.r as u32,
                        colour.g as u32,
                        colour.b as u32,
                    ),
                )
            },
            StackbarAction::Background(colour) => {
                self.background_colour = colour;
                send(
                    SocketMessage::StackbarBackgroundColour(
                        colour.r as u32,
                        colour.g as u32,
                        colour.b as u32,
                    ),
                )
            },
            StackbarAction::Width(width, stopped) => {
                self.width = width;
                send_once_and_retile(stopped, SocketMessage::StackbarTabWidth(width))
            },
            StackbarAction::Height(height, stopped) => {
                self.height = height;
                send_once_and_retile(stopped, SocketMessage::StackbarHeight(height))
            },
            StackbarAction::FontSize(font_size, stopped) => {
                self.font_size = font_size;
                send_once(stopped, SocketMessage::StackbarFontSize(font_size))
            },
        }
    }
}

impl AnimationConfig {
    pub open spec fn acted(self, action: AnimationAction) -> (AnimationConfig, Seq<Effect>) {
        match action {
            AnimationAction::Enabled(enabled) => (
                AnimationConfig { enabled, ..self },
                sent(SocketMessage::Animation(enabled, None)),
            ),
            AnimationAction::Duration(duration, stopped) => (
                AnimationConfig { duration, ..self },
                once(stopped, sent(SocketMessage::AnimationDuration(duration, None))),
            ),
            AnimationAction::Fps(fps, stopped) => (
                AnimationConfig { fps, ..self },
                once(stopped, sent(SocketMessage::AnimationFps(fps))),
            ),
        }
    }

    pub fn act(&mut self, action: AnimationAction) -> (r: Vec<Effect>)
        ensures
            (*final(self), r@) == old(self).acted(action),
    {
        match action {
            AnimationAction::Enabled(enabled) => {
                self.enabled = enabled;
                send(SocketMessage::Animation(enabled, None))
            },
            AnimationAction::Duration(duration, stopped) => {
                self.duration = duration;
                send_once(stopped, SocketMessage::AnimationDuration(duration, None))
            },
            AnimationAction::Fps(fps, stopped) => {
                self.fps = fps;
                send_once(stopped, SocketMessage::AnimationFps(fps))
            },
        }
    }
}

impl TransparencyConfig {
    pub open spec fn acted(self, action: TransparencyAction) -> (
        TransparencyConfig,
        Seq<Effect>,
    ) {
        match action {
            TransparencyAction::Enabled(enabled) => (
                TransparencyConfig { enabled, ..self },
                sent(SocketMessage::Transparency(enabled)),
            ),
            TransparencyAction::Floating(floating) => (
                TransparencyConfig { floating, ..self },
                sent(SocketMessage::TransparencyFloating(floating)),
            ),
            TransparencyAction::Monocle(monocle) => (
                TransparencyConfig { monocle, ..self },
                sent(SocketMessage::TransparencyMonocle(monocle)),
            ),
            TransparencyAction::Alpha(alpha, stopped) => (
                TransparencyConfig { alpha, ..self },
                once(stopped, sent(SocketMessage::TransparencyAlpha(alpha))),
            ),
        }
    }

    pub fn act(&mut self, action: TransparencyAction) -> (r: Vec<Effect>)
        ensures
            (*final(self), r@) == old(self).acted(action),
    {
        match action {
            TransparencyAction::Enabled(enabled) => {
                self.enabled = enabled;
                send(SocketMessage::Transparency(enabled))
            },
            TransparencyAction::Floating(floating) => {
                self.floating = floating;
                send(SocketMessage::TransparencyFloating(floating))
            },
            TransparencyAction::Monocle(monocle) => {
                self.monocle = monocle;
                send(SocketMessage::TransparencyMonocle(monocle))
            },
            TransparencyAction::Alpha(alpha, stopped) => {
                self.alpha = alpha;
                send_once(stopped, SocketMessage::TransparencyAlpha(alpha))
            },
        }
    }
}

/// A rectangle with another value on one side.
pub open spec fn with_side(rect: Rect, side: Side, value: i32) -> Rect {
    match side {
        Side::Left => Rect { left: value, ..rect },
        Side::Top => Rect { top: value, ..rect },
        Side::Right => Rect { right: value, ..rect },
        Side::Bottom => Rect { bottom: value, ..rect },
    }
}

fn set_side(rect: Rect, side: Side, value: i32) -> (r: Rect)
    ensures
        r == with_side(rect, side, value),
{
    match side {
        Side::Left => Rect { left: value, ..rect },
        Side::Top => Rect { top: value, ..rect },
        Side::Right => Rect { right: value, ..rect },
        Side::Bottom => Rect { bottom: value, ..rect },
    }
}

impl Button {
    pub open spec fn sends(self) -> SocketMessage {
        match self {
            Button::ToggleFloat => SocketMessage::ToggleFloat,
            Button::ToggleMonocle => SocketMessage::ToggleMonocle,
            Button::ToggleMaximize => SocketMessage::ToggleMaximize,
            Button::Close => SocketMessage::Close,
            Button::Minimize => SocketMessage::Minimize,
            Button::ForceFocus => SocketMessage::ForceFocus,
            Button::NewWorkspace => SocketMessage::NewWorkspace,
            Button::CloseWorkspace => SocketMessage::CloseWorkspace,
            Button::FocusLast => SocketMessage::FocusLastWorkspace,
        }
    }

    /// What the button sends.
    pub fn message(&self) -> (r: SocketMessage)
        ensures
            r == self.sends(),
    {
        match self {
            Button::ToggleFloat => SocketMessage::ToggleFloat,
            Button::ToggleMonocle => SocketMessage::ToggleMonocle,
            Button::ToggleMaximize => SocketMessage::ToggleMaximize,
            Button::Close => SocketMessage::Close,
            Button::Minimize => SocketMessage::Minimize,
            Button::ForceFocus => SocketMessage::ForceFocus,
            Button::NewWorkspace => SocketMessage::NewWorkspace,
            Button::CloseWorkspace => SocketMessage::CloseWorkspace,
            Button::FocusLast => SocketMessage::FocusLastWorkspace,
        }
    }
}

impl WorkspaceConfig {
    /// What is shown of the workspace at these indices once a widget of it was used. An
    /// edited name is taken over once the text loses the focus.
    pub open spec fn changed(self, action: WorkspaceAction) -> WorkspaceConfig {
        match action {
            WorkspaceAction::Focus => self,
            WorkspaceAction::Tiling(tile) => WorkspaceConfig { tile, ..self },
            WorkspaceAction::Name(text, lost_focus) => if lost_focus {
                WorkspaceConfig { name: text, ..self }
            } else {
                self
            },
            WorkspaceAction::Layout(layout) => WorkspaceConfig { layout, ..self },
            WorkspaceAction::ContainerPadding(padding, _) => WorkspaceConfig {
                container_padding: padding,
                ..self
            },
            WorkspaceAction::WorkspacePadding(padding, _) => WorkspaceConfig {
                workspace_padding: padding,
                ..self
            },
        }
    }

    pub fn change(&mut self, action: &WorkspaceAction)
        ensures
            *final(self) == old(self).changed(*action),
    {
        match action {
            WorkspaceAction::Focus => {},
            WorkspaceAction::Tiling(tile) => {
                self.tile = *tile;
            },
            WorkspaceAction::Name(text, lost_focus) => {
                if *lost_focus {
                    self.name = text.clone();
                }
            },
            WorkspaceAction::Layout(layout) => {
                self.layout = *layout;
            },
            WorkspaceAction::ContainerPadding(padding, _) => {
                self.container_padding = *padding;
            },
            WorkspaceAction::WorkspacePadding(padding, _) => {
                self.workspace_padding = *padding;
            },
        }
    }
}

/// What a widget of a workspace sends. The cursor does not follow the focus that the
/// settings window moves.
pub open spec fn workspace_effects(
    monitor: usize,
    workspace: usize,
    action: WorkspaceAction,
    mouse_follows_focus: bool,
) -> Seq<Effect> {
    match action {
        WorkspaceAction::Focus => seq![
            Effect::Send(SocketMessage::MouseFollowsFocus(false)),
            Effect::Send(SocketMessage::FocusMonitorWorkspaceNumber(monitor, workspace)),
            Effect::Send(SocketMessage::MouseFollowsFocus(mouse_follows_focus)),
        ],
        WorkspaceAction::Tiling(tile) => sent(
            SocketMessage::WorkspaceTiling(monitor, workspace, tile),
        ),
        WorkspaceAction::Name(text, lost_focus) => once(
            lost_focus,
            sent(SocketMessage::WorkspaceName(monitor, workspace, text)),
        ),
        WorkspaceAction::Layout(layout) => sent(
            SocketMessage::WorkspaceLayout(monitor, workspace, layout),
        ),
        WorkspaceAction::ContainerPadding(padding, stopped) => once(
            stopped,
            sent(SocketMessage::ContainerPadding(monitor, workspace, padding)),
        ),
        WorkspaceAction::WorkspacePadding(padding, stopped) => once(
            stopped,
            sent(SocketMessage::WorkspacePadding(monitor, workspace, padding)),
        ),
    }
}

fn send_for_workspace(
    monitor: usize,
    workspace: usize,
    action: WorkspaceAction,
    mouse_follows_focus: bool,
) -> (r: Vec<Effect>)
    ensures
        r@ == workspace_effects(monitor, workspace, action, mouse_follows_focus),
{
    match action {
        WorkspaceAction::Focus => {
            let mut effects = send(SocketMessage::MouseFollowsFocus(false));
            effects.push(
                Effect::Send(SocketMessage::FocusMonitorWorkspaceNumber(monitor, workspace)),
            );
            effects.push(Effect::Send(SocketMessage::MouseFollowsFocus(mouse_follows_focus)));
            effects
        },
        WorkspaceAction::Tiling(tile) => send(
            SocketMessage::WorkspaceTiling(monitor, workspace, tile),
        ),
        WorkspaceAction::Name(text, lost_focus) => send_once(
            lost_focus,
            SocketMessage::WorkspaceName(monitor, workspace, text),
        ),
        WorkspaceAction::Layout(layout) => send(
            SocketMessage::WorkspaceLayout(monitor, workspace, layout),
        ),
        WorkspaceAction::ContainerPadding(padding, stopped) => send_once(
            stopped,
            SocketMessage::ContainerPadding(monitor, workspace, padding),
        ),
        WorkspaceAction::WorkspacePadding(padding, stopped) => send_once(
            stopped,
            SocketMessage::WorkspacePadding(monitor, workspace, padding),
        ),
    }
}

impl GuiView {
    /// Whether the widget is there to be used.
    pub open spec fn has(self, action: Action) -> bool {
        match action {
            Action::WorkAreaOffset(m, ..) => m < self.monitors.len(),
            Action::Workspace(m, w, _) => m < self.monitors.len() && w
                < self.monitors[m as int].workspaces.len(),
            _ => true,
        }
    }

    /// The window with another offset of a monitor's work area.
    pub open spec fn with_offset(self, m: int, offset: Rect) -> GuiView {
        GuiView {
            monitors: self.monitors.update(
                m,
                MonitorConfigView { work_area_offset: offset, ..self.monitors[m] },
            ),
            ..self
        }
    }

    /// The window once a widget of a workspace was used. The edited name stands in the
    /// text whether it was taken over or not.
    pub open spec fn with_workspace(self, m: int, w: int, action: WorkspaceAction) -> GuiView {
        let monitor = self.monitors[m];
        GuiView {
            monitors: self.monitors.update(
                m,
                monitor.with_workspace(w, monitor.workspaces[w].changed(action)),
            ),
            workspace_names: match action {
                WorkspaceAction::Name(text, _) => self.workspace_names.insert(
                    m as usize,
                    self.workspace_names[m as usize].update(w, text),
                ),
                _ => self.workspace_names,
            },
            ..self
        }
    }

    /// The window once a widget was used, and what the widget asks for.
    pub open spec fn acted(self, action: Action) -> (GuiView, Seq<Effect>) {
        match action {
            Action::LiveUpdates(enabled) => (
                GuiView { live_updates: enabled, ..self },
                if enabled {
                    seq![Effect::LoadState, Effect::LoadGlobalState, Effect::ListWindows]
                } else {
                    Seq::empty()
                },
            ),
            Action::RefreshWindows => (self, seq![Effect::ListWindows]),
            Action::SelectWindow(hwnd) => (
                GuiView { debug_hwnd: hwnd, ..self },
                seq![Effect::AskForRules(hwnd)],
            ),
            Action::Focus(action) => {
                let (focus_config, effects) = self.focus_config.acted(action);
                (GuiView { focus_config, ..self }, effects)
            },
            Action::Border(action) => {
                let (border_config, effects) = self.border_config.acted(action);
                (GuiView { border_config, ..self }, effects)
            },
            Action::Stackbar(action) => {
                let (stackbar_config, effects) = self.stackbar_config.acted(action);
                (GuiView { stackbar_config, ..self }, effects)
            },
            Action::Animation(action) => {
                let (animation_config, effects) = self.animation_config.acted(action);
                (GuiView { animation_config, ..self }, effects)
            },
            Action::Transparency(action) => {
                let (transparency_config, effects) = self.transparency_config.acted(action);
                (GuiView { transparency_config, ..self }, effects)
            },
            Action::InvisibleBorder(side, value, stopped) => {
                let borders = with_side(self.invisible_borders, side, value);
                (
                    GuiView { invisible_borders: borders, ..self },
                    once(stopped, sent(SocketMessage::InvisibleBorders(borders))),
                )
            },
            Action::ResizeDelta(delta, stopped) => (
                GuiView { resize_delta: delta, ..self },
                once(stopped, sent(SocketMessage::ResizeDelta(delta))),
            ),
            Action::Press(button) => (self, sent(button.sends())),
            Action::WorkAreaOffset(m, side, value, stopped) => {
                let offset = with_side(self.monitors[m as int].work_area_offset, side, value);
                (
                    self.with_offset(m as int, offset),
                    once(stopped, sent(SocketMessage::MonitorWorkAreaOffset(m, offset))),
                )
            },
            Action::Workspace(m, w, action) => (
                self.with_workspace(m as int, w as int, action),
                workspace_effects(m, w, action, self.focus_config.mouse_follows_focus),
            ),
        }
    }
}

/// Whatever widget is used, each workspace that is shown has a name that can be edited.
proof fn widgets_keep_the_names(gui: GuiView, action: Action)
    requires
        gui.wf(),
        gui.has(action),
    ensures
        gui.acted(action).0.wf(),
{
    let after = gui.acted(action).0;
    assert forall|m: usize|
        m < after.monitors.len() && after.monitors[m as int].workspaces.len()
            > 0 implies #[trigger] after.workspace_names.contains_key(m)
        && after.workspace_names[m].len() == after.monitors[m as int].workspaces.len() by {
        assert(gui.monitors[m as int].workspaces.len() == after.monitors[m as int].workspaces.len());
        assert(gui.workspace_names.contains_key(m));
    }
}

impl KomorebiGui {
    fn set_offset(&mut self, m: usize, offset: Rect)
        requires
            old(self).wf(),
            m < old(self)@.monitors.len(),
        ensures
            final(self).wf(),
            final(self)@ == old(self)@.with_offset(m as int, offset),
    {
        self.monitors[m].work_area_offset = offset;
        assert(self@ =~= old(self)@.with_offset(m as int, offset));
    }

    fn change_workspace(&mut self, m: usize, w: usize, action: &WorkspaceAction)
        requires
            old(self).wf(),
            m < old(self)@.monitors.len(),
            w < old(self)@.monitors[m as int].workspaces.len(),
        ensures
            final(self).wf(),
            final(self)@ == old(self)@.with_workspace(m as int, w as int, *action),
    {
        broadcast use vstd::std_specs::hash::group_hash_axioms;

        assert(self@.workspace_names.contains_key(m));
        self.monitors[m].workspaces[w].change(action);
        match action {
            WorkspaceAction::Name(text, _) => {
                match self.workspace_names.remove(&m) {
                    Some(mut names) => {
                        names[w] = text.clone();
                        let _ = self.workspace_names.insert(m, names);
                    },
                    None => {},
                }
            },
            _ => {},
        }
        assert(self@.monitors =~= old(self)@.with_workspace(m as int, w as int, *action).monitors);
        assert(self@ =~= old(self)@.with_workspace(m as int, w as int, *action));
    }

    /// Use a widget. What it asks for is to be done in order.
    pub fn perform(&mut self, action: Action) -> (r: Vec<Effect>)
        requires
            old(self).wf(),
            old(self)@.has(action),
        ensures
            final(self).wf(),
            (final(self)@, r@) == old(self)@.acted(action),
    {
        proof {
            widgets_keep_the_names(self@, action);
        }
        match action {
            Action::LiveUpdates(enabled) => {
                self.live_updates = enabled;
                let mut effects: Vec<Effect> = Vec::new();
                if enabled {
                    effects.push(Effect::LoadState);
                    effects.push(Effect::LoadGlobalState);
                    effects.push(Effect::ListWindows);
                }
                effects
            },
            Action::RefreshWindows => {
                let mut effects: Vec<Effect> = Vec::new();
                effects.push(Effect::ListWindows);
                effects
            },
            Action::SelectWindow(hwnd) => {
                self.debug_hwnd = hwnd;
                let mut effects: Vec<Effect> = Vec::new();
                effects.push(Effect::AskForRules(hwnd));
                effects
            },
            Action::Focus(action) => self.focus_config.act(action),
            Action::Border(action) => self.border_config.act(action),
            Action::Stackbar(action) => self.stackbar_config.act(action),
            Action::Animation(action) => self.animation_config.act(action),
            Action::Transparency(action) => self.transparency_config.act(action),
            Action::InvisibleBorder(side, value, stopped) => {
                let borders = set_side(self.invisible_borders, side, value);
                self.invisible_borders = borders;
                send_once(stopped, SocketMessage::InvisibleBorders(borders))
            },
            Action::ResizeDelta(delta, stopped) => {
                self.resize_delta = delta;
                send_once(stopped, SocketMessage::ResizeDelta(delta))
            },
            Action::Press(button) => send(button.message()),
            Action::WorkAreaOffset(m, side, value, stopped) => {
                let offset = set_side(self.monitors[m].work_area_offset, side, value);
                self.set_offset(m, offset);
                send_once(stopped, SocketMessage::MonitorWorkAreaOffset(m, offset))
            },
            Action::Workspace(m, w, action) => {
                self.change_workspace(m, w, &action);
                send_for_workspace(m, w, action, self.focus_config.mouse_follows_focus)
            },
        }
    }
}

/// Whether a slider is being dragged.
pub open spec fn is_dragging(action: Action) -> bool {
    match action {
        Action::Border(BorderAction::Width(_, stopped)) => !stopped,
        Action::Border(BorderAction::Offset(_, stopped)) => !stopped,
        Action::Stackbar(StackbarAction::Width(_, stopped)) => !stopped,
        Action::Stackbar(StackbarAction::Height(_, stopped)) => !stopped,
        Action::Stackbar(StackbarAction::FontSize(_, stopped)) => !stopped,
        Action::Animation(AnimationAction::Duration(_, stopped)) => !stopped,
        Action::Animation(AnimationAction::Fps(_, stopped)) => !stopped,
        Action::Transparency(TransparencyAction::Alpha(_, stopped)) => !stopped,
        Action::InvisibleBorder(_, _, stopped) => !stopped,
        Action::ResizeDelta(_, stopped) => !stopped,
        Action::WorkAreaOffset(_, _, _, stopped) => !stopped,
        Action::Workspace(_, _, WorkspaceAction::ContainerPadding(_, stopped)) => !stopped,
        Action::Workspace(_, _, WorkspaceAction::WorkspacePadding(_, stopped)) => !stopped,
        _ => false,
    }
}

/// Sliders send nothing while they are dragged.
pub proof fn dragging_sends_nothing(gui: GuiView, action: Action)
    requires
        is_dragging(action),
    ensures
        gui.acted(action).1 == Seq::<Effect>::empty(),
{
}

/// Focusing a workspace from the settings window leaves the setting for the cursor as it
/// is: it is switched off before, and set to what it was after.
pub proof fn focusing_keeps_the_mouse_setting(gui: GuiView, m: usize, w: usize)
    requires
        gui.has(Action::Workspace(m, w, WorkspaceAction::Focus)),
    ensures
        gui.acted(Action::Workspace(m, w, WorkspaceAction::Focus)).0 == gui,
        gui.acted(Action::Workspace(m, w, WorkspaceAction::Focus)).1.first() == Effect::Send(
            SocketMessage::MouseFollowsFocus(false),
        ),
        gui.acted(Action::Workspace(m, w, WorkspaceAction::Focus)).1.last() == Effect::Send(
            SocketMessage::MouseFollowsFocus(gui.focus_config.mouse_follows_focus),
        ),
{
    let monitor = gui.monitors[m as int];
    assert(monitor.with_workspace(w as int, monitor.workspaces[w as int]) =~= monitor);
    assert(gui.monitors.update(m as int, monitor) =~= gui.monitors);
}

/// A name that is being edited is kept apart from the name of the workspace until the
/// text loses the focus.
pub proof fn names_are_taken_over_once(gui: GuiView, m: usize, w: usize, text: String)
    requires
        gui.wf(),
        gui.has(Action::Workspace(m, w, WorkspaceAction::Focus)),
    ensures
        ({
            let (edited, effects) = gui.acted(
                Action::Workspace(m, w, WorkspaceAction::Name(text, false)),
            );
            &&& edited.monitors == gui.monitors
            &&& edited.workspace_names[m][w as int] == text
            &&& effects.len() == 0
        }),
        ({
            let (renamed, effects) = gui.acted(
                Action::Workspace(m, w, WorkspaceAction::Name(text, true)),
            );
            &&& renamed.monitors[m as int].workspaces[w as int].name == text
            &&& renamed.workspace_names[m][w as int] == text
            &&& effects == sent(SocketMessage::WorkspaceName(m, w, text))
        }),
{
    let monitor = gui.monitors[m as int];
    assert(gui.workspace_names.contains_key(m));
    assert(monitor.with_workspace(w as int, monitor.workspaces[w as int]) =~= monitor);
    assert(gui.monitors.update(m as int, monitor) =~= gui.monitors);
}

/// A picked colour is shown as it was picked.
proof fn picked_colours_are_shown(colour: Colour)
    ensures
        config::shown_colour(
            Some(Rgb { r: colour.r as u32, g: colour.g as u32, b: colour.b as u32 }),
        ) == colour,
{
}

/// What a border widget shows is what the settings hold once its message has been carried
/// out.
#[verifier::spinoff_prover]
#[verifier::rlimit(60)]
pub proof fn border_widgets_take_effect(settings: Settings, action: BorderAction)
    requires
        !is_dragging(Action::Border(action)),
    ensures
        ({
            let (shown, effects) = BorderConfig::of(Some(settings)).acted(action);
            &&& effects[0] is Send
            &&& change_settings::adjustment(settings, effects[0]->Send_0) matches Some(adjusted)
                && BorderConfig::of(Some(adjusted.settings)) == shown
        }),
{
    let (shown, effects) = BorderConfig::of(Some(settings)).acted(action);
    let message = effects[0]->Send_0;
    match action {
        BorderAction::Colour(kind, colour) => {
            picked_colours_are_shown(colour);
            let rgb = Rgb { r: colour.r as u32, g: colour.g as u32, b: colour.b as u32 };
            assert(effects =~= sent(message));
            assert(message == SocketMessage::BorderColour(kind.windows(), rgb.r, rgb.g, rgb.b));
            assert(change_settings::adjustment(settings, message) is Some) by {
                reveal(change_settings::adjustment);
            }
            let adjusted = change_settings::adjustment(settings, message)->0;
            assert(Some(adjusted.settings.border) == change_settings::changed_border(
                settings.border,
                message,
            )) by {
                reveal(change_settings::adjustment);
            }
            match kind {
                BorderKind::Single => {},
                BorderKind::Stack => {},
                BorderKind::Monocle => {},
                BorderKind::Floating => {},
                BorderKind::Unfocused => {},
                BorderKind::UnfocusedLocked => {},
            }
        },
        _ => {
            reveal(change_settings::adjustment);
        },
    }
}

/// What a transparency widget shows is what the settings hold once its message has been
/// carried out.
pub proof fn transparency_widgets_take_effect(settings: Settings, action: TransparencyAction)
    requires
        !is_dragging(Action::Transparency(action)),
    ensures
        ({
            let (shown, effects) = TransparencyConfig::of(Some(settings)).acted(action);
            &&& effects[0] is Send
            &&& change_settings::adjustment(settings, effects[0]->Send_0) matches Some(adjusted)
                && TransparencyConfig::of(Some(adjusted.settings)) == shown
        }),
{
    reveal(change_settings::adjustment);
}

/// What a stackbar widget shows is what the settings hold once its message has been
/// carried out. The size of the font is not read back from the settings.
#[verifier::spinoff_prover]
#[verifier::rlimit(60)]
pub proof fn stackbar_widgets_take_effect(settings: Settings, action: StackbarAction)
    requires
        !is_dragging(Action::Stackbar(action)),
    ensures
        ({
            let (shown, effects) = StackbarConfig::of(Some(settings)).acted(action);
            &&& effects[0] is Send
            &&& change_settings::adjustment(settings, effects[0]->Send_0) matches Some(adjusted)
                && StackbarConfig::of(Some(adjusted.settings)) == (StackbarConfig {
                font_size: 0,
                ..shown
            })
        }),
{
    let (shown, effects) = StackbarConfig::of(Some(settings)).acted(action);
    let message = effects[0]->Send_0;
    match action {
        StackbarAction::FocusedText(colour)
        | StackbarAction::UnfocusedText(colour)
        | StackbarAction::Background(colour) => {
            picked_colours_are_shown(colour);
            assert(effects =~= sent(message));
            assert(Some(
                change_settings::adjustment(settings, message)->0.settings.stackbar,
            ) == change_settings::changed_stackbar(settings.stackbar, message)
                && change_settings::adjustment(settings, message) is Some) by {
                reveal(change_settings::adjustment);
            }
        },
        _ => {
            reveal(change_settings::adjustment);
        },
    }
}

} // verus!
