//! What the widgets of the settings window show and send.

use vstd::prelude::*;

use crate::behaviour::FocusFollowsMouseImplementation;
use crate::geometry::DefaultLayout;
use crate::gui::action;
use crate::gui::action::AnimationAction;
use crate::gui::action::BorderAction;
use crate::gui::action::Button;
use crate::gui::action::Effect;
use crate::gui::action::FocusAction;
use crate::gui::action::StackbarAction;
use crate::gui::action::TransparencyAction;
use crate::gui::action::WorkspaceAction;
use crate::gui::config::AnimationConfig;
use crate::gui::config::BorderConfig;
use crate::gui::config::FocusConfig;
use crate::gui::config::StackbarConfig;
use crate::gui::config::TransparencyConfig;
use crate::socket_message::SocketMessage;

verus! {

/// A slider shows the value to which it is dragged, and sends it once it is let go. A switch is
/// shown as it is set, and sent at once.
pub proof fn border_widgets_show_and_send(
    config: BorderConfig,
    enabled: bool,
    value: i32,
    stopped: bool,
)
    ensures
        config.acted(BorderAction::Enabled(enabled)) == (
            BorderConfig { border_enabled: enabled, ..config },
            seq![Effect::Send(SocketMessage::Border(enabled))],
        ),
        config.acted(BorderAction::Width(value, stopped)) == (
            BorderConfig { border_width: value, ..config },
            if stopped {
                seq![Effect::Send(SocketMessage::BorderWidth(value))]
            } else {
                Seq::empty()
            },
        ),
        config.acted(BorderAction::Offset(value, stopped)) == (
            BorderConfig { border_offset: value, ..config },
            if stopped {
                seq![Effect::Send(SocketMessage::BorderOffset(value))]
            } else {
                Seq::empty()
            },
        ),
{
}

/// The widgets of the stackbars show and send what they are set to, and have the workspaces laid
/// out anew where the size of the stackbars changes.
pub proof fn stackbar_widgets_show_and_send(config: StackbarConfig, value: i32)
    ensures
        config.acted(StackbarAction::Width(value, true)) == (
            StackbarConfig { width: value, ..config },
            seq![
                Effect::Send(SocketMessage::StackbarTabWidth(value)),
                Effect::Send(SocketMessage::Retile),
            ],
        ),
        config.acted(StackbarAction::Height(value, true)) == (
            StackbarConfig { height: value, ..config },
            seq![
                Effect::Send(SocketMessage::StackbarHeight(value)),
                Effect::Send(SocketMessage::Retile),
            ],
        ),
        config.acted(StackbarAction::FontSize(value, true)) == (
            StackbarConfig { font_size: value, ..config },
            seq![Effect::Send(SocketMessage::StackbarFontSize(value))],
        ),
        config.acted(StackbarAction::Width(value, false)) == (
            StackbarConfig { width: value, ..config },
            Seq::<Effect>::empty(),
        ),
        config.acted(StackbarAction::Height(value, false)) == (
            StackbarConfig { height: value, ..config },
            Seq::<Effect>::empty(),
        ),
        config.acted(StackbarAction::FontSize(value, false)) == (
            StackbarConfig { font_size: value, ..config },
            Seq::<Effect>::empty(),
        ),
{
}

/// The widgets of the animations and of the dimming show and send what they are set to.
pub proof fn other_widgets_show_and_send(
    animation: AnimationConfig,
    dimming: TransparencyConfig,
    enabled: bool,
    duration: u64,
    alpha: u8,
)
    ensures
        animation.acted(AnimationAction::Enabled(enabled)) == (
            AnimationConfig { enabled, ..animation },
            seq![Effect::Send(SocketMessage::Animation(enabled, None))],
        ),
        animation.acted(AnimationAction::Duration(duration, true)) == (
            AnimationConfig { duration, ..animation },
            seq![Effect::Send(SocketMessage::AnimationDuration(duration, None))],
        ),
        animation.acted(AnimationAction::Fps(duration, true)) == (
            AnimationConfig { fps: duration, ..animation },
            seq![Effect::Send(SocketMessage::AnimationFps(duration))],
        ),
        dimming.acted(TransparencyAction::Enabled(enabled)) == (
            TransparencyConfig { enabled, ..dimming },
            seq![Effect::Send(SocketMessage::Transparency(enabled))],
        ),
        dimming.acted(TransparencyAction::Floating(enabled)) == (
            TransparencyConfig { floating: enabled, ..dimming },
            seq![Effect::Send(SocketMessage::TransparencyFloating(enabled))],
        ),
        dimming.acted(TransparencyAction::Monocle(enabled)) == (
            TransparencyConfig { monocle: enabled, ..dimming },
            seq![Effect::Send(SocketMessage::TransparencyMonocle(enabled))],
        ),
        dimming.acted(TransparencyAction::Alpha(alpha, true)) == (
            TransparencyConfig { alpha, ..dimming },
            seq![Effect::Send(SocketMessage::TransparencyAlpha(alpha))],
        ),
{
}

/// The widgets of the focus show and send what they are set to. Switching off sends who let the
/// focus follow the mouse before.
pub proof fn focus_widgets_show_and_send(
    config: FocusConfig,
    enabled: bool,
    implementation: FocusFollowsMouseImplementation,
)
    ensures
        config.acted(FocusAction::MouseFollowsFocus(enabled)) == (
            FocusConfig { mouse_follows_focus: enabled, ..config },
            seq![Effect::Send(SocketMessage::MouseFollowsFocus(enabled))],
        ),
        config.acted(FocusAction::Implementation(implementation)) == (
            FocusConfig { focus_follows_mouse: Some(implementation), ..config },
            seq![Effect::Send(SocketMessage::FocusFollowsMouse(implementation, true))],
        ),
        config.focus_follows_mouse == Some(implementation) ==> config.acted(
            FocusAction::FocusFollowsMouse(false),
        ) == (
            FocusConfig { focus_follows_mouse: None, ..config },
            seq![Effect::Send(SocketMessage::FocusFollowsMouse(implementation, false))],
        ),
        config.focus_follows_mouse == Some(implementation) ==> config.acted(
            FocusAction::FocusFollowsMouse(true),
        ) == (
            config,
            seq![Effect::Send(SocketMessage::FocusFollowsMouse(implementation, true))],
        ),
{
}

/// The widgets of a workspace send their value for that workspace, once they are let go, and a
/// button sends the command that it is named after.
pub proof fn workspace_widgets_send_their_place(
    m: usize,
    w: usize,
    tile: bool,
    layout: DefaultLayout,
    padding: i32,
    text: String,
    follows: bool,
)
    ensures
        action::workspace_effects(m, w, WorkspaceAction::Tiling(tile), follows) == seq![
            Effect::Send(SocketMessage::WorkspaceTiling(m, w, tile)),
        ],
        action::workspace_effects(m, w, WorkspaceAction::Layout(layout), follows) == seq![
            Effect::Send(SocketMessage::WorkspaceLayout(m, w, layout)),
        ],
        action::workspace_effects(m, w, WorkspaceAction::Name(text, true), follows) == seq![
            Effect::Send(SocketMessage::WorkspaceName(m, w, text)),
        ],
        action::workspace_effects(
            m,
            w,
            WorkspaceAction::ContainerPadding(padding, true),
            follows,
        ) == seq![Effect::Send(SocketMessage::ContainerPadding(m, w, padding))],
        action::workspace_effects(
            m,
            w,
            WorkspaceAction::WorkspacePadding(padding, true),
            follows,
        ) == seq![Effect::Send(SocketMessage::WorkspacePadding(m, w, padding))],
        action::workspace_effects(m, w, WorkspaceAction::Name(text, false), follows).len() == 0,
        Button::ToggleFloat.sends() == SocketMessage::ToggleFloat,
        Button::ToggleMonocle.sends() == SocketMessage::ToggleMonocle,
        Button::ToggleMaximize.sends() == SocketMessage::ToggleMaximize,
        Button::Close.sends() == SocketMessage::Close,
        Button::Minimize.sends() == SocketMessage::Minimize,
        Button::NewWorkspace.sends() == SocketMessage::NewWorkspace,
        Button::CloseWorkspace.sends() == SocketMessage::CloseWorkspace,
        Button::FocusLast.sends() == SocketMessage::FocusLastWorkspace,
{
}

} // verus!
