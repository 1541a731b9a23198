//! Commands that change the settings.

use vstd::prelude::*;

use crate::animation::settings::AnimationOverrides;
use crate::animation::settings::AnimationPrefix;
use crate::animation::settings::AnimationSettings;
use crate::animation::settings::AnimationStyle;
use crate::behaviour::BorderImplementation;
use crate::manager_op::ManagerOp;
use crate::plan::Call;
use crate::plan::StepView;
use crate::settings::BorderColours;
use crate::settings::BorderSettings;
use crate::settings::Rgb;
use crate::settings::Settings;
use crate::settings::StackbarSettings;
use crate::settings::TransparencySettings;
use crate::socket_message::SocketMessage;
use crate::socket_message::WindowKind;
use crate::window::Screen;

verus! {

impl AnimationSettings {
    /// The settings with other settings of one kind of animation.
    pub open spec fn with_overrides(
        self,
        prefix: AnimationPrefix,
        overrides: AnimationOverrides,
    ) -> AnimationSettings {
        match prefix {
            AnimationPrefix::Movement => AnimationSettings { movement: overrides, ..self },
            AnimationPrefix::Transparency => AnimationSettings {
                transparency: overrides,
                ..self
            },
        }
    }

    /// One kind of animation enabled or disabled, or all of them alike.
    pub open spec fn enabling(self, enable: bool, prefix: Option<AnimationPrefix>) -> AnimationSettings {
        match prefix {
            Some(prefix) => self.with_overrides(
                prefix,
                AnimationOverrides { enabled: Some(enable), ..self.overrides_of(prefix) },
            ),
            None => AnimationSettings {
                enabled: enable,
                movement: AnimationOverrides { enabled: None, ..self.movement },
                transparency: AnimationOverrides { enabled: None, ..self.transparency },
                ..self
            },
        }
    }

    /// One kind of animation with another duration, or all of them alike.
    pub open spec fn lasting(
        self,
        duration_ms: u64,
        prefix: Option<AnimationPrefix>,
    ) -> AnimationSettings {
        match prefix {
            Some(prefix) => self.with_overrides(
                prefix,
                AnimationOverrides {
                    duration_ms: Some(duration_ms),
                    ..self.overrides_of(prefix)
                },
            ),
            None => AnimationSettings {
                duration_ms,
                movement: AnimationOverrides { duration_ms: None, ..self.movement },
                transparency: AnimationOverrides { duration_ms: None, ..self.transparency },
                ..self
            },
        }
    }

    /// One kind of animation with another curve, or all of them alike.
    pub open spec fn styled(
        self,
        style: AnimationStyle,
        prefix: Option<AnimationPrefix>,
    ) -> AnimationSettings {
        match prefix {
            Some(prefix) => self.with_overrides(
                prefix,
                AnimationOverrides { style: Some(style), ..self.overrides_of(prefix) },
            ),
            None => AnimationSettings {
                style,
                movement: AnimationOverrides { style: None, ..self.movement },
                transparency: AnimationOverrides { style: None, ..self.transparency },
                ..self
            },
        }
    }

    fn overrides_mut(&mut self, prefix: AnimationPrefix) -> (r: &mut AnimationOverrides)
        ensures
            *r == old(self).overrides_of(prefix),
            *final(self) == old(self).with_overrides(prefix, *final(r)),
    {
        match prefix {
            AnimationPrefix::Movement => &mut self.movement,
            AnimationPrefix::Transparency => &mut self.transparency,
        }
    }

    pub fn enable(&mut self, enable: bool, prefix: Option<AnimationPrefix>)
        ensures
            *final(self) == old(self).enabling(enable, prefix),
    {
        match prefix {
            Some(prefix) => {
                self.overrides_mut(prefix).enabled = Some(enable);
            },
            None => {
                self.enabled = enable;
                self.movement.enabled = None;
                self.transparency.enabled = None;
            },
        }
    }

    pub fn set_duration(&mut self, duration_ms: u64, prefix: Option<AnimationPrefix>)
        ensures
            *final(self) == old(self).lasting(duration_ms, prefix),
    {
        match prefix {
            Some(prefix) => {
                self.overrides_mut(prefix).duration_ms = Some(duration_ms);
            },
            None => {
                self.duration_ms = duration_ms;
                self.movement.duration_ms = None;
                self.transparency.duration_ms = None;
            },
        }
    }

    pub fn set_style(&mut self, style: AnimationStyle, prefix: Option<AnimationPrefix>)
        ensures
            *final(self) == old(self).styled(style, prefix),
    {
        match prefix {
            Some(prefix) => {
                self.overrides_mut(prefix).style = Some(style);
            },
            None => {
                self.style = style;
                self.movement.style = None;
                self.transparency.style = None;
            },
        }
    }
}

/// A setting for all animations holds for each of them, whatever was set before.
pub proof fn settings_for_all_hold_for_each(
    settings: AnimationSettings,
    enable: bool,
    duration_ms: u64,
    style: AnimationStyle,
    prefix: AnimationPrefix,
)
    ensures
        settings.enabling(enable, None).enables(prefix) == enable,
        settings.lasting(duration_ms, None).duration_of(prefix) == duration_ms,
        settings.styled(style, None).style_of(prefix) == style,
{
}

/// A setting for one kind of animation leaves the other kind as it is.
pub proof fn settings_for_one_leave_the_other(
    settings: AnimationSettings,
    enable: bool,
    duration_ms: u64,
    style: AnimationStyle,
    prefix: AnimationPrefix,
    other: AnimationPrefix,
)
    requires
        prefix != other,
    ensures
        settings.enabling(enable, Some(prefix)).enables(other) == settings.enables(other),
        settings.lasting(duration_ms, Some(prefix)).duration_of(other) == settings.duration_of(
            other,
        ),
        settings.styled(style, Some(prefix)).style_of(other) == settings.style_of(other),
        settings.lasting(duration_ms, Some(prefix)).duration_of(prefix) == duration_ms,
        settings.styled(style, Some(prefix)).style_of(prefix) == style,
{
}

impl BorderColours {
    /// The colours with another one for a kind of window.
    pub open spec fn with(self, kind: WindowKind, colour: Rgb) -> BorderColours {
        match kind {
            WindowKind::Single => BorderColours { focused: Some(colour), ..self },
            WindowKind::Stack => BorderColours { stack: Some(colour), ..self },
            WindowKind::Monocle => BorderColours { monocle: Some(colour), ..self },
            WindowKind::Unfocused => BorderColours { unfocused: Some(colour), ..self },
            WindowKind::UnfocusedLocked => BorderColours {
                unfocused_locked: Some(colour),
                ..self
            },
            WindowKind::Floating => BorderColours { floating: Some(colour), ..self },
            WindowKind::Pinned => BorderColours { pinned: Some(colour), ..self },
        }
    }

    pub fn set(&mut self, kind: WindowKind, colour: Rgb)
        ensures
            *final(self) == old(self).with(kind, colour),
    {
        match kind {
            WindowKind::Single => {
                self.focused = Some(colour);
            },
            WindowKind::Stack => {
                self.stack = Some(colour);
            },
            WindowKind::Monocle => {
                self.monocle = Some(colour);
            },
            WindowKind::Unfocused => {
                self.unfocused = Some(colour);
            },
            WindowKind::UnfocusedLocked => {
                self.unfocused_locked = Some(colour);
            },
            WindowKind::Floating => {
                self.floating = Some(colour);
            },
            WindowKind::Pinned => {
                self.pinned = Some(colour);
            },
        }
    }
}

/// The borders after a command that changes how they look.
pub open spec fn changed_border(border: BorderSettings, message: SocketMessage) -> Option<
    BorderSettings,
> {
    match message {
        SocketMessage::BorderColour(kind, r, g, b) => Some(
            BorderSettings { colours: border.colours.with(kind, Rgb { r, g, b }), ..border },
        ),
        SocketMessage::BorderStyle(style) => Some(BorderSettings { style, ..border }),
        SocketMessage::BorderWidth(width) => Some(BorderSettings { width, ..border }),
        SocketMessage::BorderOffset(offset) => Some(BorderSettings { offset, ..border }),
        _ => None,
    }
}

fn change_border(border: &mut BorderSettings, message: &SocketMessage) -> (r: bool)
    ensures
        match changed_border(*old(border), *message) {
            Some(changed) => r && *final(border) == changed,
            None => !r && *final(border) == *old(border),
        },
{
    match message {
        SocketMessage::BorderColour(kind, r, g, b) => {
            border.colours.set(*kind, Rgb { r: *r, g: *g, b: *b });
            true
        },
        SocketMessage::BorderStyle(style) => {
            border.style = *style;
            true
        },
        SocketMessage::BorderWidth(width) => {
            border.width = *width;
            true
        },
        SocketMessage::BorderOffset(offset) => {
            border.offset = *offset;
            true
        },
        _ => false,
    }
}

/// The dimming after a command that changes it.
pub open spec fn changed_transparency(
    transparency: TransparencySettings,
    message: SocketMessage,
) -> Option<TransparencySettings> {
    match message {
        SocketMessage::ToggleTransparency => Some(
            TransparencySettings { enabled: !transparency.enabled, ..transparency },
        ),
        SocketMessage::Transparency(enable) => Some(
            TransparencySettings { enabled: enable, ..transparency },
        ),
        SocketMessage::TransparencyAlpha(alpha) => Some(
            TransparencySettings { alpha, ..transparency },
        ),
        SocketMessage::ToggleTransparencyFloating => Some(
            TransparencySettings { floating: !transparency.floating, ..transparency },
        ),
        SocketMessage::TransparencyFloating(enable) => Some(
            TransparencySettings { floating: enable, ..transparency },
        ),
        SocketMessage::ToggleTransparencyMonocle => Some(
            TransparencySettings { monocle: !transparency.monocle, ..transparency },
        ),
        SocketMessage::TransparencyMonocle(enable) => Some(
            TransparencySettings { monocle: enable, ..transparency },
        ),
        _ => None,
    }
}

fn change_transparency(transparency: &mut TransparencySettings, message: &SocketMessage) -> (r:
    bool)
    ensures
        match changed_transparency(*old(transparency), *message) {
            Some(changed) => r && *final(transparency) == changed,
            None => !r && *final(transparency) == *old(transparency),
        },
{
    match message {
        SocketMessage::ToggleTransparency => {
            transparency.enabled = !transparency.enabled;
            true
        },
        SocketMessage::Transparency(enable) => {
            transparency.enabled = *enable;
            true
        },
        SocketMessage::TransparencyAlpha(alpha) => {
            transparency.alpha = *alpha;
            true
        },
        SocketMessage::ToggleTransparencyFloating => {
            transparency.floating = !transparency.floating;
            true
        },
        SocketMessage::TransparencyFloating(enable) => {
            transparency.floating = *enable;
            true
        },
        SocketMessage::ToggleTransparencyMonocle => {
            transparency.monocle = !transparency.monocle;
            true
        },
        SocketMessage::TransparencyMonocle(enable) => {
            transparency.monocle = *enable;
            true
        },
        _ => false,
    }
}

/// The stackbars after a command that changes how they look.
pub open spec fn changed_stackbar(stackbar: StackbarSettings, message: SocketMessage) -> Option<
    StackbarSettings,
> {
    match message {
        SocketMessage::StackbarLabel(label) => Some(StackbarSettings { label, ..stackbar }),
        SocketMessage::StackbarFocusedTextColour(r, g, b) => Some(
            StackbarSettings { focused_text_colour: Some(Rgb { r, g, b }), ..stackbar },
        ),
        SocketMessage::StackbarUnfocusedTextColour(r, g, b) => Some(
            StackbarSettings { unfocused_text_colour: Some(Rgb { r, g, b }), ..stackbar },
        ),
        SocketMessage::StackbarBackgroundColour(r, g, b) => Some(
            StackbarSettings { background_colour: Some(Rgb { r, g, b }), ..stackbar },
        ),
        SocketMessage::StackbarHeight(height) => Some(StackbarSettings { height, ..stackbar }),
        SocketMessage::StackbarTabWidth(width) => Some(
            StackbarSettings { tab_width: width, ..stackbar },
        ),
        SocketMessage::StackbarFontSize(size) => Some(
            StackbarSettings { font_size: size, ..stackbar },
        ),
        _ => None,
    }
}

fn change_stackbar(stackbar: &mut StackbarSettings, message: &SocketMessage) -> (r: bool)
    ensures
        match changed_stackbar(*old(stackbar), *message) {
            Some(changed) => r && *final(stackbar) == changed,
            None => !r && *final(stackbar) == *old(stackbar),
        },
{
    match message {
        SocketMessage::StackbarLabel(label) => {
            stackbar.label = *label;
            true
        },
        SocketMessage::StackbarFocusedTextColour(r, g, b) => {
            stackbar.focused_text_colour = Some(Rgb { r: *r, g: *g, b: *b });
            true
        },
        SocketMessage::StackbarUnfocusedTextColour(r, g, b) => {
            stackbar.unfocused_text_colour = Some(Rgb { r: *r, g: *g, b: *b });
            true
        },
        SocketMessage::StackbarBackgroundColour(r, g, b) => {
            stackbar.background_colour = Some(Rgb { r: *r, g: *g, b: *b });
            true
        },
        SocketMessage::StackbarHeight(height) => {
            stackbar.height = *height;
            true
        },
        SocketMessage::StackbarTabWidth(width) => {
            stackbar.tab_width = *width;
            true
        },
        SocketMessage::StackbarFontSize(size) => {
            stackbar.font_size = *size;
            true
        },
        _ => false,
    }
}

/// The animations after a command that changes them.
pub open spec fn changed_animations(
    animations: AnimationSettings,
    message: SocketMessage,
) -> Option<AnimationSettings> {
    match message {
        SocketMessage::Animation(enable, prefix) => Some(animations.enabling(enable, prefix)),
        SocketMessage::AnimationDuration(duration_ms, prefix) => Some(
            animations.lasting(duration_ms, prefix),
        ),
        SocketMessage::AnimationFps(fps) => Some(AnimationSettings { fps, ..animations }),
        SocketMessage::AnimationStyle(style, prefix) => Some(animations.styled(style, prefix)),
        _ => None,
    }
}

fn change_animations(animations: &mut AnimationSettings, message: &SocketMessage) -> (r: bool)
    ensures
        match changed_animations(*old(animations), *message) {
            Some(changed) => r && *final(animations) == changed,
            None => !r && *final(animations) == *old(animations),
        },
{
    match message {
        SocketMessage::Animation(enable, prefix) => {
            animations.enable(*enable, *prefix);
            true
        },
        SocketMessage::AnimationDuration(duration_ms, prefix) => {
            animations.set_duration(*duration_ms, *prefix);
            true
        },
        SocketMessage::AnimationFps(fps) => {
            animations.fps = *fps;
            true
        },
        SocketMessage::AnimationStyle(style, prefix) => {
            animations.set_style(*style, *prefix);
            true
        },
        _ => false,
    }
}

/// What a command does that changes settings: the settings after it, the steps that
/// follow from it, and whether all borders are to be drawn anew.
pub struct Adjustment {
    pub settings: Settings,
    pub steps: Seq<StepView>,
    pub force_borders: bool,
}

/// Settings without anything that follows from them.
pub open spec fn plain(settings: Settings) -> Adjustment {
    Adjustment { settings, steps: Seq::empty(), force_borders: false }
}

/// What follows from enabling the borders or not: those that are drawn are taken down, in
/// the way in which they are drawn.
pub open spec fn border_switched(settings: Settings, enable: bool) -> Adjustment {
    Adjustment {
        settings: Settings {
            border: BorderSettings { enabled: enable, ..settings.border },
            ..settings
        },
        steps: if enable {
            Seq::empty()
        } else {
            match settings.border.implementation {
                BorderImplementation::Komorebi => seq![StepView::Do(Call::DestroyAllBorders)],
                BorderImplementation::Windows => seq![
                    StepView::Manage(ManagerOp::RemoveAllAccents),
                ],
            }
        },
        force_borders: enable && settings.border.implementation
            == BorderImplementation::Komorebi,
    }
}

/// What follows from letting the borders be drawn by the window manager or the window
/// system, which not all window systems can do.
pub open spec fn border_implemented(
    settings: Settings,
    implementation: BorderImplementation,
) -> Adjustment {
    if !settings.has_accents && implementation == BorderImplementation::Windows {
        plain(settings)
    } else {
        Adjustment {
            settings: Settings {
                border: BorderSettings { implementation, ..settings.border },
                ..settings
            },
            steps: match implementation {
                BorderImplementation::Komorebi => seq![
                    StepView::Manage(ManagerOp::RemoveAllAccents),
                ],
                BorderImplementation::Windows => seq![StepView::Do(Call::DestroyAllBorders)],
            },
            force_borders: implementation == BorderImplementation::Komorebi,
        }
    }
}

/// Lay the focused workspace out.
pub open spec fn update_steps() -> Seq<StepView> {
    seq![
        StepView::Manage(
            ManagerOp::UpdateFocusedWorkspace { follow_focus: false, trigger_focus: false },
        ),
    ]
}

/// What a command does that changes settings; nothing for another command.
#[verifier::opaque]
pub open spec fn adjustment(settings: Settings, message: SocketMessage) -> Option<Adjustment> {
    match message {
        SocketMessage::Border(enable) => Some(border_switched(settings, enable)),
        SocketMessage::BorderImplementation(implementation) => Some(
            border_implemented(settings, implementation),
        ),
        SocketMessage::StackbarMode(mode) => Some(
            Adjustment {
                settings: Settings {
                    stackbar: StackbarSettings { mode, ..settings.stackbar },
                    ..settings
                },
                steps: seq![StepView::Manage(ManagerOp::RetileAll(true))],
                force_borders: false,
            },
        ),
        SocketMessage::ToggleTitleBars => Some(
            Adjustment {
                settings: Settings { remove_titlebars: !settings.remove_titlebars, ..settings },
                steps: update_steps(),
                force_borders: false,
            },
        ),
        SocketMessage::CompleteConfiguration => Some(
            if settings.initial_configuration_loaded {
                plain(settings)
            } else {
                Adjustment {
                    settings: Settings { initial_configuration_loaded: true, ..settings },
                    steps: update_steps(),
                    force_borders: true,
                }
            },
        ),
        _ => match (
            changed_border(settings.border, message),
            changed_transparency(settings.transparency, message),
            changed_stackbar(settings.stackbar, message),
            changed_animations(settings.animations, message),
        ) {
            (Some(border), _, _, _) => Some(
                Adjustment { force_borders: true, ..plain(Settings { border, ..settings }) },
            ),
            (_, Some(transparency), _, _) => Some(plain(Settings { transparency, ..settings })),
            (_, _, Some(stackbar), _) => Some(plain(Settings { stackbar, ..settings })),
            (_, _, _, Some(animations)) => Some(plain(Settings { animations, ..settings })),
            _ => None,
        },
    }
}

/// Carry out a command that changes settings. The result says whether all borders are to
/// be drawn anew; there is none for another command.
pub fn adjust_settings(settings: &mut Settings, message: &SocketMessage, screen: &mut Screen) -> (r:
    Option<bool>)
    ensures
        match adjustment(*old(settings), *message) {
            Some(adjusted) => {
                &&& r == Some(adjusted.force_borders)
                &&& *final(settings) == adjusted.settings
                &&& final(screen)@ == old(screen)@.followed_by(adjusted.steps)
            },
            None => {
                &&& r is None
                &&& *final(settings) == *old(settings)
                &&& final(screen)@ == old(screen)@
            },
        },
{
    proof {
        reveal(adjustment);
    }
    let ghost before = screen@.steps;
    assert(before + Seq::<StepView>::empty() =~= before);
    match message {
        SocketMessage::Border(enable) => {
            settings.border.enabled = *enable;
            if !*enable {
                match settings.border.implementation {
                    BorderImplementation::Komorebi => {
                        screen.plan.call(Call::DestroyAllBorders);
                    },
                    BorderImplementation::Windows => {
                        screen.manage(ManagerOp::RemoveAllAccents);
                    },
                }
            }
            assert(screen@.steps =~= before + border_switched(*old(settings), *enable).steps);
            Some(*enable && settings.border.implementation == BorderImplementation::Komorebi)
        },
        SocketMessage::BorderImplementation(implementation) => {
            if !settings.has_accents && *implementation == BorderImplementation::Windows {
                return Some(false);
            }
            settings.border.implementation = *implementation;
            match implementation {
                BorderImplementation::Komorebi => {
                    screen.manage(ManagerOp::RemoveAllAccents);
                },
                BorderImplementation::Windows => {
                    screen.plan.call(Call::DestroyAllBorders);
                },
            }
            assert(screen@.steps =~= before + border_implemented(
                *old(settings),
                *implementation,
            ).steps);
            Some(*implementation == BorderImplementation::Komorebi)
        },
        SocketMessage::StackbarMode(mode) => {
            settings.stackbar.mode = *mode;
            screen.manage(ManagerOp::RetileAll(true));
            assert(screen@.steps =~= before + seq![StepView::Manage(ManagerOp::RetileAll(true))]);
            Some(false)
        },
        SocketMessage::ToggleTitleBars => {
            settings.remove_titlebars = !settings.remove_titlebars;
            screen.update(false, false);
            assert(screen@.steps =~= before + update_steps());
            Some(false)
        },
        SocketMessage::CompleteConfiguration => {
            if settings.initial_configuration_loaded {
                return Some(false);
            }
            settings.initial_configuration_loaded = true;
            screen.update(false, false);
            assert(screen@.steps =~= before + update_steps());
            Some(true)
        },
        _ => {
            if change_border(&mut settings.border, message) {
                Some(true)
            } else if change_transparency(&mut settings.transparency, message)
                || change_stackbar(&mut settings.stackbar, message) || change_animations(
                &mut settings.animations,
                message,
            ) {
                Some(false)
            } else {
                None
            }
        },
    }
}

} // verus!
