//! The state of the settings window.

use std::collections::HashMap;

use vstd::prelude::*;

use crate::behaviour::FocusFollowsMouseImplementation;
use crate::eligibility::RuleDebug;
use crate::eligibility::RuleDebugView;
use crate::geometry;
use crate::geometry::Rect;
use crate::gui::config::AnimationConfig;
use crate::gui::config::BorderConfig;
use crate::gui::config::FocusConfig;
use crate::gui::config::MonitorConfig;
use crate::gui::config::MonitorConfigView;
use crate::gui::config::StackbarConfig;
use crate::gui::config::TransparencyConfig;
use crate::gui::config::SHOWN_ANIMATION_DURATION_MS;
use crate::gui::config::SHOWN_ANIMATION_FPS;
use crate::monitor::Monitor;
use crate::monitor::MonitorView;
use crate::ring::Ring;
use crate::settings::Settings;
use crate::text;

verus! {

/// What the window manager reports of its state.
pub struct State {
    pub monitors: Ring<Monitor>,
    pub mouse_follows_focus: bool,
    pub focus_follows_mouse: Option<FocusFollowsMouseImplementation>,
    pub resize_delta: i32,
}

/// What reaches the settings window from its subscription.
pub enum GuiEvent {
    StateUpdate(State),
    Connected,
    Disconnected,
}

/// The settings window.
pub struct KomorebiGui {
    pub border_config: BorderConfig,
    pub stackbar_config: StackbarConfig,
    pub focus_config: FocusConfig,
    pub monitors: Vec<MonitorConfig>,
    /// The names of the workspaces of each monitor that has any, as they are being edited.
    pub workspace_names: HashMap<usize, Vec<String>>,
    pub debug_hwnd: isize,
    pub debug_windows: Vec<isize>,
    pub debug_rule: Option<RuleDebug>,
    pub animation_config: AnimationConfig,
    pub transparency_config: TransparencyConfig,
    pub resize_delta: i32,
    pub invisible_borders: Rect,
    pub live_updates: bool,
    pub subscription_connected: bool,
    pub regex_pattern: String,
    pub regex_compiled: Option<regex::Regex>,
    pub regex_error: Option<String>,
}

/// The settings window, for contracts.
#[verifier::ext_equal]
pub struct GuiView {
    pub border_config: BorderConfig,
    pub stackbar_config: StackbarConfig,
    pub focus_config: FocusConfig,
    pub monitors: Seq<MonitorConfigView>,
    pub workspace_names: Map<usize, Seq<String>>,
    pub debug_hwnd: isize,
    pub debug_windows: Seq<isize>,
    pub debug_rule: Option<RuleDebugView>,
    pub animation_config: AnimationConfig,
    pub transparency_config: TransparencyConfig,
    pub resize_delta: i32,
    pub invisible_borders: Rect,
    pub live_updates: bool,
    pub subscription_connected: bool,
    pub regex_pattern: Seq<char>,
    /// The texts that the pattern matches, where it compiles.
    pub regex_texts: Option<Set<Seq<char>>>,
    pub regex_error: Option<Seq<char>>,
}

pub open spec fn texts_matched(re: Option<regex::Regex>) -> Option<Set<Seq<char>>> {
    match re {
        Some(re) => Some(text::matched_texts(re)),
        None => None,
    }
}

impl View for KomorebiGui {
    type V = GuiView;

    open spec fn view(&self) -> GuiView {
        GuiView {
            border_config: self.border_config,
            stackbar_config: self.stackbar_config,
            focus_config: self.focus_config,
            monitors: self.monitors@.map_values(|monitor: MonitorConfig| monitor@),
            workspace_names: self.workspace_names@.map_values(|names: Vec<String>| names@),
            debug_hwnd: self.debug_hwnd,
            debug_windows: self.debug_windows@,
            debug_rule: match self.debug_rule {
                Some(rule) => Some(rule@),
                None => None,
            },
            animation_config: self.animation_config,
            transparency_config: self.transparency_config,
            resize_delta: self.resize_delta,
            invisible_borders: self.invisible_borders,
            live_updates: self.live_updates,
            subscription_connected: self.subscription_connected,
            regex_pattern: self.regex_pattern@,
            regex_texts: texts_matched(self.regex_compiled),
            regex_error: match self.regex_error {
                Some(error) => Some(error@),
                None => None,
            },
        }
    }
}

/// Whether these may be shown of the monitors.
pub open spec fn may_show(shown: Seq<MonitorConfigView>, monitors: Seq<MonitorView>) -> bool {
    &&& shown.len() == monitors.len()
    &&& forall|i: int| 0 <= i < shown.len() ==> (#[trigger] shown[i]).may_show(monitors[i])
}

/// The names of the workspaces of the monitors that have any, by the index of the monitor.
pub open spec fn names_of(monitors: Seq<MonitorConfigView>) -> Map<usize, Seq<String>> {
    Map::new(
        |m: usize| m < monitors.len() && monitors[m as int].workspaces.len() > 0,
        |m: usize| monitors[m as int].names(),
    )
}

impl GuiView {
    /// Each workspace that is shown has a name that can be edited.
    pub open spec fn wf(self) -> bool {
        forall|m: usize|
            #![trigger self.workspace_names.contains_key(m)]
            #![trigger self.workspace_names.dom().contains(m)]
            #![trigger self.monitors[m as int]]
            m < self.monitors.len() && self.monitors[m as int].workspaces.len() > 0
                ==> self.workspace_names.contains_key(m) && self.workspace_names[m].len()
                == self.monitors[m as int].workspaces.len()
    }

    /// The window once it shows these monitors for a state.
    pub open spec fn showing(
        self,
        monitors: Seq<MonitorConfigView>,
        mouse_follows_focus: bool,
        focus_follows_mouse: Option<FocusFollowsMouseImplementation>,
        resize_delta: i32,
    ) -> GuiView {
        GuiView {
            monitors,
            workspace_names: names_of(monitors),
            focus_config: FocusConfig {
                mouse_follows_focus,
                focus_follows_mouse,
                ..self.focus_config
            },
            resize_delta,
            ..self
        }
    }

    /// The window once it shows settings that were asked for anew. The colours stay as
    /// they were picked.
    pub open spec fn with_settings(self, settings: Settings) -> GuiView {
        GuiView {
            border_config: BorderConfig {
                border_enabled: settings.border.enabled,
                border_style: settings.border.style,
                border_offset: settings.border.offset,
                border_width: settings.border.width,
                ..self.border_config
            },
            stackbar_config: StackbarConfig {
                mode: settings.stackbar.mode,
                label: settings.stackbar.label,
                height: settings.stackbar.height,
                width: settings.stackbar.tab_width,
                ..self.stackbar_config
            },
            transparency_config: TransparencyConfig::of(Some(settings)),
            ..self
        }
    }

    /// The window that has just been opened.
    pub open spec fn opened(
        settings: Option<Settings>,
        windows: Seq<isize>,
    ) -> GuiView {
        GuiView {
            border_config: BorderConfig::of(settings),
            stackbar_config: StackbarConfig::of(settings),
            focus_config: FocusConfig {
                mouse_follows_focus: false,
                focus_follows_mouse: None,
                alt_focus_hack: match settings {
                    Some(settings) => settings.custom_ffm,
                    None => false,
                },
            },
            monitors: Seq::empty(),
            workspace_names: Map::empty(),
            debug_hwnd: 0,
            debug_windows: windows,
            debug_rule: None,
            animation_config: AnimationConfig::initial(),
            transparency_config: TransparencyConfig::of(settings),
            resize_delta: 0,
            invisible_borders: geometry::zero_rect(),
            live_updates: true,
            subscription_connected: false,
            regex_pattern: Seq::empty(),
            regex_texts: None,
            regex_error: None,
        }
    }
}

/// What is shown of monitors.
fn monitor_configs(monitors: &Ring<Monitor>) -> (r: Vec<MonitorConfig>)
    ensures
        may_show(r@.map_values(|monitor: MonitorConfig| monitor@), monitors@.elements),
{
    let mut configs: Vec<MonitorConfig> = Vec::new();
    let mut i: usize = 0;
    while i < monitors.elements.len()
        invariant
            i <= monitors.elements@.len(),
            configs@.len() == i,
            forall|j: int|
                0 <= j < i ==> (#[trigger] configs@[j])@.may_show(monitors@.elements[j]),
        decreases monitors.elements@.len() - i,
    {
        let config = MonitorConfig::new(&monitors.elements[i]);
        assert(monitors@.elements[i as int] == monitors.elements@[i as int]@);
        configs.push(config);
        i = i + 1;
    }
    configs
}

/// The names of the workspaces that are shown.
fn editable_names(monitors: &Vec<MonitorConfig>) -> (r: HashMap<usize, Vec<String>>)
    ensures
        r@.map_values(|names: Vec<String>| names@) == names_of(
            monitors@.map_values(|monitor: MonitorConfig| monitor@),
        ),
{
    broadcast use vstd::std_specs::hash::group_hash_axioms;

    let ghost shown = monitors@.map_values(|monitor: MonitorConfig| monitor@);
    let mut names: HashMap<usize, Vec<String>> = HashMap::new();
    let mut i: usize = 0;
    while i < monitors.len()
        invariant
            i <= monitors@.len(),
            shown == monitors@.map_values(|monitor: MonitorConfig| monitor@),
            forall|m: usize| #[trigger]
                names@.contains_key(m) == (m < i && shown[m as int].workspaces.len() > 0),
            forall|m: usize| #[trigger]
                names@.contains_key(m) ==> names@[m]@ == shown[m as int].names(),
        decreases monitors@.len() - i,
    {
        if monitors[i].workspaces.len() > 0 {
            let _ = names.insert(i, monitors[i].names());
        }
        i = i + 1;
    }
    assert(names@.map_values(|names: Vec<String>| names@) =~= names_of(shown));
    names
}

impl KomorebiGui {
    pub open spec fn wf(&self) -> bool {
        self@.wf()
    }

    /// Open the window on what could be learnt of the settings and the state.
    pub fn new(settings: Option<Settings>, state: Option<State>, windows: Vec<isize>) -> (r: Self)
        ensures
            r.wf(),
            match state {
                Some(state) => {
                    &&& may_show(r@.monitors, state.monitors@.elements)
                    &&& r@ == GuiView::opened(settings, windows@).showing(
                        r@.monitors,
                        state.mouse_follows_focus,
                        state.focus_follows_mouse,
                        state.resize_delta,
                    )
                },
                None => r@ == GuiView::opened(settings, windows@),
            },
    {
        broadcast use vstd::std_specs::hash::group_hash_axioms;

        let alt_focus_hack = match &settings {
            Some(settings) => settings.custom_ffm,
            None => false,
        };
        let mut gui = KomorebiGui {
            border_config: BorderConfig::new(settings),
            stackbar_config: StackbarConfig::new(settings),
            focus_config: FocusConfig {
                mouse_follows_focus: false,
                focus_follows_mouse: None,
                alt_focus_hack,
            },
            monitors: Vec::new(),
            workspace_names: HashMap::new(),
            debug_hwnd: 0,
            debug_windows: windows,
            debug_rule: None,
            animation_config: AnimationConfig {
                enabled: false,
                duration: SHOWN_ANIMATION_DURATION_MS,
                fps: SHOWN_ANIMATION_FPS,
            },
            transparency_config: TransparencyConfig::new(settings),
            resize_delta: 0,
            invisible_borders: Rect::default(),
            live_updates: true,
            subscription_connected: false,
            regex_pattern: String::new(),
            regex_compiled: None,
            regex_error: None,
        };
        assert(gui@ =~= GuiView::opened(settings, windows@));
        match state {
            Some(state) => {
                gui.apply_state(state);
            },
            None => {},
        }
        gui
    }

    /// Show a state.
    pub fn apply_state(&mut self, state: State)
        ensures
            final(self).wf(),
            may_show(final(self)@.monitors, state.monitors@.elements),
            final(self)@ == old(self)@.showing(
                final(self)@.monitors,
                state.mouse_follows_focus,
                state.focus_follows_mouse,
                state.resize_delta,
            ),
    {
        let monitors = monitor_configs(&state.monitors);
        let workspace_names = editable_names(&monitors);
        self.monitors = monitors;
        self.workspace_names = workspace_names;
        self.focus_config.mouse_follows_focus = state.mouse_follows_focus;
        self.focus_config.focus_follows_mouse = state.focus_follows_mouse;
        self.resize_delta = state.resize_delta;
        assert(self@ =~= old(self)@.showing(
            self@.monitors,
            state.mouse_follows_focus,
            state.focus_follows_mouse,
            state.resize_delta,
        ));
    }

    /// Show settings that were asked for anew.
    pub fn apply_global_state(&mut self, settings: Settings)
        ensures
            final(self)@ == old(self)@.with_settings(settings),
    {
        self.border_config.border_enabled = settings.border.enabled;
        self.border_config.border_style = settings.border.style;
        self.border_config.border_offset = settings.border.offset;
        self.border_config.border_width = settings.border.width;
        self.stackbar_config.mode = settings.stackbar.mode;
        self.stackbar_config.label = settings.stackbar.label;
        self.stackbar_config.height = settings.stackbar.height;
        self.stackbar_config.width = settings.stackbar.tab_width;
        self.transparency_config = TransparencyConfig::new(Some(settings));
    }

    /// Take what has reached the window. Whether the list of windows has to be taken anew
    /// is returned. While live updates are off, reported states are dropped.
    pub fn process_event(&mut self, event: GuiEvent) -> (r: bool)
        requires
            old(self).wf(),
        ensures
            final(self).wf(),
            r == (event is StateUpdate && old(self).live_updates),
            match event {
                GuiEvent::StateUpdate(state) => if old(self).live_updates {
                    &&& may_show(final(self)@.monitors, state.monitors@.elements)
                    &&& final(self)@ == old(self)@.showing(
                        final(self)@.monitors,
                        state.mouse_follows_focus,
                        state.focus_follows_mouse,
                        state.resize_delta,
                    )
                } else {
                    final(self)@ == old(self)@
                },
                GuiEvent::Connected => final(self)@ == (GuiView {
                    subscription_connected: true,
                    ..old(self)@
                }),
                GuiEvent::Disconnected => final(self)@ == (GuiView {
                    subscription_connected: false,
                    ..old(self)@
                }),
            },
    {
        match event {
            GuiEvent::StateUpdate(state) => {
                if self.live_updates {
                    self.apply_state(state);
                    true
                } else {
                    false
                }
            },
            GuiEvent::Connected => {
                self.subscription_connected = true;
                false
            },
            GuiEvent::Disconnected => {
                self.subscription_connected = false;
                false
            },
        }
    }
}

/// A state that is shown twice is shown the same way, but for the words by which
/// workspaces without a name are called: what is shown of a state replaces whatever an
/// earlier state left.
pub proof fn states_replace_each_other(
    gui: GuiView,
    first: Seq<MonitorConfigView>,
    second: Seq<MonitorConfigView>,
    mouse_follows_focus: bool,
    focus_follows_mouse: Option<FocusFollowsMouseImplementation>,
    resize_delta: i32,
    other_mouse_follows_focus: bool,
    other_focus_follows_mouse: Option<FocusFollowsMouseImplementation>,
    other_resize_delta: i32,
)
    ensures
        gui.showing(
            first,
            other_mouse_follows_focus,
            other_focus_follows_mouse,
            other_resize_delta,
        ).showing(second, mouse_follows_focus, focus_follows_mouse, resize_delta) == gui.showing(
            second,
            mouse_follows_focus,
            focus_follows_mouse,
            resize_delta,
        ),
{
}

/// Named workspaces are shown under their name, and each name can be edited.
pub proof fn named_workspaces_are_shown_by_name(
    gui: GuiView,
    monitors: Seq<MonitorView>,
    m: usize,
    w: int,
)
    requires
        may_show(gui.monitors, monitors),
        gui.workspace_names == names_of(gui.monitors),
        m < monitors.len(),
        0 <= w < monitors[m as int].workspaces.elements.len(),
    ensures
        gui.wf(),
        monitors[m as int].workspaces.elements[w].name matches Some(name)
            ==> gui.monitors[m as int].workspaces[w].name == name && gui.workspace_names[m][w] == name,
{
    assert(gui.monitors[m as int].may_show(monitors[m as int]));
    assert(gui.workspace_names.contains_key(m));
    assert(gui.monitors[m as int].workspaces[w].may_show(monitors[m as int].workspaces.elements[w]));
}

} // verus!
