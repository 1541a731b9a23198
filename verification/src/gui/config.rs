//! What the settings window shows of the settings, the monitors and the workspaces.

use vstd::prelude::*;

use crate::behaviour::FocusFollowsMouseImplementation;
use crate::geometry;
use crate::geometry::DefaultLayout;
use crate::geometry::Layout;
use crate::geometry::Rect;
use crate::monitor::Monitor;
use crate::monitor::MonitorView;
use crate::settings::Rgb;
use crate::settings::Settings;
use crate::socket_message::BorderStyle;
use crate::socket_message::StackbarLabel;
use crate::socket_message::StackbarMode;
use crate::workspace::Workspace;
use crate::workspace::WorkspaceView;

verus! {

/// The padding that is shown for workspaces without one of their own.
pub const SHOWN_PADDING: i32 = 20;

pub const SHOWN_ANIMATION_DURATION_MS: u64 = 200;

pub const SHOWN_ANIMATION_FPS: u64 = 60;

/// What the names of the windows' subscriptions start with.
pub const SUBSCRIBER_PREFIX: &'static str = "komorebi-gui-";

/// A colour as it is picked.
#[derive(Clone, Copy, Debug, PartialEq, Eq, Structural)]
pub struct Colour {
    pub r: u8,
    pub g: u8,
    pub b: u8,
}

/// The last eight bits of a part of a colour.
pub open spec fn last_byte(part: u32) -> u8 {
    (part % 256) as u8
}

/// How a colour is shown. One that is not set is black.
pub open spec fn shown_colour(colour: Option<Rgb>) -> Colour {
    match colour {
        Some(rgb) => Colour { r: last_byte(rgb.r), g: last_byte(rgb.g), b: last_byte(rgb.b) },
        None => Colour { r: 0, g: 0, b: 0 },
    }
}

pub fn colour32(colour: Option<Rgb>) -> (r: Colour)
    ensures
        r == shown_colour(colour),
{
    match colour {
        Some(rgb) => Colour {
            r: (rgb.r % 256) as u8,
            g: (rgb.g % 256) as u8,
            b: (rgb.b % 256) as u8,
        },
        None => Colour { r: 0, g: 0, b: 0 },
    }
}

#[derive(Clone, Copy, Debug, PartialEq, Eq, Structural)]
pub struct BorderColours {
    pub single: Colour,
    pub stack: Colour,
    pub monocle: Colour,
    pub floating: Colour,
    pub unfocused: Colour,
    pub unfocused_locked: Colour,
}

#[derive(Clone, Copy, Debug, PartialEq, Eq, Structural)]
pub struct BorderConfig {
    pub border_enabled: bool,
    pub border_colours: BorderColours,
    pub border_style: BorderStyle,
    pub border_offset: i32,
    pub border_width: i32,
}

impl BorderConfig {
    pub open spec fn of(settings: Option<Settings>) -> BorderConfig {
        match settings {
            Some(settings) => BorderConfig {
                border_enabled: settings.border.enabled,
                border_colours: BorderColours {
                    single: shown_colour(settings.border.colours.focused),
                    stack: shown_colour(settings.border.colours.stack),
                    monocle: shown_colour(settings.border.colours.monocle),
                    floating: shown_colour(settings.border.colours.floating),
                    unfocused: shown_colour(settings.border.colours.unfocused),
                    unfocused_locked: shown_colour(settings.border.colours.unfocused_locked),
                },
                border_style: settings.border.style,
                border_offset: settings.border.offset,
                border_width: settings.border.width,
            },
            None => BorderConfig {
                border_enabled: false,
                border_colours: BorderColours {
                    single: shown_colour(None),
                    stack: shown_colour(None),
                    monocle: shown_colour(None),
                    floating: shown_colour(None),
                    unfocused: shown_colour(None),
                    unfocused_locked: shown_colour(None),
                },
                border_style: BorderStyle::System,
                border_offset: 0,
                border_width: 0,
            },
        }
    }

    /// What is shown of the borders when the settings are known, or not.
    pub fn new(settings: Option<Settings>) -> (r: Self)
        ensures
            r == BorderConfig::of(settings),
    {
        match settings {
            Some(settings) => BorderConfig {
                border_enabled: settings.border.enabled,
                border_colours: BorderColours {
                    single: colour32(settings.border.colours.focused),
                    stack: colour32(settings.border.colours.stack),
                    monocle: colour32(settings.border.colours.monocle),
                    floating: colour32(settings.border.colours.floating),
                    unfocused: colour32(settings.border.colours.unfocused),
                    unfocused_locked: colour32(settings.border.colours.unfocused_locked),
                },
                border_style: settings.border.style,
                border_offset: settings.border.offset,
                border_width: settings.border.width,
            },
            None => {
                let black = colour32(None);
                BorderConfig {
                    border_enabled: false,
                    border_colours: BorderColours {
                        single: black,
                        stack: black,
                        monocle: black,
                        floating: black,
                        unfocused: black,
                        unfocused_locked: black,
                    },
                    border_style: BorderStyle::System,
                    border_offset: 0,
                    border_width: 0,
                }
            },
        }
    }
}

#[derive(Clone, Copy, Debug, PartialEq, Eq, Structural)]
pub struct StackbarConfig {
    pub mode: StackbarMode,
    pub label: StackbarLabel,
    pub height: i32,
    pub width: i32,
    pub font_size: i32,
    pub focused_text_colour: Colour,
    pub unfocused_text_colour: Colour,
    pub background_colour: Colour,
}

impl StackbarConfig {
    pub open spec fn of(settings: Option<Settings>) -> StackbarConfig {
        match settings {
            Some(settings) => StackbarConfig {
                mode: settings.stackbar.mode,
                label: settings.stackbar.label,
                height: settings.stackbar.height,
                width: settings.stackbar.tab_width,
                font_size: 0,
                focused_text_colour: shown_colour(settings.stackbar.focused_text_colour),
                unfocused_text_colour: shown_colour(settings.stackbar.unfocused_text_colour),
                background_colour: shown_colour(settings.stackbar.background_colour),
            },
            None => StackbarConfig {
                mode: StackbarMode::Never,
                label: StackbarLabel::Process,
                height: 0,
                width: 0,
                font_size: 0,
                focused_text_colour: shown_colour(None),
                unfocused_text_colour: shown_colour(None),
                background_colour: shown_colour(None),
            },
        }
    }

    /// What is shown of the stackbars when the settings are known, or not.
    pub fn new(settings: Option<Settings>) -> (r: Self)
        ensures
            r == StackbarConfig::of(settings),
    {
        match settings {
            Some(settings) => StackbarConfig {
                mode: settings.stackbar.mode,
                label: settings.stackbar.label,
                height: settings.stackbar.height,
                width: settings.stackbar.tab_width,
                font_size: 0,
                focused_text_colour: colour32(settings.stackbar.focused_text_colour),
                unfocused_text_colour: colour32(settings.stackbar.unfocused_text_colour),
                background_colour: colour32(settings.stackbar.background_colour),
            },
            None => StackbarConfig {
                mode: StackbarMode::Never,
                label: StackbarLabel::Process,
                height: 0,
                width: 0,
                font_size: 0,
                focused_text_colour: colour32(None),
                unfocused_text_colour: colour32(None),
                background_colour: colour32(None),
            },
        }
    }
}

#[derive(Clone, Copy, Debug, PartialEq, Eq, Structural)]
pub struct FocusConfig {
    pub mouse_follows_focus: bool,
    pub focus_follows_mouse: Option<FocusFollowsMouseImplementation>,
    pub alt_focus_hack: bool,
}

#[derive(Clone, Copy, Debug, PartialEq, Eq, Structural)]
pub struct AnimationConfig {
    pub enabled: bool,
    pub duration: u64,
    pub fps: u64,
}

impl AnimationConfig {
    pub open spec fn initial() -> AnimationConfig {
        AnimationConfig {
            enabled: false,
            duration: SHOWN_ANIMATION_DURATION_MS,
            fps: SHOWN_ANIMATION_FPS,
        }
    }
}

#[derive(Clone, Copy, Debug, PartialEq, Eq, Structural)]
pub struct TransparencyConfig {
    pub enabled: bool,
    pub alpha: u8,
    pub floating: bool,
    pub monocle: bool,
}

impl TransparencyConfig {
    pub open spec fn of(settings: Option<Settings>) -> TransparencyConfig {
        match settings {
            Some(settings) => TransparencyConfig {
                enabled: settings.transparency.enabled,
                alpha: settings.transparency.alpha,
                floating: settings.transparency.floating,
                monocle: settings.transparency.monocle,
            },
            None => TransparencyConfig { enabled: false, alpha: 0, floating: false, monocle: false },
        }
    }

    /// What is shown of the transparency when the settings are known, or not.
    pub fn new(settings: Option<Settings>) -> (r: Self)
        ensures
            r == TransparencyConfig::of(settings),
    {
        match settings {
            Some(settings) => TransparencyConfig {
                enabled: settings.transparency.enabled,
                alpha: settings.transparency.alpha,
                floating: settings.transparency.floating,
                monocle: settings.transparency.monocle,
            },
            None => TransparencyConfig { enabled: false, alpha: 0, floating: false, monocle: false },
        }
    }
}

/// `random_word::get` for English: some word, and never the empty one. Which word it is
/// depends on chance.
#[verifier::external_body]
fn random_word() -> (r: String)
    ensures
        r@.len() > 0,
{
    random_word::get(random_word::Lang::En).to_string()
}

/// The name under which a settings window subscribes, with some word in it.
pub fn subscriber_name_with(word: &str) -> (r: String)
    ensures
        r@ == SUBSCRIBER_PREFIX@ + word@,
{
    let mut name = SUBSCRIBER_PREFIX.to_owned();
    name.append(word);
    name
}

/// A name under which a settings window subscribes.
pub fn subscriber_name() -> (r: String)
    ensures
        SUBSCRIBER_PREFIX@.is_prefix_of(r@),
        r@.len() > SUBSCRIBER_PREFIX@.len(),
{
    let word = random_word();
    let name = subscriber_name_with(word.as_str());
    proof {
        assert(name@.subrange(0, SUBSCRIBER_PREFIX@.len() as int) =~= SUBSCRIBER_PREFIX@);
    }
    name
}

/// What is shown of a workspace.
#[derive(Debug)]
pub struct WorkspaceConfig {
    pub name: String,
    pub tile: bool,
    pub layout: DefaultLayout,
    pub container_padding: i32,
    pub workspace_padding: i32,
}

/// A padding, or the one that is shown where there is none.
pub open spec fn shown_padding(padding: Option<i32>) -> i32 {
    match padding {
        Some(padding) => padding,
        None => SHOWN_PADDING,
    }
}

fn padding_or_shown(padding: Option<i32>) -> (r: i32)
    ensures
        r == shown_padding(padding),
{
    match padding {
        Some(padding) => padding,
        None => SHOWN_PADDING,
    }
}

impl WorkspaceConfig {
    /// What is shown of a workspace, which is called by a word where it has no name.
    pub open spec fn of(workspace: WorkspaceView, word: String) -> WorkspaceConfig {
        WorkspaceConfig {
            name: match workspace.name {
                Some(name) => name,
                None => word,
            },
            tile: workspace.tile,
            layout: match workspace.layout {
                Layout::Default(layout) => layout,
                Layout::Custom(_) => DefaultLayout::BSP,
            },
            container_padding: shown_padding(workspace.container_padding),
            workspace_padding: shown_padding(workspace.workspace_padding),
        }
    }

    /// Whether this may be shown of a workspace: one without a name is called by some
    /// word.
    pub open spec fn may_show(self, workspace: WorkspaceView) -> bool {
        &&& self == WorkspaceConfig::of(workspace, self.name)
        &&& workspace.name is None ==> self.name@.len() > 0
    }

    pub fn with_word(workspace: &Workspace, word: String) -> (r: Self)
        ensures
            r == WorkspaceConfig::of(workspace@, word),
    {
        let name = match &workspace.name {
            Some(name) => name.clone(),
            None => word,
        };
        let layout = match &workspace.layout {
            Layout::Default(layout) => *layout,
            Layout::Custom(_) => DefaultLayout::BSP,
        };
        WorkspaceConfig {
            name,
            tile: workspace.tile,
            layout,
            container_padding: padding_or_shown(workspace.container_padding),
            workspace_padding: padding_or_shown(workspace.workspace_padding),
        }
    }

    pub fn new(workspace: &Workspace) -> (r: Self)
        ensures
            r.may_show(workspace@),
    {
        let word = if workspace.name.is_none() {
            random_word()
        } else {
            String::new()
        };
        WorkspaceConfig::with_word(workspace, word)
    }
}

/// What is shown of a monitor.
#[derive(Debug)]
pub struct MonitorConfig {
    pub size: Rect,
    pub work_area_offset: Rect,
    pub workspaces: Vec<WorkspaceConfig>,
}

/// What is shown of a monitor, for contracts.
#[verifier::ext_equal]
pub struct MonitorConfigView {
    pub size: Rect,
    pub work_area_offset: Rect,
    pub workspaces: Seq<WorkspaceConfig>,
}

impl View for MonitorConfig {
    type V = MonitorConfigView;

    open spec fn view(&self) -> MonitorConfigView {
        MonitorConfigView {
            size: self.size,
            work_area_offset: self.work_area_offset,
            workspaces: self.workspaces@,
        }
    }
}

impl MonitorConfigView {
    /// Whether this may be shown of a monitor.
    pub open spec fn may_show(self, monitor: MonitorView) -> bool {
        &&& self.size == monitor.size
        &&& self.work_area_offset == (match monitor.work_area_offset {
            Some(offset) => offset,
            None => geometry::zero_rect(),
        })
        &&& self.workspaces.len() == monitor.workspaces.elements.len()
        &&& forall|i: int|
            0 <= i < self.workspaces.len() ==> (#[trigger] self.workspaces[i]).may_show(
                monitor.workspaces.elements[i],
            )
    }

    /// The names of its workspaces.
    pub open spec fn names(self) -> Seq<String> {
        self.workspaces.map_values(|workspace: WorkspaceConfig| workspace.name)
    }

    /// It, with another workspace at an index.
    pub open spec fn with_workspace(self, idx: int, workspace: WorkspaceConfig) -> MonitorConfigView {
        MonitorConfigView { workspaces: self.workspaces.update(idx, workspace), ..self }
    }
}

impl MonitorConfig {
    pub fn new(monitor: &Monitor) -> (r: Self)
        ensures
            r@.may_show(monitor@),
    {
        let mut workspaces: Vec<WorkspaceConfig> = Vec::new();
        let mut i: usize = 0;
        while i < monitor.workspaces.elements.len()
            invariant
                i <= monitor.workspaces.elements@.len(),
                workspaces@.len() == i,
                forall|j: int|
                    0 <= j < i ==> (#[trigger] workspaces@[j]).may_show(
                        monitor@.workspaces.elements[j],
                    ),
            decreases monitor.workspaces.elements@.len() - i,
        {
            let workspace = WorkspaceConfig::new(&monitor.workspaces.elements[i]);
            assert(monitor@.workspaces.elements[i as int] == monitor.workspaces.elements@[i as int]@);
            workspaces.push(workspace);
            i = i + 1;
        }
        let work_area_offset = match monitor.work_area_offset {
            Some(offset) => offset,
            None => Rect::default(),
        };
        MonitorConfig { size: monitor.size, work_area_offset, workspaces }
    }

    /// The names of its workspaces.
    pub fn names(&self) -> (r: Vec<String>)
        ensures
            r@ == self@.names(),
    {
        let mut names: Vec<String> = Vec::new();
        let mut i: usize = 0;
        while i < self.workspaces.len()
            invariant
                i <= self.workspaces@.len(),
                names@ == self@.names().take(i as int),
            decreases self.workspaces@.len() - i,
        {
            names.push(self.workspaces[i].name.clone());
            i = i + 1;
            assert(names@ =~= self@.names().take(i as int));
        }
        assert(names@ =~= self@.names());
        names
    }
}

} // verus!
