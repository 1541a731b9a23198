//! What a client is answered.

use vstd::prelude::*;

use crate::eligibility::RuleDebug;
use crate::eligibility::RuleDebugView;
use crate::geometry::DefaultLayout;
use crate::monitor::MonitorInformation;
use crate::window::Window;

verus! {

/// The windows that are visible on a monitor.
#[derive(Debug)]
pub struct VisibleWindows {
    pub device_id: String,
    pub windows: Vec<Window>,
}

/// The windows that are visible on a monitor, for contracts.
pub struct VisibleWindowsView {
    pub device_id: String,
    pub windows: Seq<Window>,
}

impl View for VisibleWindows {
    type V = VisibleWindowsView;

    open spec fn view(&self) -> VisibleWindowsView {
        VisibleWindowsView { device_id: self.device_id, windows: self.windows@ }
    }
}

/// The answer to a question about the state.
#[derive(Debug)]
pub enum Answer {
    Number(usize),
    Text(String),
    Layout(DefaultLayout),
    /// The version of the program.
    Version,
}

/// The answer to a question about the state, for contracts.
pub enum AnswerView {
    Number(usize),
    Text(Seq<char>),
    Layout(DefaultLayout),
    Version,
}

impl View for Answer {
    type V = AnswerView;

    open spec fn view(&self) -> AnswerView {
        match self {
            Answer::Number(number) => AnswerView::Number(*number),
            Answer::Text(text) => AnswerView::Text(text@),
            Answer::Layout(layout) => AnswerView::Layout(*layout),
            Answer::Version => AnswerView::Version,
        }
    }
}

/// What is written back to the client that sent a command.
pub enum Reply {
    /// The state of the window manager.
    State,
    /// The rules and settings.
    GlobalState,
    /// The rules that let windows float for the session.
    SessionFloatRules,
    /// For each monitor that shows a workspace, the windows that are visible on it. Of two
    /// monitors with the same device the later one counts.
    VisibleWindows(Vec<VisibleWindows>),
    Monitors(Vec<MonitorInformation>),
    Answer(Answer),
    RuleDebug(RuleDebug),
    ApplicationSchema,
    NotificationSchema,
    SocketSchema,
    /// The configuration that leads to the state.
    StaticConfig,
}

/// What is written back, for contracts.
pub enum ReplyView {
    State,
    GlobalState,
    SessionFloatRules,
    VisibleWindows(Seq<VisibleWindowsView>),
    Monitors(Seq<MonitorInformation>),
    Answer(AnswerView),
    RuleDebug(RuleDebugView),
    ApplicationSchema,
    NotificationSchema,
    SocketSchema,
    StaticConfig,
}

impl View for Reply {
    type V = ReplyView;

    open spec fn view(&self) -> ReplyView {
        match self {
            Reply::State => ReplyView::State,
            Reply::GlobalState => ReplyView::GlobalState,
            Reply::SessionFloatRules => ReplyView::SessionFloatRules,
            Reply::VisibleWindows(monitors) => ReplyView::VisibleWindows(
                monitors@.map_values(|windows: VisibleWindows| windows@),
            ),
            Reply::Monitors(monitors) => ReplyView::Monitors(monitors@),
            Reply::Answer(answer) => ReplyView::Answer(answer@),
            Reply::RuleDebug(debug) => ReplyView::RuleDebug(debug@),
            Reply::ApplicationSchema => ReplyView::ApplicationSchema,
            Reply::NotificationSchema => ReplyView::NotificationSchema,
            Reply::SocketSchema => ReplyView::SocketSchema,
            Reply::StaticConfig => ReplyView::StaticConfig,
        }
    }
}

} // verus!
