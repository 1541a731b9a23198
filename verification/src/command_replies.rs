//! Commands that are answered.

use vstd::prelude::*;

use crate::change_state;
use crate::change_state::Deed;
use crate::eligibility;
use crate::eligibility::RuleDebug;
use crate::error::Error;
use crate::geometry::Layout;
use crate::monitor::MonitorInformation;
use crate::monitor::MonitorView;
use crate::plan::CommandStage;
use crate::plan::Step;
use crate::plan::StepView;
use crate::reply::Answer;
use crate::reply::AnswerView;
use crate::reply::Reply;
use crate::reply::ReplyView;
use crate::reply::VisibleWindows;
use crate::reply::VisibleWindowsView;
use crate::rule_set::RuleSet;
use crate::socket_message::SocketMessage;
use crate::socket_message::StateQuery;
use crate::turn::Observations;
use crate::turn::ObservationsView;
use crate::window::Screen;
use crate::window::ScreenView;
use crate::window::Window;
use crate::window_manager::ManagerView;
use crate::window_manager::WindowManager;

verus! {

/// For each monitor that shows a workspace, the windows that are visible on it.
pub open spec fn visible_windows(monitors: Seq<MonitorView>) -> Seq<VisibleWindowsView>
    decreases monitors.len(),
{
    if monitors.len() == 0 {
        Seq::empty()
    } else {
        let before = visible_windows(monitors.drop_last());
        match monitors.last().workspaces.focused_element() {
            Some(workspace) => before.push(
                VisibleWindowsView {
                    device_id: monitors.last().device_id,
                    windows: workspace.visible(),
                },
            ),
            None => before,
        }
    }
}

/// What identifies a monitor.
pub open spec fn information_of(monitor: MonitorView) -> MonitorInformation {
    MonitorInformation {
        id: monitor.id,
        name: monitor.name,
        device: monitor.device,
        device_id: monitor.device_id,
        serial_number_id: monitor.serial_number_id,
        size: monitor.size,
    }
}

/// What identifies the monitors.
pub open spec fn monitor_information(monitors: Seq<MonitorView>) -> Seq<MonitorInformation> {
    monitors.map_values(|monitor: MonitorView| information_of(monitor))
}

/// The answer to a question about the state.
pub open spec fn answer(manager: ManagerView, query: StateQuery) -> Result<AnswerView, Error> {
    match query {
        StateQuery::FocusedMonitorIndex => Ok(AnswerView::Number(manager.monitors.focused)),
        StateQuery::FocusedWorkspaceIndex => match manager.monitor() {
            Ok(monitor) => Ok(AnswerView::Number(monitor.workspaces.focused)),
            Err(error) => Err(error),
        },
        StateQuery::FocusedContainerIndex => match manager.workspace() {
            Ok(workspace) => Ok(AnswerView::Number(workspace.containers.focused)),
            Err(error) => Err(error),
        },
        StateQuery::FocusedWindowIndex => match manager.workspace() {
            Ok(workspace) => match workspace.containers.focused_element() {
                Some(container) => Ok(AnswerView::Number(container.windows.focused)),
                None => Err(Error::NoContainer),
            },
            Err(error) => Err(error),
        },
        StateQuery::FocusedWorkspaceName => match manager.monitor() {
            Ok(monitor) => Ok(
                match monitor.workspaces.focused_element() {
                    Some(workspace) => match workspace.name {
                        Some(name) => AnswerView::Text(name@),
                        None => AnswerView::Number(monitor.workspaces.focused),
                    },
                    None => AnswerView::Number(monitor.workspaces.focused),
                },
            ),
            Err(error) => Err(error),
        },
        StateQuery::Version => Ok(AnswerView::Version),
        StateQuery::FocusedWorkspaceLayout => match manager.monitor() {
            Ok(monitor) => Ok(
                match monitor.workspaces.focused_element() {
                    Some(workspace) => if workspace.tile {
                        match workspace.layout {
                            Layout::Default(layout) => AnswerView::Layout(layout),
                            Layout::Custom(_) => AnswerView::Text("Custom"@),
                        }
                    } else {
                        AnswerView::Text("None"@)
                    },
                    None => AnswerView::Text("None"@),
                },
            ),
            Err(error) => Err(error),
        },
        StateQuery::FocusedContainerKind => match manager.workspace() {
            Ok(workspace) => Ok(
                AnswerView::Text(
                    match workspace.containers.focused_element() {
                        None => "None"@,
                        Some(container) => if container.windows.elements.len() > 1 {
                            "Stack"@
                        } else {
                            "Single"@
                        },
                    },
                ),
            ),
            Err(error) => Err(error),
        },
    }
}

/// Answer to the client.
pub open spec fn replied(manager: ManagerView, screen: ScreenView, reply: ReplyView) -> Deed {
    change_state::carried_out(manager, screen.taking(StepView::Reply(reply)))
}

/// What comes of a command that is answered; nothing for another one.
#[verifier::opaque]
pub open spec fn answered_by(
    manager: ManagerView,
    screen: ScreenView,
    rules: RuleSet,
    seen: ObservationsView,
    message: SocketMessage,
) -> Option<Deed> {
    match message {
        SocketMessage::State => Some(replied(manager, screen, ReplyView::State)),
        SocketMessage::GlobalState => Some(replied(manager, screen, ReplyView::GlobalState)),
        SocketMessage::SessionFloatRules => Some(
            replied(manager, screen, ReplyView::SessionFloatRules),
        ),
        SocketMessage::VisibleWindows => Some(
            replied(
                manager,
                screen,
                ReplyView::VisibleWindows(visible_windows(manager.monitors.elements)),
            ),
        ),
        SocketMessage::MonitorInformation => Some(
            replied(
                manager,
                screen,
                ReplyView::Monitors(monitor_information(manager.monitors.elements)),
            ),
        ),
        SocketMessage::Query(query) => Some(
            match answer(manager, query) {
                Ok(answer) => replied(manager, screen, ReplyView::Answer(answer)),
                Err(error) => change_state::refused(manager, screen, error),
            },
        ),
        SocketMessage::DebugWindow(hwnd) => {
            let judgement = eligibility::judge(
                screen.desktop.at(hwnd),
                None,
                rules,
                seen.dimmed_hwnds.contains(hwnd),
                eligibility::blank_debug(),
            );
            Some(
                replied(
                    manager,
                    screen.followed_by(judgement.steps),
                    ReplyView::RuleDebug(judgement.debug),
                ),
            )
        },
        SocketMessage::ApplicationSpecificConfigurationSchema => Some(
            replied(manager, screen, ReplyView::ApplicationSchema),
        ),
        SocketMessage::NotificationSchema => Some(
            replied(manager, screen, ReplyView::NotificationSchema),
        ),
        SocketMessage::SocketSchema | SocketMessage::StaticConfigSchema => Some(
            replied(manager, screen, ReplyView::SocketSchema),
        ),
        SocketMessage::GenerateStaticConfig => Some(
            replied(manager, screen, ReplyView::StaticConfig),
        ),
        _ => None,
    }
}

impl WindowManager {
    /// For each monitor that shows a workspace, the windows that are visible on it.
    pub fn visible_windows(&self) -> (r: Vec<VisibleWindows>)
        ensures
            r@.map_values(|windows: VisibleWindows| windows@) == visible_windows(
                self@.monitors.elements,
            ),
    {
        let ghost shown = |windows: VisibleWindows| windows@;
        let ghost monitors = self@.monitors.elements;
        let mut all: Vec<VisibleWindows> = Vec::new();
        let mut i: usize = 0;
        assert(monitors.take(0) =~= Seq::empty());
        assert(all@.map_values(shown) =~= Seq::empty());
        while i < self.monitors.elements.len()
            invariant
                i <= self.monitors.elements@.len(),
                monitors == self@.monitors.elements,
                shown == (|windows: VisibleWindows| windows@),
                all@.map_values(shown) == visible_windows(monitors.take(i as int)),
            decreases self.monitors.elements@.len() - i,
        {
            let monitor = &self.monitors.elements[i];
            assert(monitors[i as int] == monitor@);
            assert(monitors.take(i + 1).drop_last() =~= monitors.take(i as int));
            let ghost before = all@.map_values(shown);
            match monitor.focused_workspace() {
                Some(workspace) => {
                    let entry = VisibleWindows {
                        device_id: monitor.device_id.clone(),
                        windows: workspace.visible_windows(),
                    };
                    all.push(entry);
                    assert(all@.map_values(shown) =~= before.push(entry@));
                },
                None => {},
            }
            i = i + 1;
        }
        assert(monitors.take(i as int) =~= monitors);
        all
    }

    /// What identifies the monitors.
    pub fn monitor_information(&self) -> (r: Vec<MonitorInformation>)
        ensures
            r@ == monitor_information(self@.monitors.elements),
    {
        let mut all: Vec<MonitorInformation> = Vec::new();
        let mut i: usize = 0;
        while i < self.monitors.elements.len()
            invariant
                i <= self.monitors.elements@.len(),
                all@.len() == i,
                forall|k: int|
                    0 <= k < i ==> #[trigger] all@[k] == information_of(self@.monitors.elements[k]),
            decreases self.monitors.elements@.len() - i,
        {
            let monitor = &self.monitors.elements[i];
            assert(self@.monitors.elements[i as int] == monitor@);
            all.push(MonitorInformation::from_monitor(monitor));
            i = i + 1;
        }
        assert(all@ =~= monitor_information(self@.monitors.elements));
        all
    }

    /// The answer to a question about the state.
    pub fn query(&self, query: StateQuery) -> (r: Result<Answer, Error>)
        ensures
            match answer(self@, query) {
                Ok(answer) => r matches Ok(given) && given@ == answer,
                Err(error) => r matches Err(given) && given == error,
            },
    {
        match query {
            StateQuery::FocusedMonitorIndex => Ok(Answer::Number(self.focused_monitor_idx())),
            StateQuery::FocusedWorkspaceIndex => match self.focused_workspace_idx() {
                Ok(idx) => Ok(Answer::Number(idx)),
                Err(error) => Err(error),
            },
            StateQuery::FocusedContainerIndex => match self.focused_workspace() {
                Ok(workspace) => Ok(Answer::Number(workspace.focused_container_idx())),
                Err(error) => Err(error),
            },
            StateQuery::FocusedWindowIndex => match self.focused_workspace() {
                Ok(workspace) => match workspace.focused_container() {
                    Some(container) => Ok(Answer::Number(container.focused_window_idx())),
                    None => Err(Error::NoContainer),
                },
                Err(error) => Err(error),
            },
            StateQuery::FocusedWorkspaceName => match self.focused_monitor() {
                Some(monitor) => match monitor.focused_workspace_name() {
                    Some(name) => Ok(Answer::Text(name)),
                    None => Ok(Answer::Number(monitor.focused_workspace_idx())),
                },
                None => Err(Error::NoMonitor),
            },
            StateQuery::Version => Ok(Answer::Version),
            StateQuery::FocusedWorkspaceLayout => match self.focused_monitor() {
                Some(monitor) => match monitor.focused_workspace_layout() {
                    Some(Layout::Default(layout)) => Ok(Answer::Layout(layout)),
                    Some(Layout::Custom(_)) => Ok(Answer::Text("Custom".to_owned())),
                    None => Ok(Answer::Text("None".to_owned())),
                },
                None => Err(Error::NoMonitor),
            },
            StateQuery::FocusedContainerKind => match self.focused_workspace() {
                Ok(workspace) => match workspace.focused_container() {
                    Some(container) => if container.windows.elements.len() > 1 {
                        Ok(Answer::Text("Stack".to_owned()))
                    } else {
                        Ok(Answer::Text("Single".to_owned()))
                    },
                    None => Ok(Answer::Text("None".to_owned())),
                },
                Err(error) => Err(error),
            },
        }
    }

    fn reply_with(&self, reply: Reply, screen: &mut Screen) -> (r: Option<
        Result<CommandStage, Error>,
    >)
        ensures
            r is Some,
            (Deed { manager: self@, screen: final(screen)@, result: r->0 }) == replied(
                self@,
                old(screen)@,
                reply@,
            ),
    {
        screen.take_step(Step::Reply(reply));
        Some(change_state::finished())
    }

    /// Carry out a command that is answered.
    pub(crate) fn answer_command(
        &self,
        message: &SocketMessage,
        rules: &RuleSet,
        seen: &Observations,
        screen: &mut Screen,
    ) -> (r: Option<Result<CommandStage, Error>>)
        requires
            rules.wf(),
        ensures
            match answered_by(self@, old(screen)@, *rules, seen@, *message) {
                Some(deed) => r is Some && (Deed {
                    manager: self@,
                    screen: final(screen)@,
                    result: r->0,
                }) == deed,
                None => r is None && final(screen)@ == old(screen)@,
            },
    {
        proof {
            reveal(answered_by);
        }
        match message {
            SocketMessage::State => self.reply_with(Reply::State, screen),
            SocketMessage::GlobalState => self.reply_with(Reply::GlobalState, screen),
            SocketMessage::SessionFloatRules => self.reply_with(Reply::SessionFloatRules, screen),
            SocketMessage::VisibleWindows => {
                let windows = self.visible_windows();
                self.reply_with(Reply::VisibleWindows(windows), screen)
            },
            SocketMessage::MonitorInformation => {
                let monitors = self.monitor_information();
                self.reply_with(Reply::Monitors(monitors), screen)
            },
            SocketMessage::Query(query) => match self.query(*query) {
                Ok(answer) => self.reply_with(Reply::Answer(answer), screen),
                Err(error) => Some(Err(error)),
            },
            SocketMessage::DebugWindow(hwnd) => {
                let mut debug = RuleDebug::default();
                let _ = Window { hwnd: *hwnd }.should_manage(
                    None,
                    &mut debug,
                    rules,
                    &seen.dimmed_hwnds,
                    &screen.desktop,
                    &mut screen.plan,
                );
                self.reply_with(Reply::RuleDebug(debug), screen)
            },
            SocketMessage::ApplicationSpecificConfigurationSchema => self.reply_with(
                Reply::ApplicationSchema,
                screen,
            ),
            SocketMessage::NotificationSchema => self.reply_with(
                Reply::NotificationSchema,
                screen,
            ),
            SocketMessage::SocketSchema | SocketMessage::StaticConfigSchema => self.reply_with(
                Reply::SocketSchema,
                screen,
            ),
            SocketMessage::GenerateStaticConfig => self.reply_with(Reply::StaticConfig, screen),
            _ => None,
        }
    }
}

} // verus!
