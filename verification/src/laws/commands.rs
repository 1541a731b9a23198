//! What commands that go from monitor to monitor and from workspace to workspace ask for.

use vstd::prelude::*;

use crate::change_settings;
use crate::change_state;
use crate::command_focus;
use crate::command_ops;
use crate::error::Error;
use crate::geometry::CycleDirection;
use crate::manager_op::ManagerOp;
use crate::monitor::MonitorView;
use crate::plan::CommandStage;
use crate::plan::Notice;
use crate::plan::Signal;
use crate::plan::StepView;
use crate::process_command;
use crate::process_command::CommandTurn;
use crate::ring::RingView;
use crate::rule_set::RuleSet;
use crate::session::SessionView;
use crate::socket_message::SocketMessage;
use crate::turn::ObservationsView;
use crate::window::ScreenView;
use crate::window_manager::ManagerView;
use crate::workspace::WorkspaceView;

verus! {

/// What is there when a command comes in.
pub struct Situation {
    pub manager: ManagerView,
    pub session: SessionView,
    pub rules: RuleSet,
    pub screen: ScreenView,
    pub seen: ObservationsView,
}

impl Situation {
    /// What comes of a command.
    pub open spec fn after(self, message: SocketMessage) -> CommandTurn {
        process_command::commanded(
            self.manager,
            self.session,
            self.rules,
            self.screen,
            self.seen,
            message,
        )
    }

    /// What comes of a command that goes on at a stage.
    pub open spec fn after_stage(self, message: SocketMessage, stage: CommandStage) -> CommandTurn {
        process_command::resumed_command(
            self.manager,
            self.session,
            self.screen,
            self.seen,
            message,
            stage,
        )
    }

    /// Whether no other virtual desktop is known to be shown than the own one.
    pub open spec fn is_at_home(self) -> bool {
        self.manager.virtual_desktop_id is None || self.seen.virtual_desktop is None
            || self.manager.virtual_desktop_id->0 == self.seen.virtual_desktop->0
    }

    /// Whether there is a focused monitor.
    pub open spec fn has_monitor(self) -> bool {
        self.manager.monitors.focused < self.manager.monitors.elements.len()
    }

    /// The focused monitor.
    pub open spec fn monitor(self) -> MonitorView {
        self.manager.monitors.elements[self.manager.monitors.focused as int]
    }

    /// Whether the monitor under the cursor takes the place of the focused one: it is
    /// another one, and shows an empty workspace.
    pub open spec fn goes_to_cursor(self) -> bool {
        let monitors = self.manager.monitors;
        &&& self.seen.cursor_monitor is Some
        &&& self.seen.cursor_monitor->0 != monitors.focused
        &&& self.seen.cursor_monitor->0 < monitors.elements.len()
        &&& monitors.elements[self.seen.cursor_monitor->0 as int].workspaces.focused
            < monitors.elements[self.seen.cursor_monitor->0 as int].workspaces.elements.len()
        &&& ({
            let shown = monitors.elements[self.seen.cursor_monitor->0 as int].workspaces;
            let workspace = shown.elements[shown.focused as int];
            workspace.containers.elements.len() == 0 && workspace.floating_windows.elements.len()
                == 0 && workspace.monocle_container is None && workspace.maximized_window is None
        })
    }

    /// The state with the focus on a monitor.
    pub open spec fn focusing(self, monitor: usize) -> ManagerView {
        ManagerView {
            monitors: RingView {
                elements: self.manager.monitors.elements,
                focused: monitor,
            },
            ..self.manager
        }
    }

    /// Whether a turn leaves a state behind, changes nothing of the session, and asks for
    /// an operation at most, after which the command goes on at a stage.
    pub open spec fn asks_for(
        self,
        turn: CommandTurn,
        manager: ManagerView,
        op: Option<ManagerOp>,
        stage: CommandStage,
    ) -> bool {
        &&& turn.result is Ok
        &&& turn.manager == manager
        &&& turn.session == self.session
        &&& turn.screen.desktop == self.screen.desktop
        &&& turn.screen.hiding == self.screen.hiding
        &&& turn.screen.steps == (match op {
            Some(op) => self.screen.steps.push(StepView::RememberState).push(StepView::Manage(op)),
            None => self.screen.steps.push(StepView::RememberState),
        }).push(StepView::ContinueCommand(stage))
    }

    /// Whether a turn fails with an error, and has changed nothing.
    pub open spec fn fails(self, turn: CommandTurn, error: Error) -> bool {
        &&& turn.result == Err::<(), Error>(error)
        &&& turn.manager == self.manager
        &&& turn.session == self.session
        &&& turn.screen.steps == self.screen.steps.push(StepView::RememberState)
    }
}

/// The end of a command.
pub open spec fn finish() -> CommandStage {
    CommandStage::Finish { force_borders: false }
}

/// The index after an index in a direction, going round.
pub open spec fn one_on(direction: CycleDirection, idx: int, len: int) -> int {
    match direction {
        CycleDirection::Next => (idx + 1) % len,
        CycleDirection::Previous => (idx + len - 1) % len,
    }
}

/// Whether a command goes from monitor to monitor or from workspace to workspace.
spec fn is_about_focus(message: SocketMessage) -> bool {
    match message {
        SocketMessage::FocusMonitorNumber(_)
        | SocketMessage::CycleFocusMonitor(_)
        | SocketMessage::FocusMonitorAtCursor
        | SocketMessage::FocusStackWindow(_)
        | SocketMessage::FocusMonitorWorkspaceNumber(..)
        | SocketMessage::FocusNamedWorkspace(_)
        | SocketMessage::FocusWorkspaceNumbers(_)
        | SocketMessage::CycleMoveContainerToWorkspace(_)
        | SocketMessage::CycleSendContainerToWorkspace(_)
        | SocketMessage::CycleMoveContainerToMonitor(_)
        | SocketMessage::CycleSendContainerToMonitor(_)
        | SocketMessage::CycleMoveWorkspaceToMonitor(_)
        | SocketMessage::MoveContainerToLastWorkspace
        | SocketMessage::SendContainerToLastWorkspace
        | SocketMessage::FocusLastWorkspace
        | SocketMessage::CycleFocusWorkspace(_)
        | SocketMessage::CycleFocusEmptyWorkspace(_)
        | SocketMessage::CloseWorkspace
        | SocketMessage::FocusWorkspaceNumber(_) => true,
        _ => false,
    }
}

proof fn no_setting(session: SessionView, message: SocketMessage)
    requires
        is_about_focus(message),
    ensures
        change_settings::adjustment(session.settings, message) is None,
{
    reveal(change_settings::adjustment);
}

proof fn no_session(
    manager: ManagerView,
    session: SessionView,
    screen: ScreenView,
    message: SocketMessage,
)
    requires
        is_about_focus(message),
    ensures
        process_command::session_feat(manager, session, screen, message) is None,
{
    no_setting(session, message);
    reveal(process_command::session_feat);
}

proof fn no_operation(manager: ManagerView, screen: ScreenView, message: SocketMessage)
    requires
        is_about_focus(message),
    ensures
        process_command::operation_deed(manager, screen, message) is None,
{
    assert(command_ops::plain_op(message) is None) by {
        reveal(command_ops::plain_op);
    }
    assert(command_ops::state_ops(manager, message) is None) by {
        reveal(command_ops::state_ops);
    }
    reveal(process_command::operation_deed);
}

proof fn no_call(manager: ManagerView, screen: ScreenView, message: SocketMessage)
    requires
        is_about_focus(message),
    ensures
        change_state::called_by(manager, screen, message) is None,
{
    reveal(change_state::called_by);
}

proof fn no_change(manager: ManagerView, screen: ScreenView, message: SocketMessage)
    requires
        is_about_focus(message),
    ensures
        change_state::changed_by(manager, screen, message) is None,
{
    assert(manager.set_by(message) is None) by {
        reveal(ManagerView::set_by);
    }
    reveal(change_state::changed_by);
}

proof fn some_focus(
    manager: ManagerView,
    screen: ScreenView,
    seen: ObservationsView,
    message: SocketMessage,
)
    requires
        is_about_focus(message),
    ensures
        command_focus::focused_by(manager, screen, seen, message) is Some,
{
    reveal(command_focus::focused_by);
}

proof fn commands_about_the_focus(situation: Situation, message: SocketMessage)
    requires
        situation.is_at_home(),
        is_about_focus(message),
    ensures
        situation.after(message) == process_command::turn_of(
            process_command::of_state(
                command_focus::focused_by(
                    situation.manager,
                    situation.screen.taking(StepView::RememberState),
                    situation.seen,
                    message,
                )->0,
                situation.session,
            ),
        ),
{
    let screen = situation.screen.taking(StepView::RememberState);
    no_session(situation.manager, situation.session, screen, message);
    no_operation(situation.manager, screen, message);
    no_call(situation.manager, screen, message);
    no_change(situation.manager, screen, message);
    some_focus(situation.manager, screen, situation.seen, message);
    assert(process_command::state_deed(
        situation.manager,
        situation.session,
        situation.rules,
        screen,
        situation.seen,
        message,
    ) == command_focus::focused_by(situation.manager, screen, situation.seen, message)) by {
        reveal(process_command::state_deed);
    }
    reveal(process_command::performed);
}

proof fn going_round(direction: CycleDirection, idx: int, len: int)
    requires
        0 <= idx < len,
    ensures
        direction.next_of(idx, len) == one_on(direction, idx, len),
        0 <= one_on(direction, idx, len) < len,
        len > 1 ==> one_on(direction, idx, len) != idx,
{
    match direction {
        CycleDirection::Next => {
            if idx + 1 == len {
                vstd::arithmetic::div_mod::lemma_mod_self_0(len);
            } else {
                vstd::arithmetic::div_mod::lemma_small_mod((idx + 1) as nat, len as nat);
            }
        },
        CycleDirection::Previous => {
            if idx == 0 {
                vstd::arithmetic::div_mod::lemma_small_mod((len - 1) as nat, len as nat);
            } else {
                vstd::arithmetic::div_mod::lemma_mod_add_multiples_vanish(idx - 1, len);
                vstd::arithmetic::div_mod::lemma_small_mod((idx - 1) as nat, len as nat);
            }
        },
    }
}

/// The commands that cycle through the workspaces of a monitor go one on from the focused
/// one, and round at the end: to focus it, to move the focused container to it, or to send
/// it there without following. With more than one workspace that is never the focused one
/// itself. The focus works from the monitor under the cursor, where that one shows nothing.
pub proof fn workspaces_are_cycled_one_by_one(situation: Situation, direction: CycleDirection)
    requires
        situation.is_at_home(),
        situation.has_monitor(),
        situation.monitor().workspaces.focused < situation.monitor().workspaces.elements.len(),
        situation.monitor().workspaces.elements.len() <= usize::MAX,
    ensures
        ({
            let workspaces = situation.monitor().workspaces;
            let next = one_on(
                direction,
                workspaces.focused as int,
                workspaces.elements.len() as int,
            );
            &&& workspaces.elements.len() > 1 ==> next != workspaces.focused
            &&& 0 <= next < workspaces.elements.len()
            &&& !situation.goes_to_cursor() ==> situation.asks_for(
                situation.after(SocketMessage::CycleFocusWorkspace(direction)),
                situation.manager,
                Some(ManagerOp::FocusWorkspace(next as usize)),
                finish(),
            )
            &&& situation.asks_for(
                situation.after(SocketMessage::CycleMoveContainerToWorkspace(direction)),
                situation.manager,
                Some(
                    ManagerOp::MoveContainerToWorkspace { workspace: next as usize, follow: true },
                ),
                finish(),
            )
            &&& situation.asks_for(
                situation.after(SocketMessage::CycleSendContainerToWorkspace(direction)),
                situation.manager,
                Some(
                    ManagerOp::MoveContainerToWorkspace { workspace: next as usize, follow: false },
                ),
                finish(),
            )
        }),
{
    reveal(command_focus::focused_by);
    let workspaces = situation.monitor().workspaces;
    going_round(direction, workspaces.focused as int, workspaces.elements.len() as int);
    commands_about_the_focus(situation, SocketMessage::CycleFocusWorkspace(direction));
    commands_about_the_focus(situation, SocketMessage::CycleMoveContainerToWorkspace(direction));
    commands_about_the_focus(situation, SocketMessage::CycleSendContainerToWorkspace(direction));
}

/// The commands that cycle through the monitors go one on from the focused one, and round at
/// the end: to focus it and lay its workspace out, to move the focused container there with
/// the focus or without, or to move the focused workspace there. With more than one monitor
/// that is never the focused one itself.
pub proof fn monitors_are_cycled_one_by_one(situation: Situation, direction: CycleDirection)
    requires
        situation.is_at_home(),
        situation.has_monitor(),
        situation.manager.monitors.elements.len() <= usize::MAX,
    ensures
        ({
            let monitors = situation.manager.monitors;
            let next = one_on(direction, monitors.focused as int, monitors.elements.len() as int);
            &&& monitors.elements.len() > 1 ==> next != monitors.focused
            &&& 0 <= next < monitors.elements.len()
            &&& situation.asks_for(
                situation.after(SocketMessage::CycleFocusMonitor(direction)),
                situation.focusing(next as usize),
                Some(
                    ManagerOp::UpdateFocusedWorkspace {
                        follow_focus: situation.manager.mouse_follows_focus,
                        trigger_focus: true,
                    },
                ),
                finish(),
            )
            &&& situation.asks_for(
                situation.after(SocketMessage::CycleMoveContainerToMonitor(direction)),
                situation.manager,
                Some(
                    ManagerOp::MoveContainerToMonitor {
                        monitor: next as usize,
                        to: None,
                        follow: true,
                    },
                ),
                finish(),
            )
            &&& situation.asks_for(
                situation.after(SocketMessage::CycleSendContainerToMonitor(direction)),
                situation.manager,
                Some(
                    ManagerOp::MoveContainerToMonitor {
                        monitor: next as usize,
                        to: None,
                        follow: false,
                    },
                ),
                finish(),
            )
            &&& situation.asks_for(
                situation.after(SocketMessage::CycleMoveWorkspaceToMonitor(direction)),
                situation.manager,
                Some(ManagerOp::MoveWorkspaceToMonitor(next as usize)),
                finish(),
            )
        }),
{
    reveal(command_focus::focused_by);
    let monitors = situation.manager.monitors;
    going_round(direction, monitors.focused as int, monitors.elements.len() as int);
    commands_about_the_focus(situation, SocketMessage::CycleFocusMonitor(direction));
    commands_about_the_focus(situation, SocketMessage::CycleMoveContainerToMonitor(direction));
    commands_about_the_focus(situation, SocketMessage::CycleSendContainerToMonitor(direction));
    commands_about_the_focus(situation, SocketMessage::CycleMoveWorkspaceToMonitor(direction));
}

/// Where the monitor under the cursor shows nothing, the commands that focus a workspace of
/// the monitor first focus that monitor, and then work there as they do from it.
pub proof fn empty_monitors_under_the_cursor_come_first(
    situation: Situation,
    direction: CycleDirection,
    idx: usize,
)
    requires
        situation.is_at_home(),
        situation.has_monitor(),
        situation.goes_to_cursor(),
    ensures
        ({
            let there = Situation {
                manager: situation.focusing(situation.seen.cursor_monitor->0),
                ..situation
            };
            &&& situation.after(SocketMessage::CycleFocusWorkspace(direction)) == there.after(
                SocketMessage::CycleFocusWorkspace(direction),
            )
            &&& situation.after(SocketMessage::CycleFocusEmptyWorkspace(direction))
                == there.after(SocketMessage::CycleFocusEmptyWorkspace(direction))
            &&& situation.after(SocketMessage::FocusWorkspaceNumber(idx)) == there.after(
                SocketMessage::FocusWorkspaceNumber(idx),
            )
            &&& situation.after(SocketMessage::FocusLastWorkspace) == there.after(
                SocketMessage::FocusLastWorkspace,
            )
            &&& situation.after(SocketMessage::CloseWorkspace) == there.after(
                SocketMessage::CloseWorkspace,
            )
            &&& !there.goes_to_cursor()
            &&& there.is_at_home()
        }),
{
    let there = Situation {
        manager: situation.focusing(situation.seen.cursor_monitor->0),
        ..situation
    };
    works_from_the_cursor(situation, there, SocketMessage::CycleFocusWorkspace(direction));
    works_from_the_cursor(situation, there, SocketMessage::CycleFocusEmptyWorkspace(direction));
    works_from_the_cursor(situation, there, SocketMessage::FocusWorkspaceNumber(idx));
    works_from_the_cursor(situation, there, SocketMessage::FocusLastWorkspace);
    works_from_the_cursor(situation, there, SocketMessage::CloseWorkspace);
}

proof fn works_from_the_cursor(situation: Situation, there: Situation, message: SocketMessage)
    requires
        situation.is_at_home(),
        situation.goes_to_cursor(),
        there == (Situation {
            manager: situation.focusing(situation.seen.cursor_monitor->0),
            ..situation
        }),
        message is CycleFocusWorkspace || message is CycleFocusEmptyWorkspace
            || message is FocusWorkspaceNumber || message is FocusLastWorkspace
            || message is CloseWorkspace,
    ensures
        situation.after(message) == there.after(message),
{
    commands_about_the_focus(situation, message);
    commands_about_the_focus(there, message);
    let screen = situation.screen.taking(StepView::RememberState);
    assert(situation.manager.at_cursor(situation.seen) == there.manager);
    assert(there.manager.at_cursor(there.seen) == there.manager);
    assert(command_focus::focused_by(situation.manager, screen, situation.seen, message)
        == command_focus::focused_by(there.manager, screen, there.seen, message)) by {
        reveal(command_focus::focused_by);
    }
}

/// A monitor or a workspace on it that is named by its number gets the focus, where there is
/// such a monitor. Nothing is asked for where it has the focus already.
pub proof fn places_are_focused_by_number(situation: Situation, m: usize, w: usize)
    requires
        situation.is_at_home(),
        situation.has_monitor(),
    ensures
        ({
            let len = situation.manager.monitors.elements.len();
            let is_there = situation.manager.monitors.focused == m
                && situation.monitor().workspaces.focused == w;
            let to_monitor = situation.after(SocketMessage::FocusMonitorNumber(m));
            let to_workspace = situation.after(SocketMessage::FocusMonitorWorkspaceNumber(m, w));
            let in_place = situation.after(SocketMessage::FocusWorkspaceNumber(w));
            &&& m < len ==> situation.asks_for(
                to_monitor,
                situation.focusing(m),
                Some(
                    ManagerOp::UpdateFocusedWorkspace {
                        follow_focus: situation.manager.mouse_follows_focus,
                        trigger_focus: true,
                    },
                ),
                finish(),
            )
            &&& m >= len ==> situation.fails(to_monitor, Error::NoMonitorAt(m))
            &&& is_there ==> situation.asks_for(
                to_workspace,
                situation.manager,
                None,
                finish(),
            )
            &&& !is_there && m < len ==> situation.asks_for(
                to_workspace,
                situation.focusing(m),
                Some(ManagerOp::FocusWorkspace(w)),
                finish(),
            )
            &&& !is_there && m >= len ==> situation.fails(to_workspace, Error::NoMonitorAt(m))
            &&& !situation.goes_to_cursor() ==> situation.asks_for(
                in_place,
                situation.manager,
                if situation.monitor().workspaces.focused == w {
                    None
                } else {
                    Some(ManagerOp::FocusWorkspace(w))
                },
                finish(),
            )
        }),
{
    reveal(command_focus::focused_by);
    commands_about_the_focus(situation, SocketMessage::FocusMonitorNumber(m));
    commands_about_the_focus(situation, SocketMessage::FocusMonitorWorkspaceNumber(m, w));
    commands_about_the_focus(situation, SocketMessage::FocusWorkspaceNumber(w));
}

/// The monitor under the cursor gets the focus by command, and a window of a stack by its
/// number after that.
pub proof fn the_monitor_under_the_cursor_is_focused(situation: Situation, idx: usize)
    requires
        situation.is_at_home(),
    ensures
        ({
            let len = situation.manager.monitors.elements.len();
            let cursor = situation.seen.cursor_monitor;
            let to_monitor = situation.after(SocketMessage::FocusMonitorAtCursor);
            let to_window = situation.after(SocketMessage::FocusStackWindow(idx));
            let there = if cursor is Some {
                situation.focusing(cursor->0)
            } else {
                situation.manager
            };
            let is_known = cursor is None || cursor->0 < len;
            &&& is_known ==> situation.asks_for(to_monitor, there, None, finish())
            &&& is_known ==> situation.asks_for(
                to_window,
                there,
                Some(ManagerOp::FocusContainerWindow(idx)),
                finish(),
            )
            &&& !is_known ==> situation.fails(to_monitor, Error::NoMonitorAt(cursor->0))
                && situation.fails(to_window, Error::NoMonitorAt(cursor->0))
        }),
{
    reveal(command_focus::focused_by);
    commands_about_the_focus(situation, SocketMessage::FocusMonitorAtCursor);
    commands_about_the_focus(situation, SocketMessage::FocusStackWindow(idx));
}

/// The commands about the workspace that was shown last go to the one that the monitor
/// remembers, where it remembers one, and have it remember the one that is shown now.
pub proof fn the_last_workspace_is_gone_back_to(situation: Situation)
    requires
        situation.is_at_home(),
        situation.has_monitor(),
        !situation.goes_to_cursor(),
    ensures
        ({
            let last = situation.monitor().last_focused_workspace;
            let note = CommandStage::NoteLastWorkspace(situation.monitor().workspaces.focused);
            let focus = situation.after(SocketMessage::FocusLastWorkspace);
            let move_there = situation.after(SocketMessage::MoveContainerToLastWorkspace);
            let send_there = situation.after(SocketMessage::SendContainerToLastWorkspace);
            &&& last is Some ==> situation.asks_for(
                focus,
                situation.manager,
                Some(ManagerOp::FocusWorkspace(last->0)),
                note,
            )
            &&& last is Some ==> situation.asks_for(
                move_there,
                situation.manager,
                Some(ManagerOp::MoveContainerToWorkspace { workspace: last->0, follow: true }),
                note,
            )
            &&& last is Some ==> situation.asks_for(
                send_there,
                situation.manager,
                Some(ManagerOp::MoveContainerToWorkspace { workspace: last->0, follow: false }),
                note,
            )
            &&& last is None ==> situation.asks_for(focus, situation.manager, None, note)
                && situation.asks_for(move_there, situation.manager, None, note)
                && situation.asks_for(send_there, situation.manager, None, note)
        }),
{
    reveal(command_focus::focused_by);
    commands_about_the_focus(situation, SocketMessage::FocusLastWorkspace);
    commands_about_the_focus(situation, SocketMessage::MoveContainerToLastWorkspace);
    commands_about_the_focus(situation, SocketMessage::SendContainerToLastWorkspace);
}

/// The focused monitor remembers which workspace it showed before, and nothing else changes.
pub proof fn the_last_workspace_is_remembered(
    situation: Situation,
    message: SocketMessage,
    idx: usize,
)
    requires
        situation.has_monitor(),
    ensures
        ({
            let turn = situation.after_stage(message, CommandStage::NoteLastWorkspace(idx));
            let m = situation.manager.monitors.focused as int;
            let monitors = situation.manager.monitors;
            &&& turn.result is Ok
            &&& turn.manager.monitors.focused == monitors.focused
            &&& turn.manager.monitors.elements == monitors.elements.update(
                m,
                MonitorView { last_focused_workspace: Some(idx), ..monitors.elements[m] },
            )
            &&& turn.session == situation.session
            &&& turn.screen.steps == situation.screen.steps.push(
                StepView::ContinueCommand(finish()),
            )
        }),
{
    reveal(process_command::gone_on);
    reveal(command_focus::note_last_workspace);
}

/// The focused workspace is closed exactly where it is not the only one, has no name and
/// holds nothing. The other workspaces stay in their order, and the one before it is asked
/// to be focused.
pub proof fn only_empty_nameless_workspaces_are_closed(situation: Situation)
    requires
        situation.is_at_home(),
        situation.has_monitor(),
        !situation.goes_to_cursor(),
        situation.monitor().workspaces.focused < situation.monitor().workspaces.elements.len(),
    ensures
        ({
            let workspaces = situation.monitor().workspaces;
            let focused = workspaces.focused as int;
            let workspace = workspaces.elements[focused];
            let closes = workspaces.elements.len() > 1 && workspace.name is None
                && workspace.containers.elements.len() == 0
                && workspace.floating_windows.elements.len() == 0
                && workspace.monocle_container is None && workspace.maximized_window is None;
            let turn = situation.after(SocketMessage::CloseWorkspace);
            let m = situation.manager.monitors.focused as int;
            let monitors = situation.manager.monitors.elements;
            let closed = ManagerView {
                monitors: RingView {
                    elements: monitors.update(
                        m,
                        MonitorView {
                            workspaces: RingView {
                                elements: workspaces.elements.remove(focused),
                                focused: workspaces.focused,
                            },
                            ..monitors[m]
                        },
                    ),
                    focused: situation.manager.monitors.focused,
                },
                ..situation.manager
            };
            &&& closes ==> situation.asks_for(
                turn,
                closed,
                Some(
                    ManagerOp::FocusWorkspace(
                        if focused > 0 {
                            (focused - 1) as usize
                        } else {
                            0
                        },
                    )),
                finish(),
            )
            &&& !closes ==> situation.asks_for(turn, situation.manager, None, finish())
        }),
{
    reveal(command_focus::focused_by);
    commands_about_the_focus(situation, SocketMessage::CloseWorkspace);
}

/// The index some steps after an index in a direction, going round.
pub open spec fn steps_on(direction: CycleDirection, idx: int, steps: int, len: int) -> int {
    match direction {
        CycleDirection::Next => (idx + steps) % len,
        CycleDirection::Previous => (idx + len - steps) % len,
    }
}

proof fn stepping(direction: CycleDirection, idx: int, steps: int, len: int)
    requires
        0 <= idx < len,
        1 <= steps <= len,
    ensures
        steps_on(direction, one_on(direction, idx, len), steps - 1, len) == steps_on(
            direction,
            idx,
            steps,
            len,
        ),
        0 <= one_on(direction, idx, len) < len,
        steps_on(direction, idx, 1, len) == one_on(direction, idx, len),
{
    going_round(direction, idx, len);
    match direction {
        CycleDirection::Next => {
            if idx + 1 == len {
                vstd::arithmetic::div_mod::lemma_mod_self_0(len);
                vstd::arithmetic::div_mod::lemma_mod_add_multiples_vanish(steps - 1, len);
            } else {
                vstd::arithmetic::div_mod::lemma_small_mod((idx + 1) as nat, len as nat);
            }
        },
        CycleDirection::Previous => {
            if idx == 0 {
                vstd::arithmetic::div_mod::lemma_small_mod((len - 1) as nat, len as nat);
                vstd::arithmetic::div_mod::lemma_mod_add_multiples_vanish(len - steps, len);
            } else {
                vstd::arithmetic::div_mod::lemma_mod_add_multiples_vanish(idx - 1, len);
                vstd::arithmetic::div_mod::lemma_small_mod((idx - 1) as nat, len as nat);
            }
        },
    }
}

proof fn nearest_empty(
    workspaces: Seq<WorkspaceView>,
    direction: CycleDirection,
    idx: int,
    distance: int,
    steps: nat,
)
    requires
        0 <= idx < workspaces.len(),
        1 <= distance <= steps <= workspaces.len(),
        workspaces[steps_on(direction, idx, distance, workspaces.len() as int)].empty(),
        forall|k: int|
            1 <= k < distance ==> !workspaces[#[trigger] steps_on(
                direction,
                idx,
                k,
                workspaces.len() as int,
            )].empty(),
    ensures
        command_focus::next_empty(workspaces, direction, idx, steps) == Some(
            steps_on(direction, idx, distance, workspaces.len() as int),
        ),
    decreases distance,
{
    let len = workspaces.len() as int;
    let next = one_on(direction, idx, len);
    going_round(direction, idx, len);
    stepping(direction, idx, 1, len);
    stepping(direction, idx, distance, len);
    if distance > 1 {
        assert(!workspaces[steps_on(direction, idx, 1, len)].empty());
        assert forall|k: int| 1 <= k < distance - 1 implies !workspaces[#[trigger] steps_on(
            direction,
            next,
            k,
            len,
        )].empty() by {
            stepping(direction, idx, k + 1, len);
            assert(!workspaces[steps_on(direction, idx, k + 1, len)].empty());
        }
        nearest_empty(workspaces, direction, next, distance - 1, (steps - 1) as nat);
    }
}

/// The next empty workspace in a direction gets the focus: the nearest one, the focused one
/// itself last of all.
pub proof fn the_nearest_empty_workspace_is_focused(
    situation: Situation,
    direction: CycleDirection,
    distance: int,
)
    requires
        situation.is_at_home(),
        situation.has_monitor(),
        !situation.goes_to_cursor(),
        situation.monitor().workspaces.focused < situation.monitor().workspaces.elements.len(),
        1 <= distance <= situation.monitor().workspaces.elements.len() <= usize::MAX,
        ({
            let workspaces = situation.monitor().workspaces.elements;
            let focused = situation.monitor().workspaces.focused as int;
            let len = workspaces.len() as int;
            &&& workspaces[steps_on(direction, focused, distance, len)].empty()
            &&& forall|k: int|
                1 <= k < distance ==> !workspaces[#[trigger] steps_on(
                    direction,
                    focused,
                    k,
                    len,
                )].empty()
        }),
    ensures
        situation.asks_for(
            situation.after(SocketMessage::CycleFocusEmptyWorkspace(direction)),
            situation.manager,
            Some(
                ManagerOp::FocusWorkspace(
                    steps_on(
                        direction,
                        situation.monitor().workspaces.focused as int,
                        distance,
                        situation.monitor().workspaces.elements.len() as int,
                    ) as usize,
                )),
            finish(),
        ),
{
    reveal(command_focus::focused_by);
    let workspaces = situation.monitor().workspaces;
    nearest_empty(
        workspaces.elements,
        direction,
        workspaces.focused as int,
        distance,
        workspaces.elements.len(),
    );
    commands_about_the_focus(situation, SocketMessage::CycleFocusEmptyWorkspace(direction));
}

/// A workspace that is named gets the focus, and its monitor: the first one with the name,
/// by the order of the monitors and of their workspaces. Nothing happens for a name that
/// none has.
pub proof fn workspaces_are_focused_by_name(situation: Situation, name: String, m: int, w: int)
    requires
        situation.is_at_home(),
        situation.manager.monitors.elements.len() <= usize::MAX,
    ensures
        ({
            let monitors = situation.manager.monitors.elements;
            let turn = situation.after(SocketMessage::FocusNamedWorkspace(name));
            let is_first = 0 <= m < monitors.len() && 0 <= w < monitors[m].workspaces.elements.len()
                && w <= usize::MAX && has_name(monitors[m].workspaces.elements[w], name) && (
            forall|k: int|
                0 <= k < w ==> !has_name(
                    #[trigger] monitors[m].workspaces.elements[k],
                    name,
                )) && (forall|i: int, k: int|
                0 <= i < m && 0 <= k < monitors[i].workspaces.elements.len() ==> !has_name(
                    #[trigger] monitors[i].workspaces.elements[k],
                    name,
                ));
            let is_nowhere = forall|i: int, k: int|
                0 <= i < monitors.len() && 0 <= k < monitors[i].workspaces.elements.len()
                    ==> !has_name(#[trigger] monitors[i].workspaces.elements[k], name);
            &&& is_first ==> situation.asks_for(
                turn,
                situation.focusing(m as usize),
                Some(ManagerOp::FocusWorkspace(w as usize)),
                finish(),
            )
            &&& is_nowhere ==> situation.asks_for(turn, situation.manager, None, finish())
        }),
{
    reveal(command_focus::focused_by);
    commands_about_the_focus(situation, SocketMessage::FocusNamedWorkspace(name));
    let monitors = situation.manager.monitors.elements;
    if 0 <= m < monitors.len() && 0 <= w < monitors[m].workspaces.elements.len() && has_name(
        monitors[m].workspaces.elements[w],
        name,
    ) && (forall|k: int|
        0 <= k < w ==> !has_name(#[trigger] monitors[m].workspaces.elements[k], name)) && (forall|
        i: int,
        k: int,
    |
        0 <= i < m && 0 <= k < monitors[i].workspaces.elements.len() ==> !has_name(
            #[trigger] monitors[i].workspaces.elements[k],
            name,
        )) {
        first_named(monitors, name, m, w, 0);
    }
    if forall|i: int, k: int|
        0 <= i < monitors.len() && 0 <= k < monitors[i].workspaces.elements.len() ==> !has_name(
            #[trigger] monitors[i].workspaces.elements[k],
            name,
        ) {
        none_named(monitors, name, 0);
    }
}

/// Whether a workspace has a name.
pub open spec fn has_name(workspace: WorkspaceView, name: String) -> bool {
    workspace.name is Some && workspace.name->0@ == name@
}

proof fn named_on_monitor(workspaces: Seq<WorkspaceView>, name: String, w: int, from: int)
    requires
        0 <= from <= w <= workspaces.len(),
        w < workspaces.len() ==> has_name(workspaces[w], name),
        forall|k: int| from <= k < w ==> !has_name(#[trigger] workspaces[k], name),
    ensures
        command_ops::named_workspace(workspaces, name@, from) == (if w < workspaces.len() {
            Some(w)
        } else {
            None
        }),
    decreases w - from,
{
    if from < w {
        assert(!has_name(workspaces[from], name));
        named_on_monitor(workspaces, name, w, from + 1);
    }
}

proof fn first_named(monitors: Seq<MonitorView>, name: String, m: int, w: int, from: int)
    requires
        0 <= from <= m < monitors.len(),
        0 <= w < monitors[m].workspaces.elements.len(),
        has_name(monitors[m].workspaces.elements[w], name),
        forall|k: int| 0 <= k < w ==> !has_name(#[trigger] monitors[m].workspaces.elements[k], name),
        forall|i: int, k: int|
            0 <= i < m && 0 <= k < monitors[i].workspaces.elements.len() ==> !has_name(
                #[trigger] monitors[i].workspaces.elements[k],
                name,
            ),
    ensures
        command_ops::named_place(monitors, name@, from) == Some((m, w)),
    decreases m - from,
{
    let workspaces = monitors[from].workspaces.elements;
    if from < m {
        assert forall|k: int| 0 <= k < workspaces.len() implies !has_name(
            #[trigger] workspaces[k],
            name,
        ) by {
            assert(!has_name(monitors[from].workspaces.elements[k], name));
        }
        named_on_monitor(workspaces, name, workspaces.len() as int, 0);
        first_named(monitors, name, m, w, from + 1);
    } else {
        assert forall|k: int| 0 <= k < w implies !has_name(#[trigger] workspaces[k], name) by {
            assert(!has_name(monitors[m].workspaces.elements[k], name));
        }
        named_on_monitor(workspaces, name, w, 0);
    }
}

proof fn none_named(monitors: Seq<MonitorView>, name: String, from: int)
    requires
        0 <= from <= monitors.len(),
        forall|i: int, k: int|
            0 <= i < monitors.len() && 0 <= k < monitors[i].workspaces.elements.len() ==> !has_name(
                #[trigger] monitors[i].workspaces.elements[k],
                name,
            ),
    ensures
        command_ops::named_place(monitors, name@, from) is None,
    decreases monitors.len() - from,
{
    if from < monitors.len() {
        let workspaces = monitors[from].workspaces.elements;
        assert forall|k: int| 0 <= k < workspaces.len() implies !has_name(
            #[trigger] workspaces[k],
            name,
        ) by {
            assert(!has_name(monitors[from].workspaces.elements[k], name));
        }
        named_on_monitor(workspaces, name, workspaces.len() as int, 0);
        none_named(monitors, name, from + 1);
    }
}

/// A command is followed by a report: where the state has changed the places of the windows
/// are written down, the subscribers are told of the command and of whether the state has
/// changed, and borders, dimming and stackbars follow, the borders all anew where that is
/// asked for. The state itself stays.
pub proof fn commands_are_reported(
    situation: Situation,
    message: SocketMessage,
    force_borders: bool,
)
    ensures
        ({
            let turn = situation.after_stage(message, CommandStage::Finish { force_borders });
            let modified = situation.seen.modified;
            let reports = seq![
                StepView::Notify(Notice::Command, modified),
                StepView::Send(
                    if force_borders {
                        Signal::ForceUpdateBorders
                    } else {
                        Signal::UpdateBorders(None)
                    },
                ),
                StepView::Send(Signal::UpdateTransparency),
                StepView::Send(Signal::UpdateStackbars),
            ];
            &&& turn.result is Ok
            &&& turn.manager == situation.manager
            &&& turn.session == situation.session
            &&& turn.screen.steps == (if modified {
                situation.screen.steps.push(StepView::Manage(ManagerOp::UpdateKnownHwnds))
            } else {
                situation.screen.steps
            }) + reports
        }),
{
}

} // verus!
