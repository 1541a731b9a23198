//! What commands change of the state directly.

use vstd::prelude::*;

use crate::behaviour::MonocleFocusBehaviour;
use crate::behaviour::MoveBehaviour;
use crate::behaviour::OperationBehaviour;
use crate::behaviour::WindowManagementBehaviour;
use crate::change_settings;
use crate::change_state;
use crate::command_ops;
use crate::container::ContainerView;
use crate::geometry::Rect;
use crate::laws::commands;
use crate::laws::commands::Situation;
use crate::laws::places;
use crate::manager_op::ManagerOp;
use crate::monitor::MonitorView;
use crate::plan::StepView;
use crate::process_command;
use crate::ring::RingView;
use crate::session;
use crate::session::SessionView;
use crate::socket_message::SocketMessage;
use crate::window::ScreenView;
use crate::window_manager::ManagerView;
use crate::workspace::WindowContainerBehaviour;
use crate::workspace::WorkspaceView;

verus! {

/// Whether a command changes the state directly.
spec fn is_change(message: SocketMessage) -> bool {
    match message {
        SocketMessage::LockMonitorWorkspaceContainer(..)
        | SocketMessage::UnlockMonitorWorkspaceContainer(..)
        | SocketMessage::WorkspaceWorkAreaOffset(..)
        | SocketMessage::MonitorWorkAreaOffset(..)
        | SocketMessage::WorkAreaOffset(_)
        | SocketMessage::TogglePause
        | SocketMessage::EnforceWorkspaceRules
        | SocketMessage::ToggleWindowBasedWorkAreaOffset
        | SocketMessage::ToggleWorkspaceWindowContainerBehaviour
        | SocketMessage::ToggleWorkspaceFloatOverride
        | SocketMessage::MouseFollowsFocus(_)
        | SocketMessage::ToggleMouseFollowsFocus
        | SocketMessage::ResizeDelta(_)
        | SocketMessage::ToggleWindowContainerBehaviour
        | SocketMessage::ToggleFloatOverride
        | SocketMessage::ToggleCrossMonitorMoveBehaviour
        | SocketMessage::CrossMonitorMoveBehaviour(_)
        | SocketMessage::ToggleMonocleFocusBehaviour
        | SocketMessage::MonocleFocusBehaviour(_)
        | SocketMessage::UnmanagedWindowOperationBehaviour(_) => true,
        _ => false,
    }
}

proof fn no_setting(session: SessionView, message: SocketMessage)
    requires
        is_change(message),
    ensures
        change_settings::adjustment(session.settings, message) is None,
{
    reveal(change_settings::adjustment);
}

proof fn no_rule(manager: ManagerView, session: SessionView, message: SocketMessage)
    requires
        is_change(message),
    ensures
        session.lists.noting(message) is None,
        session::changed_workspace_rules(manager, session.workspace_rules, message) is None,
        session.preferring(message) is None,
{
}

proof fn no_operation(manager: ManagerView, screen: ScreenView, message: SocketMessage)
    requires
        is_change(message),
    ensures
        process_command::operation_deed(manager, screen, message) is None,
        change_state::called_by(manager, screen, message) is None,
{
    assert(command_ops::plain_op(message) is None) by {
        reveal(command_ops::plain_op);
    }
    assert(command_ops::state_ops(manager, message) is None) by {
        reveal(command_ops::state_ops);
    }
    assert(change_state::called_by(manager, screen, message) is None) by {
        reveal(change_state::called_by);
    }
    reveal(process_command::operation_deed);
}

proof fn commands_that_change(situation: Situation, message: SocketMessage)
    requires
        situation.is_at_home(),
        is_change(message),
        change_state::changed_by(
            situation.manager,
            situation.screen.taking(StepView::RememberState),
            message,
        ) is Some,
    ensures
        situation.after(message) == process_command::turn_of(
            process_command::of_state(
                change_state::changed_by(
                    situation.manager,
                    situation.screen.taking(StepView::RememberState),
                    message,
                )->0,
                situation.session,
            ),
        ),
{
    let screen = situation.screen.taking(StepView::RememberState);
    no_setting(situation.session, message);
    no_rule(situation.manager, situation.session, message);
    no_operation(situation.manager, screen, message);
    assert(process_command::session_feat(situation.manager, situation.session, screen, message)
        is None) by {
        reveal(process_command::session_feat);
    }
    assert(process_command::state_deed(
        situation.manager,
        situation.session,
        situation.rules,
        screen,
        situation.seen,
        message,
    ) == change_state::changed_by(situation.manager, screen, message)) by {
        reveal(process_command::state_deed);
    }
    reveal(process_command::performed);
}

/// Whether a command changes the state and nothing else, and asks for nothing.
pub open spec fn sets(situation: Situation, message: SocketMessage, manager: ManagerView) -> bool {
    situation.asks_for(situation.after(message), manager, None, commands::finish())
}

proof fn is_set(situation: Situation, message: SocketMessage)
    requires
        situation.is_at_home(),
        is_change(message),
        situation.manager.set_by(message) is Some,
        message is MouseFollowsFocus || message is ToggleMouseFollowsFocus
            || message is ResizeDelta || message is ToggleWindowContainerBehaviour
            || message is ToggleFloatOverride || message is ToggleCrossMonitorMoveBehaviour
            || message is CrossMonitorMoveBehaviour || message is ToggleMonocleFocusBehaviour
            || message is MonocleFocusBehaviour || message is UnmanagedWindowOperationBehaviour,
    ensures
        sets(situation, message, situation.manager.set_by(message)->0),
{
    reveal(change_state::changed_by);
    commands_that_change(situation, message);
}

/// Commands that set a behaviour of the manager set it to what they give and change nothing
/// else, and commands that toggle one turn it to the other.
pub proof fn behaviours_are_set(
    situation: Situation,
    enable: bool,
    delta: i32,
    move_behaviour: MoveBehaviour,
    monocle: MonocleFocusBehaviour,
    unmanaged: OperationBehaviour,
)
    requires
        situation.is_at_home(),
    ensures
        ({
            let manager = situation.manager;
            let behaviour = manager.window_management_behaviour;
            &&& sets(
                situation,
                SocketMessage::MouseFollowsFocus(enable),
                ManagerView { mouse_follows_focus: enable, ..manager },
            )
            &&& sets(
                situation,
                SocketMessage::ToggleMouseFollowsFocus,
                ManagerView { mouse_follows_focus: !manager.mouse_follows_focus, ..manager },
            )
            &&& sets(
                situation,
                SocketMessage::ResizeDelta(delta),
                ManagerView { resize_delta: delta, ..manager },
            )
            &&& sets(
                situation,
                SocketMessage::ToggleFloatOverride,
                ManagerView {
                    window_management_behaviour: WindowManagementBehaviour {
                        float_override: !behaviour.float_override,
                        ..behaviour
                    },
                    ..manager
                },
            )
            &&& sets(
                situation,
                SocketMessage::CrossMonitorMoveBehaviour(move_behaviour),
                ManagerView { cross_monitor_move_behaviour: move_behaviour, ..manager },
            )
            &&& sets(
                situation,
                SocketMessage::MonocleFocusBehaviour(monocle),
                ManagerView { monocle_focus_behaviour: monocle, ..manager },
            )
            &&& sets(
                situation,
                SocketMessage::UnmanagedWindowOperationBehaviour(unmanaged),
                ManagerView { unmanaged_window_operation_behaviour: unmanaged, ..manager },
            )
        }),
{
    reveal(ManagerView::set_by);
    is_set(situation, SocketMessage::MouseFollowsFocus(enable));
    is_set(situation, SocketMessage::ToggleMouseFollowsFocus);
    is_set(situation, SocketMessage::ResizeDelta(delta));
    is_set(situation, SocketMessage::ToggleFloatOverride);
    is_set(situation, SocketMessage::CrossMonitorMoveBehaviour(move_behaviour));
    is_set(situation, SocketMessage::MonocleFocusBehaviour(monocle));
    is_set(situation, SocketMessage::UnmanagedWindowOperationBehaviour(unmanaged));
}

/// The commands that toggle how windows are added, moved across monitors and focused in a
/// monocle container turn the one of two behaviours into the other. A move that does nothing
/// stays one.
pub proof fn behaviours_turn_into_the_other(situation: Situation)
    requires
        situation.is_at_home(),
    ensures
        ({
            let manager = situation.manager;
            let behaviour = manager.window_management_behaviour;
            let creates = behaviour.current_behaviour == WindowContainerBehaviour::Create;
            let cycles = manager.monocle_focus_behaviour == MonocleFocusBehaviour::Cycle;
            &&& sets(
                situation,
                SocketMessage::ToggleWindowContainerBehaviour,
                ManagerView {
                    window_management_behaviour: WindowManagementBehaviour {
                        current_behaviour: if creates {
                            WindowContainerBehaviour::Append
                        } else {
                            WindowContainerBehaviour::Create
                        },
                        ..behaviour
                    },
                    ..manager
                },
            )
            &&& sets(
                situation,
                SocketMessage::ToggleMonocleFocusBehaviour,
                ManagerView {
                    monocle_focus_behaviour: if cycles {
                        MonocleFocusBehaviour::NoOp
                    } else {
                        MonocleFocusBehaviour::Cycle
                    },
                    ..manager
                },
            )
            &&& sets(
                situation,
                SocketMessage::ToggleCrossMonitorMoveBehaviour,
                ManagerView {
                    cross_monitor_move_behaviour: if manager.cross_monitor_move_behaviour
                        == MoveBehaviour::Swap {
                        MoveBehaviour::Insert
                    } else if manager.cross_monitor_move_behaviour == MoveBehaviour::Insert {
                        MoveBehaviour::Swap
                    } else {
                        MoveBehaviour::NoOp
                    },
                    ..manager
                },
            )
        }),
{
    reveal(ManagerView::set_by);
    is_set(situation, SocketMessage::ToggleWindowContainerBehaviour);
    is_set(situation, SocketMessage::ToggleMonocleFocusBehaviour);
    is_set(situation, SocketMessage::ToggleCrossMonitorMoveBehaviour);
}

/// A pause is begun or ended, and all workspaces are laid out with what was resized. A new
/// work area has them laid out without. Rules are enforced on windows that were moved before,
/// too.
pub proof fn the_whole_state_is_changed(situation: Situation, rect: Rect)
    requires
        situation.is_at_home(),
    ensures
        situation.asks_for(
            situation.after(SocketMessage::TogglePause),
            ManagerView { is_paused: !situation.manager.is_paused, ..situation.manager },
            Some(ManagerOp::RetileAll(true)),
            commands::finish(),
        ),
        situation.asks_for(
            situation.after(SocketMessage::WorkAreaOffset(rect)),
            ManagerView { work_area_offset: Some(rect), ..situation.manager },
            Some(ManagerOp::RetileAll(false)),
            commands::finish(),
        ),
        situation.asks_for(
            situation.after(SocketMessage::EnforceWorkspaceRules),
            ManagerView { already_moved_window_handles: Set::empty(), ..situation.manager },
            Some(ManagerOp::EnforceWorkspaceRules),
            commands::finish(),
        ),
{
    reveal(change_state::changed_by);
    commands_that_change(situation, SocketMessage::TogglePause);
    commands_that_change(situation, SocketMessage::WorkAreaOffset(rect));
    commands_that_change(situation, SocketMessage::EnforceWorkspaceRules);
}

/// The state with a monitor in the place of another one.
pub open spec fn with_monitor(manager: ManagerView, m: int, monitor: MonitorView) -> ManagerView {
    ManagerView {
        monitors: RingView {
            elements: manager.monitors.elements.update(m, monitor),
            focused: manager.monitors.focused,
        },
        ..manager
    }
}

/// The state with a workspace in the place of another one.
pub open spec fn with_workspace(
    manager: ManagerView,
    m: int,
    w: int,
    workspace: WorkspaceView,
) -> ManagerView {
    let monitor = manager.monitors.elements[m];
    with_monitor(
        manager,
        m,
        MonitorView {
            workspaces: RingView {
                elements: monitor.workspaces.elements.update(w, workspace),
                focused: monitor.workspaces.focused,
            },
            ..monitor
        },
    )
}

/// The work area of one monitor or of one workspace is set, and only what shows it is laid out
/// anew. Nothing happens where there is no such monitor or workspace.
pub proof fn work_areas_are_set(situation: Situation, m: usize, w: usize, rect: Rect)
    requires
        situation.is_at_home(),
    ensures
        ({
            let monitors = situation.manager.monitors.elements;
            let of_monitor = situation.after(SocketMessage::MonitorWorkAreaOffset(m, rect));
            let of_workspace = situation.after(SocketMessage::WorkspaceWorkAreaOffset(m, w, rect));
            let has_workspace = m < monitors.len() && w < monitors[m as int].workspaces.elements.len();
            &&& m < monitors.len() ==> situation.asks_for(
                of_monitor,
                with_monitor(
                    situation.manager,
                    m as int,
                    MonitorView { work_area_offset: Some(rect), ..monitors[m as int] },
                ),
                Some(
                    ManagerOp::RetileWorkspace {
                        monitor: m,
                        workspace: monitors[m as int].workspaces.focused,
                        keep_resizes: false,
                    },
                ),
                commands::finish(),
            )
            &&& m >= monitors.len() ==> situation.asks_for(
                of_monitor,
                situation.manager,
                None,
                commands::finish(),
            )
            &&& has_workspace ==> situation.asks_for(
                of_workspace,
                with_workspace(
                    situation.manager,
                    m as int,
                    w as int,
                    WorkspaceView {
                        work_area_offset: Some(rect),
                        ..monitors[m as int].workspaces.elements[w as int]
                    },
                ),
                Some(
                    ManagerOp::RetileWorkspace { monitor: m, workspace: w, keep_resizes: false },
                ),
                commands::finish(),
            )
            &&& !has_workspace ==> situation.asks_for(
                of_workspace,
                situation.manager,
                None,
                commands::finish(),
            )
        }),
{
    reveal(change_state::changed_by);
    reveal(change_state::offset_monitor);
    reveal(change_state::offset_workspace);
    commands_that_change(situation, SocketMessage::MonitorWorkAreaOffset(m, rect));
    commands_that_change(situation, SocketMessage::WorkspaceWorkAreaOffset(m, w, rect));
}

/// A container is locked and unlocked where it is, and no other one.
pub proof fn containers_are_locked_and_unlocked(situation: Situation, m: usize, w: usize, c: usize)
    requires
        situation.is_at_home(),
        m < situation.manager.monitors.elements.len(),
        w < situation.manager.monitors.elements[m as int].workspaces.elements.len(),
    ensures
        ({
            let workspace =
                situation.manager.monitors.elements[m as int].workspaces.elements[w as int];
            let locked = |locked: bool|
                with_workspace(
                    situation.manager,
                    m as int,
                    w as int,
                    WorkspaceView {
                        containers: RingView {
                            elements: workspace.containers.elements.update(
                                c as int,
                                ContainerView {
                                    locked,
                                    ..workspace.containers.elements[c as int]
                                },
                            ),
                            focused: workspace.containers.focused,
                        },
                        ..workspace
                    },
                );
            let lock = SocketMessage::LockMonitorWorkspaceContainer(m, w, c);
            let unlock = SocketMessage::UnlockMonitorWorkspaceContainer(m, w, c);
            &&& c < workspace.containers.elements.len() ==> sets(situation, lock, locked(true))
            &&& c < workspace.containers.elements.len() ==> sets(situation, unlock, locked(false))
            &&& c >= workspace.containers.elements.len() ==> sets(
                situation,
                lock,
                situation.manager,
            ) && sets(situation, unlock, situation.manager)
        }),
{
    reveal(change_state::changed_by);
    reveal(change_state::locking);
    commands_that_change(situation, SocketMessage::LockMonitorWorkspaceContainer(m, w, c));
    commands_that_change(situation, SocketMessage::UnlockMonitorWorkspaceContainer(m, w, c));
}

/// The commands that toggle a setting of the focused workspace turn it around, from the one
/// for all workspaces where the workspace has none of its own, and change nothing else.
pub proof fn settings_of_the_workspace_turn_around(situation: Situation)
    requires
        situation.is_at_home(),
        places::has_focus(situation.manager),
    ensures
        ({
            let manager = situation.manager;
            let m = manager.monitors.focused;
            let w = manager.monitors.elements[m as int].workspaces.focused;
            let workspace = places::focused_workspace(manager);
            let behaviour = if workspace.window_container_behaviour is Some {
                workspace.window_container_behaviour->0
            } else {
                manager.window_management_behaviour.current_behaviour
            };
            let floats = if workspace.float_override is Some {
                workspace.float_override->0
            } else {
                manager.window_management_behaviour.float_override
            };
            &&& situation.asks_for(
                situation.after(SocketMessage::ToggleWindowBasedWorkAreaOffset),
                with_workspace(
                    manager,
                    m as int,
                    w as int,
                    WorkspaceView {
                        apply_window_based_work_area_offset:
                            !workspace.apply_window_based_work_area_offset,
                        ..workspace
                    },
                ),
                Some(
                    ManagerOp::RetileWorkspace { monitor: m, workspace: w, keep_resizes: true },
                ),
                commands::finish(),
            )
            &&& sets(
                situation,
                SocketMessage::ToggleWorkspaceWindowContainerBehaviour,
                with_workspace(
                    manager,
                    m as int,
                    w as int,
                    WorkspaceView {
                        window_container_behaviour: Some(
                            if behaviour == WindowContainerBehaviour::Create {
                                WindowContainerBehaviour::Append
                            } else {
                                WindowContainerBehaviour::Create
                            },
                        ),
                        ..workspace
                    },
                ),
            )
            &&& sets(
                situation,
                SocketMessage::ToggleWorkspaceFloatOverride,
                with_workspace(
                    manager,
                    m as int,
                    w as int,
                    WorkspaceView { float_override: Some(!floats), ..workspace },
                ),
            )
        }),
{
    reveal(change_state::changed_by);
    reveal(change_state::workspace_change);
    commands_that_change(situation, SocketMessage::ToggleWindowBasedWorkAreaOffset);
    commands_that_change(situation, SocketMessage::ToggleWorkspaceWindowContainerBehaviour);
    commands_that_change(situation, SocketMessage::ToggleWorkspaceFloatOverride);
}

} // verus!
