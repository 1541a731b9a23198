//! What commands ask the window manager to do.

use vstd::prelude::*;

use crate::change_settings;
use crate::command_ops;
use crate::error::Error;
use crate::geometry::Axis;
use crate::geometry::CycleDirection;
use crate::geometry::DefaultLayout;
use crate::geometry::OperationDirection;
use crate::geometry::Sizing;
use crate::laws::commands;
use crate::laws::commands::Situation;
use crate::laws::places;
use crate::manager_op::ManagerOp;
use crate::plan::StepView;
use crate::process_command;
use crate::session;
use crate::session::SessionView;
use crate::socket_message::CycleFocusWindowContent;
use crate::socket_message::SocketMessage;
use crate::window_manager::ManagerView;
use crate::workspace::WorkspaceLayer;

verus! {

/// Whether a command leaves the state and the session as they are, and asks for operations
/// in their order and nothing else.
pub open spec fn does(situation: Situation, message: SocketMessage, ops: Seq<ManagerOp>) -> bool {
    let turn = situation.after(message);
    let steps = turn.screen.steps;
    let start = situation.screen.steps.len() as int;
    &&& turn.result is Ok
    &&& turn.manager == situation.manager
    &&& turn.session == situation.session
    &&& turn.screen.hiding == situation.screen.hiding
    &&& steps.len() == start + ops.len() + 2
    &&& steps.take(start) == situation.screen.steps
    &&& steps[start] == StepView::RememberState
    &&& forall|i: int|
        0 <= i < ops.len() ==> steps[start + 1 + i] == StepView::Manage(#[trigger] ops[i])
    &&& steps[steps.len() - 1] == StepView::ContinueCommand(commands::finish())
}

/// Whether a command is made of operations.
spec fn is_made_of_ops(manager: ManagerView, message: SocketMessage) -> bool {
    command_ops::plain_op(message) is Some || command_ops::state_ops(manager, message) is Some
}

proof fn no_setting(manager: ManagerView, session: SessionView, message: SocketMessage)
    requires
        is_made_of_ops(manager, message),
    ensures
        change_settings::adjustment(session.settings, message) is None,
{
    reveal(command_ops::plain_op);
    reveal(command_ops::state_ops);
    reveal(change_settings::adjustment);
}

proof fn no_rule(manager: ManagerView, session: SessionView, message: SocketMessage)
    requires
        is_made_of_ops(manager, message),
    ensures
        session.lists.noting(message) is None,
        session::changed_workspace_rules(manager, session.workspace_rules, message) is None,
{
    reveal(command_ops::plain_op);
    reveal(command_ops::state_ops);
}

proof fn no_preference(manager: ManagerView, session: SessionView, message: SocketMessage)
    requires
        is_made_of_ops(manager, message),
    ensures
        session.preferring(message) is None,
        !(message is EagerFocus || message is ToggleWorkspaceLayer
            || message is ToggleIgnoredWindowLayer || message is IgnoreRule
            || message is SessionFloatRule),
{
    reveal(command_ops::plain_op);
    reveal(command_ops::state_ops);
}

proof fn is_done(situation: Situation, message: SocketMessage, ops: Seq<ManagerOp>)
    requires
        situation.is_at_home(),
        command_ops::plain_op(message) is Some ==> ops == seq![command_ops::plain_op(message)->0],
        command_ops::plain_op(message) is None ==> command_ops::state_ops(
            situation.manager,
            message,
        ) == Some(Ok::<Seq<ManagerOp>, Error>(ops)),
    ensures
        does(situation, message, ops),
{
    let screen = situation.screen.taking(StepView::RememberState);
    assert(is_made_of_ops(situation.manager, message));
    no_setting(situation.manager, situation.session, message);
    no_rule(situation.manager, situation.session, message);
    no_preference(situation.manager, situation.session, message);
    assert(process_command::session_feat(situation.manager, situation.session, screen, message)
        is None) by {
        reveal(process_command::session_feat);
    }
    let deed = process_command::operation_deed(situation.manager, screen, message);
    assert(deed is Some && deed->0.manager == situation.manager && deed->0.screen.steps
        =~= screen.steps + command_ops::op_steps(ops) && deed->0.screen.hiding == screen.hiding
        && deed->0.result == Ok::<_, Error>(commands::finish())) by {
        reveal(process_command::operation_deed);
    }
    assert(process_command::state_deed(
        situation.manager,
        situation.session,
        situation.rules,
        screen,
        situation.seen,
        message,
    ) == deed) by {
        reveal(process_command::state_deed);
    }
    reveal(process_command::performed);
    let turn = situation.after(message);
    assert(turn.screen.steps.take(situation.screen.steps.len() as int)
        =~= situation.screen.steps);
}

/// Commands on containers and stacks ask for what they are named after, in the direction that
/// they give.
pub proof fn containers_follow_commands(situation: Situation, direction: CycleDirection)
    requires
        situation.is_at_home(),
    ensures
        does(situation, SocketMessage::Promote, seq![ManagerOp::PromoteContainerToFront]),
        does(situation, SocketMessage::PromoteSwap, seq![ManagerOp::PromoteContainerSwap]),
        does(situation, SocketMessage::PromoteFocus, seq![ManagerOp::PromoteFocusToFront]),
        does(
            situation,
            SocketMessage::CycleMoveWindow(direction),
            seq![ManagerOp::MoveContainerInCycleDirection(direction)],
        ),
        does(situation, SocketMessage::UnstackWindow, seq![ManagerOp::RemoveWindowFromContainer]),
        does(situation, SocketMessage::StackAll, seq![ManagerOp::StackAll]),
        does(situation, SocketMessage::UnstackAll, seq![ManagerOp::UnstackAll(true)]),
        does(
            situation,
            SocketMessage::CycleStack(direction),
            seq![ManagerOp::CycleContainerWindowInDirection(direction)],
        ),
        does(
            situation,
            SocketMessage::CycleStackIndex(direction),
            seq![ManagerOp::CycleContainerWindowIndexInDirection(direction)],
        ),
        does(situation, SocketMessage::ToggleLock, seq![ManagerOp::ToggleLock]),
        does(situation, SocketMessage::ToggleFloat, seq![ManagerOp::ToggleFloat(false)]),
        does(situation, SocketMessage::TogglePin, seq![ManagerOp::TogglePinFloatingWindow]),
        does(
            situation,
            SocketMessage::TogglePinAlwaysOnTop,
            seq![ManagerOp::TogglePinAlwaysOnTop],
        ),
        does(situation, SocketMessage::ToggleMonocle, seq![ManagerOp::ToggleMonocle]),
        does(situation, SocketMessage::ToggleMaximize, seq![ManagerOp::ToggleMaximize]),
{
    reveal(command_ops::plain_op);
    is_done(situation, SocketMessage::Promote, seq![ManagerOp::PromoteContainerToFront]);
    is_done(situation, SocketMessage::PromoteSwap, seq![ManagerOp::PromoteContainerSwap]);
    is_done(situation, SocketMessage::PromoteFocus, seq![ManagerOp::PromoteFocusToFront]);
    is_done(
        situation,
        SocketMessage::CycleMoveWindow(direction),
        seq![ManagerOp::MoveContainerInCycleDirection(direction)],
    );
    is_done(situation, SocketMessage::UnstackWindow, seq![ManagerOp::RemoveWindowFromContainer]);
    is_done(situation, SocketMessage::StackAll, seq![ManagerOp::StackAll]);
    is_done(situation, SocketMessage::UnstackAll, seq![ManagerOp::UnstackAll(true)]);
    is_done(
        situation,
        SocketMessage::CycleStack(direction),
        seq![ManagerOp::CycleContainerWindowInDirection(direction)],
    );
    is_done(
        situation,
        SocketMessage::CycleStackIndex(direction),
        seq![ManagerOp::CycleContainerWindowIndexInDirection(direction)],
    );
    is_done(situation, SocketMessage::ToggleLock, seq![ManagerOp::ToggleLock]);
    is_done(situation, SocketMessage::ToggleFloat, seq![ManagerOp::ToggleFloat(false)]);
    is_done(situation, SocketMessage::TogglePin, seq![ManagerOp::TogglePinFloatingWindow]);
    is_done(
        situation,
        SocketMessage::TogglePinAlwaysOnTop,
        seq![ManagerOp::TogglePinAlwaysOnTop],
    );
    is_done(situation, SocketMessage::ToggleMonocle, seq![ManagerOp::ToggleMonocle]);
    is_done(situation, SocketMessage::ToggleMaximize, seq![ManagerOp::ToggleMaximize]);
}

/// A container is moved or sent to the place that a command gives by its number. A move goes
/// with it, and a sending does not.
pub proof fn containers_go_where_they_are_sent(situation: Situation, m: usize, w: usize)
    requires
        situation.is_at_home(),
    ensures
        does(
            situation,
            SocketMessage::MoveContainerToWorkspaceNumber(w),
            seq![ManagerOp::MoveContainerToWorkspace { workspace: w, follow: true }],
        ),
        does(
            situation,
            SocketMessage::SendContainerToWorkspaceNumber(w),
            seq![ManagerOp::MoveContainerToWorkspace { workspace: w, follow: false }],
        ),
        does(
            situation,
            SocketMessage::MoveContainerToMonitorNumber(m),
            seq![ManagerOp::MoveContainerToMonitor { monitor: m, to: None, follow: true }],
        ),
        does(
            situation,
            SocketMessage::SendContainerToMonitorNumber(m),
            seq![ManagerOp::MoveContainerToMonitor { monitor: m, to: None, follow: false }],
        ),
        does(
            situation,
            SocketMessage::MoveContainerToMonitorWorkspaceNumber(m, w),
            seq![ManagerOp::MoveContainerToMonitor { monitor: m, to: Some(w), follow: true }],
        ),
        does(
            situation,
            SocketMessage::SendContainerToMonitorWorkspaceNumber(m, w),
            seq![ManagerOp::MoveContainerToMonitor { monitor: m, to: Some(w), follow: false }],
        ),
        does(
            situation,
            SocketMessage::MoveWorkspaceToMonitorNumber(m),
            seq![ManagerOp::MoveWorkspaceToMonitor(m)],
        ),
        does(
            situation,
            SocketMessage::SwapWorkspacesToMonitorNumber(m),
            seq![ManagerOp::SwapFocusedMonitor(m)],
        ),
{
    reveal(command_ops::plain_op);
    reveal(command_ops::state_ops);
    is_done(
        situation,
        SocketMessage::MoveContainerToWorkspaceNumber(w),
        seq![ManagerOp::MoveContainerToWorkspace { workspace: w, follow: true }],
    );
    is_done(
        situation,
        SocketMessage::SendContainerToWorkspaceNumber(w),
        seq![ManagerOp::MoveContainerToWorkspace { workspace: w, follow: false }],
    );
    is_done(
        situation,
        SocketMessage::MoveContainerToMonitorNumber(m),
        seq![ManagerOp::MoveContainerToMonitor { monitor: m, to: None, follow: true }],
    );
    is_done(
        situation,
        SocketMessage::SendContainerToMonitorNumber(m),
        seq![ManagerOp::MoveContainerToMonitor { monitor: m, to: None, follow: false }],
    );
    is_done(
        situation,
        SocketMessage::MoveContainerToMonitorWorkspaceNumber(m, w),
        seq![ManagerOp::MoveContainerToMonitor { monitor: m, to: Some(w), follow: true }],
    );
    is_done(
        situation,
        SocketMessage::SendContainerToMonitorWorkspaceNumber(m, w),
        seq![ManagerOp::MoveContainerToMonitor { monitor: m, to: Some(w), follow: false }],
    );
    is_done(
        situation,
        SocketMessage::MoveWorkspaceToMonitorNumber(m),
        seq![ManagerOp::MoveWorkspaceToMonitor(m)],
    );
    is_done(
        situation,
        SocketMessage::SwapWorkspacesToMonitorNumber(m),
        seq![ManagerOp::SwapFocusedMonitor(m)],
    );
}

proof fn is_done_there(situation: Situation, message: SocketMessage, ops: Seq<ManagerOp>)
    requires
        situation.is_at_home(),
        command_ops::targeted(situation.manager, message) == Some(
            Ok::<Seq<ManagerOp>, Error>(ops),
        ),
    ensures
        does(situation, message, ops),
{
    assert(command_ops::plain_op(message) is None) by {
        reveal(command_ops::plain_op);
    }
    assert(command_ops::state_ops(situation.manager, message) == Some(
        Ok::<Seq<ManagerOp>, Error>(ops),
    )) by {
        reveal(command_ops::state_ops);
    }
    is_done(situation, message, ops);
}

/// What a command gives for a workspace by its numbers is asked for at that workspace, and by
/// a name at the first workspace with that name.
pub proof fn workspaces_are_set_up_where_they_are(
    situation: Situation,
    m: usize,
    w: usize,
    name: String,
    size: i32,
    tile: bool,
    layout: DefaultLayout,
    path: String,
    count: usize,
)
    requires
        situation.is_at_home(),
        situation.manager.place_named(name@) == Some((m as int, w as int)),
    ensures
        ({
            let padding = seq![ManagerOp::SetContainerPadding(m, w, size)];
            let margin = seq![ManagerOp::SetWorkspacePadding(m, w, size)];
            let tiling = seq![ManagerOp::SetWorkspaceTiling(m, w, tile)];
            let plain = seq![ManagerOp::SetWorkspaceLayout(m, w, layout)];
            let custom = seq![ManagerOp::SetWorkspaceLayoutCustom(m, w, path)];
            let rule = seq![ManagerOp::AddWorkspaceLayoutRule(m, w, count, layout)];
            let custom_rule = seq![ManagerOp::AddWorkspaceLayoutCustomRule(m, w, count, path)];
            let clear = seq![ManagerOp::ClearWorkspaceLayoutRules(m, w)];
            let go = seq![
                ManagerOp::MoveContainerToMonitor { monitor: m, to: Some(w), follow: true },
            ];
            let send = seq![
                ManagerOp::MoveContainerToMonitor { monitor: m, to: Some(w), follow: false },
            ];
            &&& does(situation, SocketMessage::ContainerPadding(m, w, size), padding)
            &&& does(
                situation,
                SocketMessage::NamedWorkspaceContainerPadding(name, size),
                padding,
            )
            &&& does(situation, SocketMessage::WorkspacePadding(m, w, size), margin)
            &&& does(situation, SocketMessage::NamedWorkspacePadding(name, size), margin)
            &&& does(situation, SocketMessage::WorkspaceTiling(m, w, tile), tiling)
            &&& does(situation, SocketMessage::NamedWorkspaceTiling(name, tile), tiling)
            &&& does(situation, SocketMessage::WorkspaceLayout(m, w, layout), plain)
            &&& does(situation, SocketMessage::NamedWorkspaceLayout(name, layout), plain)
            &&& does(situation, SocketMessage::WorkspaceLayoutCustom(m, w, path), custom)
            &&& does(situation, SocketMessage::NamedWorkspaceLayoutCustom(name, path), custom)
            &&& does(situation, SocketMessage::WorkspaceLayoutRule(m, w, count, layout), rule)
            &&& does(
                situation,
                SocketMessage::NamedWorkspaceLayoutRule(name, count, layout),
                rule,
            )
            &&& does(
                situation,
                SocketMessage::WorkspaceLayoutCustomRule(m, w, count, path),
                custom_rule,
            )
            &&& does(
                situation,
                SocketMessage::NamedWorkspaceLayoutCustomRule(name, count, path),
                custom_rule,
            )
            &&& does(situation, SocketMessage::ClearWorkspaceLayoutRules(m, w), clear)
            &&& does(situation, SocketMessage::ClearNamedWorkspaceLayoutRules(name), clear)
            &&& does(situation, SocketMessage::MoveContainerToNamedWorkspace(name), go)
            &&& does(situation, SocketMessage::SendContainerToNamedWorkspace(name), send)
        }),
{
    let padding = seq![ManagerOp::SetContainerPadding(m, w, size)];
    let margin = seq![ManagerOp::SetWorkspacePadding(m, w, size)];
    let tiling = seq![ManagerOp::SetWorkspaceTiling(m, w, tile)];
    let plain = seq![ManagerOp::SetWorkspaceLayout(m, w, layout)];
    let custom = seq![ManagerOp::SetWorkspaceLayoutCustom(m, w, path)];
    let rule = seq![ManagerOp::AddWorkspaceLayoutRule(m, w, count, layout)];
    let custom_rule = seq![ManagerOp::AddWorkspaceLayoutCustomRule(m, w, count, path)];
    let clear = seq![ManagerOp::ClearWorkspaceLayoutRules(m, w)];
    let go = seq![ManagerOp::MoveContainerToMonitor { monitor: m, to: Some(w), follow: true }];
    let send = seq![ManagerOp::MoveContainerToMonitor { monitor: m, to: Some(w), follow: false }];
    is_done_there(situation, SocketMessage::ContainerPadding(m, w, size), padding);
    is_done_there(situation, SocketMessage::NamedWorkspaceContainerPadding(name, size), padding);
    is_done_there(situation, SocketMessage::WorkspacePadding(m, w, size), margin);
    is_done_there(situation, SocketMessage::NamedWorkspacePadding(name, size), margin);
    is_done_there(situation, SocketMessage::WorkspaceTiling(m, w, tile), tiling);
    is_done_there(situation, SocketMessage::NamedWorkspaceTiling(name, tile), tiling);
    is_done_there(situation, SocketMessage::WorkspaceLayout(m, w, layout), plain);
    is_done_there(situation, SocketMessage::NamedWorkspaceLayout(name, layout), plain);
    is_done_there(situation, SocketMessage::WorkspaceLayoutCustom(m, w, path), custom);
    is_done_there(situation, SocketMessage::NamedWorkspaceLayoutCustom(name, path), custom);
    is_done_there(situation, SocketMessage::WorkspaceLayoutRule(m, w, count, layout), rule);
    is_done_there(situation, SocketMessage::NamedWorkspaceLayoutRule(name, count, layout), rule);
    is_done_there(situation, SocketMessage::WorkspaceLayoutCustomRule(m, w, count, path), custom_rule);
    is_done_there(
        situation,
        SocketMessage::NamedWorkspaceLayoutCustomRule(name, count, path),
        custom_rule,
    );
    is_done_there(situation, SocketMessage::ClearWorkspaceLayoutRules(m, w), clear);
    is_done_there(situation, SocketMessage::ClearNamedWorkspaceLayoutRules(name), clear);
    is_done_there(situation, SocketMessage::MoveContainerToNamedWorkspace(name), go);
    is_done_there(situation, SocketMessage::SendContainerToNamedWorkspace(name), send);
}

/// Commands that give a direction work on the layer that is on top: on containers in the
/// tiling layer, and on floating windows in the floating one.
pub proof fn directions_apply_to_the_layer_on_top(
    situation: Situation,
    direction: OperationDirection,
    around: CycleDirection,
    across: Option<bool>,
)
    requires
        situation.is_at_home(),
        places::has_focus(situation.manager),
    ensures
        ({
            let workspace = places::focused_workspace(situation.manager);
            let monitor = situation.monitor();
            let is_tiling = workspace.layer == WorkspaceLayer::Tiling;
            let cycle = SocketMessage::CycleFocusWindow(
                CycleFocusWindowContent::DirectionWithOverride(around, across),
            );
            &&& is_tiling ==> does(
                situation,
                SocketMessage::FocusWindow(direction),
                seq![ManagerOp::FocusContainerInDirection(direction)],
            )
            &&& !is_tiling ==> does(
                situation,
                SocketMessage::FocusWindow(direction),
                seq![ManagerOp::FocusFloatingWindowInDirection(direction)],
            )
            &&& is_tiling ==> does(
                situation,
                SocketMessage::MoveWindow(direction),
                seq![ManagerOp::MoveContainerInDirection(direction)],
            )
            &&& !is_tiling ==> does(
                situation,
                SocketMessage::MoveWindow(direction),
                seq![ManagerOp::MoveFloatingWindowInDirection(direction)],
            )
            &&& !is_tiling ==> does(
                situation,
                cycle,
                seq![ManagerOp::FocusFloatingWindowInCycleDirection(around)],
            )
            &&& is_tiling && (workspace.containers.elements.len() > 0
                || monitor.pinned_floating.len() == 0) ==> does(
                situation,
                cycle,
                seq![ManagerOp::FocusContainerInCycleDirection(around, across)],
            )
            &&& is_tiling && workspace.empty() && monitor.pinned_floating.len() > 0 ==> does(
                situation,
                cycle,
                seq![ManagerOp::FocusFloatingWindowInCycleDirection(around)],
            )
        }),
{
    reveal(command_ops::plain_op);
    reveal(command_ops::state_ops);
    let workspace = places::focused_workspace(situation.manager);
    let monitor = situation.monitor();
    let cycle = SocketMessage::CycleFocusWindow(
        CycleFocusWindowContent::DirectionWithOverride(around, across),
    );
    if workspace.layer == WorkspaceLayer::Tiling {
        is_done(
            situation,
            SocketMessage::FocusWindow(direction),
            seq![ManagerOp::FocusContainerInDirection(direction)],
        );
        is_done(
            situation,
            SocketMessage::MoveWindow(direction),
            seq![ManagerOp::MoveContainerInDirection(direction)],
        );
        if workspace.empty() && monitor.pinned_floating.len() > 0 {
            is_done(
                situation,
                cycle,
                seq![ManagerOp::FocusFloatingWindowInCycleDirection(around)],
            );
        } else {
            is_done(
                situation,
                cycle,
                seq![ManagerOp::FocusContainerInCycleDirection(around, across)],
            );
        }
    } else {
        is_done(
            situation,
            SocketMessage::FocusWindow(direction),
            seq![ManagerOp::FocusFloatingWindowInDirection(direction)],
        );
        is_done(
            situation,
            SocketMessage::MoveWindow(direction),
            seq![ManagerOp::MoveFloatingWindowInDirection(direction)],
        );
        is_done(
            situation,
            cycle,
            seq![ManagerOp::FocusFloatingWindowInCycleDirection(around)],
        );
    }
}

/// A window is resized by the usual amount: at one edge, or at both edges of an axis, which is
/// laid out once at the end.
pub proof fn windows_are_resized_at_their_edges(
    situation: Situation,
    direction: OperationDirection,
    sizing: Sizing,
)
    requires
        situation.is_at_home(),
        places::has_focus(situation.manager),
        places::focused_workspace(situation.manager).layout is Default,
    ensures
        ({
            let delta = situation.manager.resize_delta;
            let edge = |direction: OperationDirection|
                ManagerOp::ResizeWindow { direction, sizing, delta, update: false };
            let update = ManagerOp::UpdateFocusedWorkspace {
                follow_focus: false,
                trigger_focus: false,
            };
            &&& does(
                situation,
                SocketMessage::ResizeWindowEdge(direction, sizing),
                seq![ManagerOp::ResizeWindow { direction, sizing, delta, update: true }],
            )
            &&& does(
                situation,
                SocketMessage::ResizeWindowAxis(Axis::Horizontal, sizing),
                seq![edge(OperationDirection::Left), edge(OperationDirection::Right), update],
            )
            &&& does(
                situation,
                SocketMessage::ResizeWindowAxis(Axis::Vertical, sizing),
                seq![edge(OperationDirection::Up), edge(OperationDirection::Down), update],
            )
            &&& does(
                situation,
                SocketMessage::ResizeWindowAxis(Axis::HorizontalAndVertical, sizing),
                seq![
                    edge(OperationDirection::Left),
                    edge(OperationDirection::Right),
                    edge(OperationDirection::Up),
                    edge(OperationDirection::Down),
                    update,
                ],
            )
        }),
{
    reveal(command_ops::plain_op);
    reveal(command_ops::state_ops);
    let delta = situation.manager.resize_delta;
    let edge = |direction: OperationDirection|
        ManagerOp::ResizeWindow { direction, sizing, delta, update: false };
    let update = ManagerOp::UpdateFocusedWorkspace { follow_focus: false, trigger_focus: false };
    is_done(
        situation,
        SocketMessage::ResizeWindowEdge(direction, sizing),
        seq![ManagerOp::ResizeWindow { direction, sizing, delta, update: true }],
    );
    is_done(
        situation,
        SocketMessage::ResizeWindowAxis(Axis::Horizontal, sizing),
        seq![edge(OperationDirection::Left), edge(OperationDirection::Right), update],
    );
    is_done(
        situation,
        SocketMessage::ResizeWindowAxis(Axis::Vertical, sizing),
        seq![edge(OperationDirection::Up), edge(OperationDirection::Down), update],
    );
    is_done(
        situation,
        SocketMessage::ResizeWindowAxis(Axis::HorizontalAndVertical, sizing),
        seq![
            edge(OperationDirection::Left),
            edge(OperationDirection::Right),
            edge(OperationDirection::Up),
            edge(OperationDirection::Down),
            update,
        ],
    );
}

/// Commands on layouts, padding and workspaces ask for what they are named after, with the
/// values that they give.
pub proof fn layouts_follow_commands(
    situation: Situation,
    sizing: Sizing,
    adjustment: i32,
    axis: Axis,
    layout: DefaultLayout,
    around: CycleDirection,
    m: usize,
    w: usize,
    text: String,
)
    requires
        situation.is_at_home(),
    ensures
        does(
            situation,
            SocketMessage::AdjustContainerPadding(sizing, adjustment),
            seq![ManagerOp::AdjustContainerPadding(sizing, adjustment)],
        ),
        does(
            situation,
            SocketMessage::AdjustWorkspacePadding(sizing, adjustment),
            seq![ManagerOp::AdjustWorkspacePadding(sizing, adjustment)],
        ),
        does(situation, SocketMessage::ToggleTiling, seq![ManagerOp::ToggleTiling]),
        does(situation, SocketMessage::FlipLayout(axis), seq![ManagerOp::FlipLayout(axis)]),
        does(
            situation,
            SocketMessage::ChangeLayout(layout),
            seq![ManagerOp::ChangeWorkspaceLayout(layout)],
        ),
        does(situation, SocketMessage::CycleLayout(around), seq![ManagerOp::CycleLayout(around)]),
        does(
            situation,
            SocketMessage::ChangeLayoutCustom(text),
            seq![ManagerOp::ChangeWorkspaceCustomLayout(text)],
        ),
        does(
            situation,
            SocketMessage::EnsureWorkspaces(m, w),
            seq![ManagerOp::EnsureWorkspaces(m, w)],
        ),
        does(situation, SocketMessage::NewWorkspace, seq![ManagerOp::NewWorkspace]),
        does(
            situation,
            SocketMessage::WorkspaceName(m, w, text),
            seq![ManagerOp::SetWorkspaceName(m, w, text)],
        ),
        does(situation, SocketMessage::Stop, seq![ManagerOp::Stop(false)]),
        does(situation, SocketMessage::StopIgnoreRestore, seq![ManagerOp::Stop(true)]),
        does(
            situation,
            SocketMessage::ManageFocusedWindow,
            seq![ManagerOp::ManageFocusedWindow],
        ),
        does(
            situation,
            SocketMessage::UnmanageFocusedWindow,
            seq![ManagerOp::UnmanageFocusedWindow],
        ),
{
    reveal(command_ops::plain_op);
    is_done(
        situation,
        SocketMessage::AdjustContainerPadding(sizing, adjustment),
        seq![ManagerOp::AdjustContainerPadding(sizing, adjustment)],
    );
    is_done(
        situation,
        SocketMessage::AdjustWorkspacePadding(sizing, adjustment),
        seq![ManagerOp::AdjustWorkspacePadding(sizing, adjustment)],
    );
    is_done(situation, SocketMessage::ToggleTiling, seq![ManagerOp::ToggleTiling]);
    is_done(situation, SocketMessage::FlipLayout(axis), seq![ManagerOp::FlipLayout(axis)]);
    is_done(
        situation,
        SocketMessage::ChangeLayout(layout),
        seq![ManagerOp::ChangeWorkspaceLayout(layout)],
    );
    is_done(situation, SocketMessage::CycleLayout(around), seq![ManagerOp::CycleLayout(around)]);
    is_done(
        situation,
        SocketMessage::ChangeLayoutCustom(text),
        seq![ManagerOp::ChangeWorkspaceCustomLayout(text)],
    );
    is_done(
        situation,
        SocketMessage::EnsureWorkspaces(m, w),
        seq![ManagerOp::EnsureWorkspaces(m, w)],
    );
    is_done(situation, SocketMessage::NewWorkspace, seq![ManagerOp::NewWorkspace]);
    is_done(
        situation,
        SocketMessage::WorkspaceName(m, w, text),
        seq![ManagerOp::SetWorkspaceName(m, w, text)],
    );
    is_done(situation, SocketMessage::Stop, seq![ManagerOp::Stop(false)]);
    is_done(situation, SocketMessage::StopIgnoreRestore, seq![ManagerOp::Stop(true)]);
    is_done(situation, SocketMessage::ManageFocusedWindow, seq![ManagerOp::ManageFocusedWindow]);
    is_done(
        situation,
        SocketMessage::UnmanageFocusedWindow,
        seq![ManagerOp::UnmanageFocusedWindow],
    );
}

} // verus!
