//! What clients that send commands or subscribe get.

use vstd::prelude::*;

use crate::change_settings;
use crate::change_state;
use crate::command_files;
use crate::command_focus;
use crate::command_ops;
use crate::command_replies;
use crate::laws::commands;
use crate::laws::commands::Situation;
use crate::laws::dimming;
use crate::laws::places;
use crate::monitor::MonitorView;
use crate::plan::StepView;
use crate::process_command;
use crate::process_command::Reception;
use crate::reply::AnswerView;
use crate::reply::ReplyView;
use crate::session;
use crate::session::SessionView;
use crate::socket_message::SocketMessage;
use crate::socket_message::StateQuery;
use crate::socket_message::SubscribeOptions;
use crate::subscriptions::Envelope;
use crate::subscriptions::SubscriptionsView;
use crate::transparency_manager;
use crate::window::ScreenView;
use crate::window_manager::ManagerView;

verus! {

/// Whether a command is answered with a reply, and changes nothing.
pub open spec fn replies(situation: Situation, message: SocketMessage, reply: ReplyView) -> bool {
    let turn = situation.after(message);
    &&& turn.result is Ok
    &&& turn.manager == situation.manager
    &&& turn.session == situation.session
    &&& turn.screen.hiding == situation.screen.hiding
    &&& turn.screen.steps == situation.screen.steps.push(StepView::RememberState).push(
        StepView::Reply(reply),
    ).push(StepView::ContinueCommand(commands::finish()))
}

/// Whether a command is a question.
spec fn is_question(message: SocketMessage) -> bool {
    message is State || message is GlobalState || message is VisibleWindows
        || message is MonitorInformation || message is Query
}

proof fn no_session(manager: ManagerView, session: SessionView, message: SocketMessage)
    requires
        is_question(message),
    ensures
        change_settings::adjustment(session.settings, message) is None,
        session.lists.noting(message) is None,
        session::changed_workspace_rules(manager, session.workspace_rules, message) is None,
        session.preferring(message) is None,
{
    reveal(change_settings::adjustment);
}

proof fn no_operation(manager: ManagerView, screen: ScreenView, message: SocketMessage)
    requires
        is_question(message),
    ensures
        process_command::operation_deed(manager, screen, message) is None,
{
    assert(command_ops::plain_op(message) is None) by {
        reveal(command_ops::plain_op);
    }
    assert(command_ops::state_ops(manager, message) is None) by {
        reveal(command_ops::state_ops);
    }
    reveal(process_command::operation_deed);
}

proof fn no_change(manager: ManagerView, screen: ScreenView, message: SocketMessage)
    requires
        is_question(message),
    ensures
        change_state::called_by(manager, screen, message) is None,
        change_state::changed_by(manager, screen, message) is None,
{
    assert(change_state::called_by(manager, screen, message) is None) by {
        reveal(change_state::called_by);
    }
    assert(manager.set_by(message) is None) by {
        reveal(ManagerView::set_by);
    }
    reveal(change_state::changed_by);
}

proof fn no_focus(situation: Situation, screen: ScreenView, message: SocketMessage)
    requires
        is_question(message),
    ensures
        command_focus::focused_by(situation.manager, screen, situation.seen, message) is None,
{
    reveal(command_focus::focused_by);
}

proof fn no_wait(situation: Situation, screen: ScreenView, message: SocketMessage)
    requires
        is_question(message),
    ensures
        command_files::awaited_by(
            situation.manager,
            screen,
            situation.seen,
            situation.session.settings.custom_ffm,
            message,
        ) is None,
{
    reveal(command_files::awaited_by);
}

proof fn questions(situation: Situation, message: SocketMessage)
    requires
        situation.is_at_home(),
        is_question(message),
    ensures
        situation.after(message) == process_command::turn_of(
            process_command::of_state(
                command_replies::answered_by(
                    situation.manager,
                    situation.screen.taking(StepView::RememberState),
                    situation.rules,
                    situation.seen,
                    message,
                )->0,
                situation.session,
            ),
        ),
{
    let screen = situation.screen.taking(StepView::RememberState);
    no_session(situation.manager, situation.session, message);
    no_operation(situation.manager, screen, message);
    no_change(situation.manager, screen, message);
    no_focus(situation, screen, message);
    no_wait(situation, screen, message);
    assert(process_command::session_feat(situation.manager, situation.session, screen, message)
        is None) by {
        reveal(process_command::session_feat);
    }
    assert(command_replies::answered_by(
        situation.manager,
        screen,
        situation.rules,
        situation.seen,
        message,
    ) is Some) by {
        reveal(command_replies::answered_by);
    }
    assert(process_command::state_deed(
        situation.manager,
        situation.session,
        situation.rules,
        screen,
        situation.seen,
        message,
    ) == command_replies::answered_by(
        situation.manager,
        screen,
        situation.rules,
        situation.seen,
        message,
    )) by {
        reveal(process_command::state_deed);
    }
    reveal(process_command::performed);
}

/// A question about where the focus is is answered with the index that has it, and one about the
/// workspace with its name, or its index where it has none, and with its layout.
pub proof fn questions_about_the_focus_are_answered(situation: Situation)
    requires
        situation.is_at_home(),
        places::has_focus(situation.manager),
    ensures
        ({
            let manager = situation.manager;
            let monitor = situation.monitor();
            let workspace = places::focused_workspace(manager);
            let containers = workspace.containers;
            let number = |query: StateQuery, number: usize|
                replies(
                    situation,
                    SocketMessage::Query(query),
                    ReplyView::Answer(AnswerView::Number(number)),
                );
            let text = |query: StateQuery, text: Seq<char>|
                replies(
                    situation,
                    SocketMessage::Query(query),
                    ReplyView::Answer(AnswerView::Text(text)),
                );
            &&& number(StateQuery::FocusedMonitorIndex, manager.monitors.focused)
            &&& number(StateQuery::FocusedWorkspaceIndex, monitor.workspaces.focused)
            &&& number(StateQuery::FocusedContainerIndex, containers.focused)
            &&& containers.focused < containers.elements.len() ==> number(
                StateQuery::FocusedWindowIndex,
                containers.elements[containers.focused as int].windows.focused,
            )
            &&& workspace.name is Some ==> text(
                StateQuery::FocusedWorkspaceName,
                workspace.name->0@,
            )
            &&& workspace.name is None ==> number(
                StateQuery::FocusedWorkspaceName,
                monitor.workspaces.focused,
            )
            &&& !workspace.tile ==> text(StateQuery::FocusedWorkspaceLayout, "None"@)
            &&& workspace.tile && workspace.layout is Custom ==> text(
                StateQuery::FocusedWorkspaceLayout,
                "Custom"@,
            )
            &&& workspace.tile && workspace.layout is Default ==> replies(
                situation,
                SocketMessage::Query(StateQuery::FocusedWorkspaceLayout),
                ReplyView::Answer(AnswerView::Layout(workspace.layout->Default_0)),
            )
            &&& containers.focused >= containers.elements.len() ==> text(
                StateQuery::FocusedContainerKind,
                "None"@,
            )
            &&& containers.focused < containers.elements.len() ==> text(
                StateQuery::FocusedContainerKind,
                if containers.elements[containers.focused as int].windows.elements.len() > 1 {
                    "Stack"@
                } else {
                    "Single"@
                },
            )
        }),
{
    reveal(command_replies::answered_by);
    questions(situation, SocketMessage::Query(StateQuery::FocusedMonitorIndex));
    questions(situation, SocketMessage::Query(StateQuery::FocusedWorkspaceIndex));
    questions(situation, SocketMessage::Query(StateQuery::FocusedContainerIndex));
    questions(situation, SocketMessage::Query(StateQuery::FocusedWindowIndex));
    questions(situation, SocketMessage::Query(StateQuery::FocusedWorkspaceName));
    questions(situation, SocketMessage::Query(StateQuery::FocusedWorkspaceLayout));
    questions(situation, SocketMessage::Query(StateQuery::FocusedContainerKind));
}

proof fn seen_on_monitors(monitors: Seq<MonitorView>, m: int, hwnd: isize)
    requires
        0 <= m < monitors.len(),
        forall|i: int|
            0 <= i < monitors.len() ==> (#[trigger] monitors[i]).workspaces.focused
                < monitors[i].workspaces.elements.len(),
    ensures
        ({
            let visible = command_replies::visible_windows(monitors);
            let workspaces = monitors[m].workspaces;
            &&& visible.len() == monitors.len()
            &&& visible[m].device_id == monitors[m].device_id
            &&& transparency_manager::hwnds_of(visible[m].windows).contains(hwnd)
                == dimming::is_seen(workspaces.elements[workspaces.focused as int], hwnd)
        }),
    decreases monitors.len(),
{
    let before = monitors.drop_last();
    let last = monitors.last().workspaces;
    assert forall|i: int| 0 <= i < before.len() implies (#[trigger] before[i]).workspaces.focused
        < before[i].workspaces.elements.len() by {
        assert(before[i] == monitors[i]);
    }
    dimming::visible_is_seen(last.elements[last.focused as int], hwnd);
    let visible = command_replies::visible_windows(monitors);
    if before.len() > 0 {
        let k = if m < before.len() {
            m
        } else {
            0
        };
        seen_on_monitors(before, k, hwnd);
        assert(before[k] == monitors[k]);
    }
    assert(command_replies::visible_windows(before).len() == before.len());
    assert(visible[before.len() as int].windows == last.elements[last.focused as int].visible());
    if m < before.len() {
        assert(visible[m] == command_replies::visible_windows(before)[m]);
    }
}

/// The question for the visible windows is answered for each monitor, in their order, with the
/// windows that are seen on the workspace that it shows, and no others.
pub proof fn the_visible_windows_are_answered(situation: Situation, m: int, hwnd: isize)
    requires
        situation.is_at_home(),
        0 <= m < situation.manager.monitors.elements.len(),
        forall|i: int|
            0 <= i < situation.manager.monitors.elements.len() ==> (
            #[trigger] situation.manager.monitors.elements[i]).workspaces.focused
                < situation.manager.monitors.elements[i].workspaces.elements.len(),
    ensures
        ({
            let monitors = situation.manager.monitors.elements;
            let steps = situation.after(SocketMessage::VisibleWindows).screen.steps;
            let start = situation.screen.steps.len() as int;
            let workspaces = monitors[m].workspaces;
            &&& steps.len() == start + 3
            &&& steps[start + 1] matches StepView::Reply(ReplyView::VisibleWindows(visible))
                && visible.len() == monitors.len() && visible[m].device_id == monitors[m].device_id
                && transparency_manager::hwnds_of(visible[m].windows).contains(hwnd)
                == dimming::is_seen(workspaces.elements[workspaces.focused as int], hwnd)
        }),
{
    reveal(command_replies::answered_by);
    questions(situation, SocketMessage::VisibleWindows);
    seen_on_monitors(situation.manager.monitors.elements, m, hwnd);
}

/// The question for the state is answered with it, and the one for the monitors with what
/// identifies each of them, in their order.
pub proof fn the_state_is_answered(situation: Situation, m: int)
    requires
        situation.is_at_home(),
        0 <= m < situation.manager.monitors.elements.len(),
    ensures
        replies(situation, SocketMessage::State, ReplyView::State),
        replies(situation, SocketMessage::GlobalState, ReplyView::GlobalState),
        ({
            let monitors = situation.manager.monitors.elements;
            let steps = situation.after(SocketMessage::MonitorInformation).screen.steps;
            let start = situation.screen.steps.len() as int;
            steps[start + 1] matches StepView::Reply(ReplyView::Monitors(all)) && all.len()
                == monitors.len() && all[m].id == monitors[m].id && all[m].device_id
                == monitors[m].device_id && all[m].size == monitors[m].size && all[m].name
                == monitors[m].name
        }),
{
    reveal(command_replies::answered_by);
    questions(situation, SocketMessage::State);
    questions(situation, SocketMessage::GlobalState);
    questions(situation, SocketMessage::MonitorInformation);
}

/// A command is carried out unless the manager is paused. A paused manager still takes those that
/// end the pause or the program or ask for the state, after which the connection ends.
pub proof fn paused_managers_take_few_commands(message: SocketMessage)
    ensures
        process_command::reception(false, message) == Reception::Process,
        message is TogglePause || message is Stop || message is State || message is GlobalState
            ==> process_command::reception(true, message) == Reception::ProcessAndClose,
        !(message is TogglePause || message is Stop || message is State || message is GlobalState)
            ==> process_command::reception(true, message) == Reception::IgnoreAndClose,
{
}

/// A subscriber at a socket is sent every notification, unless it only wants to know of what
/// changed the state: then it is sent those, and those that override the state. Subscribing and
/// leaving concerns no other subscriber.
pub proof fn subscribers_are_sent_notifications(
    subscriptions: SubscriptionsView,
    socket: Seq<char>,
    other: Seq<char>,
    options: SubscribeOptions,
    envelope: Envelope,
)
    requires
        socket != other,
    ensures
        ({
            let plain = subscriptions.adding_socket(socket);
            let chosen = plain.with_options(socket, options);
            let left = subscriptions.removing_socket(socket);
            let matters = envelope.state_has_been_modified || envelope.is_override;
            &&& !subscriptions.options.contains_key(socket) ==> plain.sends(socket, envelope)
            &&& chosen.sends(socket, envelope) == (matters || !options.filter_state_changes)
            &&& chosen.sends(other, envelope) == subscriptions.sends(other, envelope)
            &&& left.sends(other, envelope) == subscriptions.sends(other, envelope)
            &&& !left.sends(socket, envelope)
            &&& subscriptions.adding_pipe(socket).pipes.contains(socket)
            &&& !subscriptions.removing_pipe(socket).pipes.contains(socket)
            &&& subscriptions.adding_pipe(socket).pipes.contains(other)
                == subscriptions.pipes.contains(other)
            &&& subscriptions.removing_pipe(socket).pipes.contains(other)
                == subscriptions.pipes.contains(other)
            &&& chosen.pipes == subscriptions.pipes
        }),
{
}

} // verus!
