//! What commands ask of the window system directly, and what is done for a monitor that is named.

use vstd::prelude::*;

use crate::behaviour::FocusFollowsMouseImplementation;
use crate::change_settings;
use crate::change_state;
use crate::command_files;
use crate::command_focus;
use crate::command_ops;
use crate::laws::commands;
use crate::laws::commands::Situation;
use crate::laws::places;
use crate::manager_op::ManagerOp;
use crate::monitor::MonitorView;
use crate::plan::Call;
use crate::plan::CommandStage;
use crate::plan::Resume;
use crate::plan::StepView;
use crate::process_command;
use crate::process_event;
use crate::session;
use crate::session::SessionView;
use crate::socket_message::SocketMessage;
use crate::turn::ContextView;
use crate::window::HidingBehaviour;
use crate::window::ScreenView;
use crate::window_manager::ManagerView;

verus! {

/// Whether a command asks something of the window system, or waits for something outside.
spec fn is_request(message: SocketMessage) -> bool {
    message is WindowHidingBehaviour || message is Retile || message is RetileWithResizeDimensions
        || message is Close || message is FocusFollowsMouse || message is QuickSave
        || message is QuickLoad || message is Save || message is Load
        || message is ReplaceConfiguration || message is AddSubscriberPipe
}

proof fn no_session(manager: ManagerView, session: SessionView, message: SocketMessage)
    requires
        is_request(message),
    ensures
        change_settings::adjustment(session.settings, message) is None,
        session.lists.noting(message) is None,
        session::changed_workspace_rules(manager, session.workspace_rules, message) is None,
        session.preferring(message) is None,
{
    reveal(change_settings::adjustment);
}

proof fn no_operation(manager: ManagerView, screen: ScreenView, message: SocketMessage)
    requires
        is_request(message),
    ensures
        process_command::operation_deed(manager, screen, message) is None,
{
    assert(command_ops::plain_op(message) is None) by {
        reveal(command_ops::plain_op);
    }
    assert(command_ops::state_ops(manager, message) is None) by {
        reveal(command_ops::state_ops);
    }
    reveal(process_command::operation_deed);
}

proof fn no_change(situation: Situation, screen: ScreenView, message: SocketMessage)
    requires
        is_request(message),
    ensures
        change_state::changed_by(situation.manager, screen, message) is None,
        command_focus::focused_by(situation.manager, screen, situation.seen, message) is None,
{
    assert(situation.manager.set_by(message) is None) by {
        reveal(ManagerView::set_by);
    }
    assert(change_state::changed_by(situation.manager, screen, message) is None) by {
        reveal(change_state::changed_by);
    }
    reveal(command_focus::focused_by);
}

proof fn requests(situation: Situation, message: SocketMessage)
    requires
        situation.is_at_home(),
        is_request(message),
    ensures
        ({
            let screen = situation.screen.taking(StepView::RememberState);
            let called = change_state::called_by(situation.manager, screen, message);
            let awaited = command_files::awaited_by(
                situation.manager,
                screen,
                situation.seen,
                situation.session.settings.custom_ffm,
                message,
            );
            &&& called is Some ==> situation.after(message) == process_command::turn_of(
                process_command::of_state(called->0, situation.session),
            )
            &&& called is None && awaited is Some ==> situation.after(message)
                == process_command::turn_of(
                process_command::of_state(awaited->0, situation.session),
            )
        }),
{
    let screen = situation.screen.taking(StepView::RememberState);
    no_session(situation.manager, situation.session, message);
    no_operation(situation.manager, screen, message);
    no_change(situation, screen, message);
    assert(process_command::session_feat(situation.manager, situation.session, screen, message)
        is None) by {
        reveal(process_command::session_feat);
    }
    reveal(process_command::state_deed);
    reveal(process_command::performed);
}

/// Whether a command leaves state and session as they are, asks for one or two things in their
/// order and nothing else, and goes on at a stage.
pub open spec fn only_asks(
    situation: Situation,
    message: SocketMessage,
    steps: Seq<StepView>,
    stage: CommandStage,
) -> bool {
    let turn = situation.after(message);
    &&& turn.result is Ok
    &&& turn.manager == situation.manager
    &&& turn.session == situation.session
    &&& turn.screen.hiding == situation.screen.hiding
    &&& turn.screen.steps == (situation.screen.steps.push(StepView::RememberState) + steps).push(
        StepView::ContinueCommand(stage),
    )
}

/// Laying all workspaces out anew takes the borders down first and has them drawn again in the
/// end, and keeps what was resized exactly where that is said.
pub proof fn workspaces_are_laid_out_anew(situation: Situation)
    requires
        situation.is_at_home(),
    ensures
        ({
            let bordered = CommandStage::Finish { force_borders: true };
            let down = StepView::Do(Call::DestroyAllBorders);
            &&& only_asks(
                situation,
                SocketMessage::Retile,
                seq![down, StepView::Manage(ManagerOp::RetileAll(false))],
                bordered,
            )
            &&& only_asks(
                situation,
                SocketMessage::RetileWithResizeDimensions,
                seq![down, StepView::Manage(ManagerOp::RetileAll(true))],
                bordered,
            )
        }),
{
    reveal(change_state::called_by);
    requests(situation, SocketMessage::Retile);
    requests(situation, SocketMessage::RetileWithResizeDimensions);
    let start = situation.screen.steps.push(StepView::RememberState);
    let down = StepView::Do(Call::DestroyAllBorders);
    let plain = StepView::Manage(ManagerOp::RetileAll(false));
    let resized = StepView::Manage(ManagerOp::RetileAll(true));
    assert(start.push(down).push(plain) =~= start + seq![down, plain]);
    assert(start.push(down).push(resized) =~= start + seq![down, resized]);
}

/// The window in the foreground is closed, and how windows are hidden is set to what is given.
pub proof fn the_foreground_is_closed(situation: Situation, behaviour: HidingBehaviour)
    requires
        situation.is_at_home(),
        situation.screen.desktop.foreground is Some,
    ensures
        ({
            let turn = situation.after(SocketMessage::WindowHidingBehaviour(behaviour));
            let close = StepView::Do(Call::CloseWindow(situation.screen.desktop.foreground->0));
            &&& only_asks(situation, SocketMessage::Close, seq![close], commands::finish())
            &&& turn.result is Ok
            &&& turn.manager == situation.manager
            &&& turn.screen.hiding.behaviour == behaviour
            &&& turn.screen.hiding.hidden == situation.screen.hiding.hidden
        }),
{
    reveal(change_state::called_by);
    requests(situation, SocketMessage::Close);
    requests(situation, SocketMessage::WindowHidingBehaviour(behaviour));
    let start = situation.screen.steps.push(StepView::RememberState);
    let close = StepView::Do(Call::CloseWindow(situation.screen.desktop.foreground->0));
    assert(start.push(close) =~= start + seq![close]);
}

/// What was resized is written to the file that is given, or to the place for quick saves, and
/// read from there, after which the manager is asked again.
pub proof fn sizes_are_saved_and_loaded(situation: Situation, path: String)
    requires
        situation.is_at_home(),
        places::has_focus(situation.manager),
    ensures
        ({
            let manage = |op: ManagerOp| seq![StepView::Manage(op)];
            &&& only_asks(
                situation,
                SocketMessage::QuickSave,
                manage(ManagerOp::SaveResizeDimensions(None)),
                commands::finish(),
            )
            &&& only_asks(
                situation,
                SocketMessage::Save(path),
                manage(ManagerOp::SaveResizeDimensions(Some(path))),
                commands::finish(),
            )
            &&& only_asks(
                situation,
                SocketMessage::QuickLoad,
                manage(ManagerOp::LoadResizeDimensions(None)),
                CommandStage::ResizeLoaded,
            )
            &&& only_asks(
                situation,
                SocketMessage::Load(path),
                manage(ManagerOp::LoadResizeDimensions(Some(path))),
                CommandStage::ResizeLoaded,
            )
            &&& only_asks(
                situation,
                SocketMessage::ReplaceConfiguration(path),
                manage(ManagerOp::CheckConfiguration),
                CommandStage::ConfigurationChecked,
            )
            &&& only_asks(
                situation,
                SocketMessage::AddSubscriberPipe(path),
                manage(ManagerOp::ConnectPipe(path)),
                CommandStage::PipeConnected,
            )
        }),
{
    reveal(change_state::called_by);
    reveal(command_files::awaited_by);
    requests(situation, SocketMessage::QuickSave);
    requests(situation, SocketMessage::Save(path));
    requests(situation, SocketMessage::QuickLoad);
    requests(situation, SocketMessage::Load(path));
    requests(situation, SocketMessage::ReplaceConfiguration(path));
    requests(situation, SocketMessage::AddSubscriberPipe(path));
    let start = situation.screen.steps.push(StepView::RememberState);
    assert forall|op: ManagerOp| #[trigger]
        start.push(StepView::Manage(op)) == start + seq![StepView::Manage(op)] by {
        assert(start.push(StepView::Manage(op)) =~= start + seq![StepView::Manage(op)]);
    }
}

/// The focus follows the mouse as is asked: by the window system, which is asked for it, or by the
/// window manager, where it was started for it and the window system does not do so.
pub proof fn the_focus_follows_the_mouse_as_asked(situation: Situation, enable: bool)
    requires
        situation.is_at_home(),
        situation.session.settings.custom_ffm,
        situation.manager.focus_follows_mouse is None,
        situation.seen.system_focus_follows_mouse == Some(false),
    ensures
        ({
            let own = situation.after(
                SocketMessage::FocusFollowsMouse(FocusFollowsMouseImplementation::Komorebi, enable),
            );
            let windows = Some(FocusFollowsMouseImplementation::Windows);
            &&& own.result is Ok
            &&& enable ==> own.manager == (ManagerView {
                focus_follows_mouse: Some(FocusFollowsMouseImplementation::Komorebi),
                ..situation.manager
            })
            &&& !enable ==> own.manager.focus_follows_mouse is None
            &&& only_asks(
                situation,
                SocketMessage::FocusFollowsMouse(FocusFollowsMouseImplementation::Windows, enable),
                seq![
                    StepView::Do(
                        if enable {
                            Call::EnableFocusFollowsMouse
                        } else {
                            Call::DisableFocusFollowsMouse
                        },
                    ),
                ],
                CommandStage::NoteFocusFollowsMouse(
                    if enable {
                        windows
                    } else {
                        None
                    },
                ),
            )
        }),
{
    reveal(change_state::called_by);
    reveal(command_files::awaited_by);
    requests(
        situation,
        SocketMessage::FocusFollowsMouse(FocusFollowsMouseImplementation::Komorebi, enable),
    );
    requests(
        situation,
        SocketMessage::FocusFollowsMouse(FocusFollowsMouseImplementation::Windows, enable),
    );
    let start = situation.screen.steps.push(StepView::RememberState);
    let call = StepView::Do(
        if enable {
            Call::EnableFocusFollowsMouse
        } else {
            Call::DisableFocusFollowsMouse
        },
    );
    assert(start.push(call) =~= start + seq![call]);
}

proof fn found_monitor(monitors: Seq<MonitorView>, id: isize, at: int, from: int)
    requires
        0 <= from <= at < monitors.len(),
        monitors[at].id == id,
        forall|i: int| from <= i < at ==> (#[trigger] monitors[i]).id != id,
    ensures
        process_event::monitor_with(monitors, id, from) == Some(at),
    decreases at - from,
{
    if from < at {
        found_monitor(monitors, id, at, from + 1);
    }
}

proof fn no_monitor(monitors: Seq<MonitorView>, id: isize, from: int)
    requires
        0 <= from <= monitors.len(),
        forall|i: int| from <= i < monitors.len() ==> (#[trigger] monitors[i]).id != id,
    ensures
        process_event::monitor_with(monitors, id, from) is None,
    decreases monitors.len() - from,
{
    if from < monitors.len() {
        no_monitor(monitors, id, from + 1);
    }
}

/// A monitor that is to be laid out is found again by its handle, and the workspace that it shows
/// is laid out there. Nothing happens for a monitor that is gone.
pub proof fn monitors_are_found_again(
    manager: ManagerView,
    screen: ScreenView,
    context: ContextView,
    id: isize,
    at: int,
)
    ensures
        ({
            let turn = process_event::resumed(manager, screen, context, Resume::UpdateMonitor(id));
            let monitors = manager.monitors.elements;
            let is_there = 0 <= at < monitors.len() && monitors[at].id == id && monitors[at].workspaces.focused
                < monitors[at].workspaces.elements.len() && forall|i: int|
                0 <= i < at ==> (#[trigger] monitors[i]).id != id;
            let is_gone = forall|i: int|
                0 <= i < monitors.len() ==> (#[trigger] monitors[i]).id != id;
            &&& is_gone ==> turn.result is Ok && turn.manager == manager && turn.screen == screen
            &&& is_there ==> {
                &&& turn.result is Ok
                &&& turn.manager.monitors.focused == manager.monitors.focused
                &&& turn.manager.monitors.elements.len() == monitors.len()
                &&& forall|i: int|
                    0 <= i < monitors.len() && i != at
                        ==> #[trigger] turn.manager.monitors.elements[i] == monitors[i]
                &&& turn.screen.steps.len() > screen.steps.len()
                &&& turn.screen.steps[screen.steps.len() as int] == StepView::Do(
                    Call::UpdateWorkspace {
                        monitor: id,
                        workspace: monitors[at].workspaces.focused,
                    },
                )
            }
        }),
{
    reveal(process_event::resumed);
    let monitors = manager.monitors.elements;
    if 0 <= at < monitors.len() && monitors[at].id == id && forall|i: int|
        0 <= i < at ==> (#[trigger] monitors[i]).id != id {
        found_monitor(monitors, id, at, 0);
    }
    if forall|i: int| 0 <= i < monitors.len() ==> (#[trigger] monitors[i]).id != id {
        no_monitor(monitors, id, 0);
    }
}

} // verus!
