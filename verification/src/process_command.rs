//! How the window manager carries out commands.
//!
//! Like an event, a command is handled in stages: where what comes next depends on how
//! something went outside, the plan ends with the stage at which the manager is to be
//! asked again about the command.

use vstd::prelude::*;

use crate::change_settings;
use crate::change_state;
use crate::change_state::Deed;
use crate::command_files;
use crate::command_focus;
use crate::command_layers;
use crate::command_ops;
use crate::command_replies;
use crate::eager_focus;
use crate::error::Error;
use crate::ignore_rule;
use crate::manager_op::ManagerOp;
use crate::plan::CommandStage;
use crate::plan::Notice;
use crate::plan::Signal;
use crate::plan::Step;
use crate::plan::StepView;
use crate::rule_set::RuleSet;
use crate::rules::ApplicationIdentifier;
use crate::session;
use crate::session::RuleListsView;
use crate::session::Session;
use crate::session::SessionView;
use crate::socket_message::SocketMessage;
use crate::turn;
use crate::turn::Observations;
use crate::turn::ObservationsView;
use crate::window::Screen;
use crate::window::ScreenView;
use crate::window_manager::ManagerView;
use crate::window_manager::WindowManager;

verus! {

/// How long, in milliseconds, a command waits for the window manager at most.
pub const LOCK_WAIT_BUDGET_MS: u64 = 10000;

/// After how many milliseconds it is noted that a command waits.
pub const CONTENTION_WARN_AT_MS: u64 = 2000;

/// How long, in milliseconds, one attempt waits.
pub const ATTEMPT_STEP_MS: u64 = 100;

/// What comes of a command: the state, what else it changed, what is asked of the window
/// system, and at which stage the manager is to be asked again, or why it failed.
pub struct Feat {
    pub manager: ManagerView,
    pub session: SessionView,
    pub screen: ScreenView,
    pub result: Result<CommandStage, Error>,
}

/// What comes of a command that changes nothing but the state.
pub open spec fn of_state(deed: Deed, session: SessionView) -> Feat {
    Feat { manager: deed.manager, session, screen: deed.screen, result: deed.result }
}

/// What comes of a command that changes nothing but the session.
pub open spec fn of_session(manager: ManagerView, session: SessionView, screen: ScreenView) -> Feat {
    Feat {
        manager,
        session,
        screen,
        result: Ok(CommandStage::Finish { force_borders: false }),
    }
}

/// Ignore windows from now on, and look which of them are there.
#[verifier::opaque]
pub open spec fn ignoring(
    manager: ManagerView,
    session: SessionView,
    screen: ScreenView,
    kind: ApplicationIdentifier,
    id: String,
) -> Feat {
    let noted = SessionView {
        lists: RuleListsView {
            ignore: session::with_rule(session.lists.ignore, kind, id),
            ..session.lists
        },
        ..session
    };
    match ignore_rule::on_monitors(manager.monitors.elements, kind, id@, screen.desktop) {
        Ok(purge) => Feat {
            manager,
            session: SessionView { purge, ..noted },
            screen,
            result: Ok(CommandStage::Purge),
        },
        Err(error) => Feat { manager, session: noted, screen, result: Err(error) },
    }
}

/// Let the window in the foreground float for the session.
#[verifier::opaque]
pub open spec fn floating_for_session(
    manager: ManagerView,
    session: SessionView,
    screen: ScreenView,
) -> Feat {
    Feat {
        manager,
        session: session.floating_foreground(screen),
        screen: if session::knows_foreground(screen) {
            screen.managing(ManagerOp::ToggleFloat(true))
        } else {
            screen
        },
        result: if screen.desktop.foreground is None {
            Err(Error::WindowSystem)
        } else {
            Ok(CommandStage::Finish { force_borders: false })
        },
    }
}

/// What comes of a command that changes the rules, the settings, a preference or the
/// subscribers; nothing for another one.
#[verifier::opaque]
pub open spec fn session_feat(
    manager: ManagerView,
    session: SessionView,
    screen: ScreenView,
    message: SocketMessage,
) -> Option<Feat> {
    match (
        change_settings::adjustment(session.settings, message),
        session.lists.noting(message),
        session::changed_workspace_rules(manager, session.workspace_rules, message),
        session.preferring(message),
    ) {
        (Some(adjusted), _, _, _) => Some(
            Feat {
                manager,
                session: SessionView { settings: adjusted.settings, ..session },
                screen: screen.followed_by(adjusted.steps),
                result: Ok(CommandStage::Finish { force_borders: adjusted.force_borders }),
            },
        ),
        (_, Some(lists), _, _) => Some(
            of_session(manager, SessionView { lists, ..session }, screen),
        ),
        (_, _, Some(workspace_rules), _) => Some(
            of_session(manager, SessionView { workspace_rules, ..session }, screen),
        ),
        (_, _, _, Some(changed)) => Some(of_session(manager, changed, screen)),
        _ => None,
    }
}

/// What comes of a command that is made of operations; nothing for another one.
#[verifier::opaque]
pub open spec fn operation_deed(
    manager: ManagerView,
    screen: ScreenView,
    message: SocketMessage,
) -> Option<Deed> {
    match command_ops::plain_op(message) {
        Some(op) => Some(change_state::carried_out(manager, screen.managing(op))),
        None => match command_ops::state_ops(manager, message) {
            Some(Ok(ops)) => Some(
                change_state::carried_out(
                    manager,
                    screen.followed_by(command_ops::op_steps(ops)),
                ),
            ),
            Some(Err(error)) => Some(change_state::refused(manager, screen, error)),
            None => None,
        },
    }
}

/// What comes of a command that changes nothing but the state; nothing for another one.
#[verifier::opaque]
pub open spec fn state_deed(
    manager: ManagerView,
    session: SessionView,
    rules: RuleSet,
    screen: ScreenView,
    seen: ObservationsView,
    message: SocketMessage,
) -> Option<Deed> {
    match (
        operation_deed(manager, screen, message),
        change_state::called_by(manager, screen, message),
        change_state::changed_by(manager, screen, message),
        command_focus::focused_by(manager, screen, seen, message),
        command_files::awaited_by(manager, screen, seen, session.settings.custom_ffm, message),
        command_replies::answered_by(manager, screen, rules, seen, message),
    ) {
        (Some(deed), _, _, _, _, _) => Some(deed),
        (_, Some(deed), _, _, _, _) => Some(deed),
        (_, _, Some(deed), _, _, _) => Some(deed),
        (_, _, _, Some(deed), _, _) => Some(deed),
        (_, _, _, _, Some(deed), _) => Some(deed),
        (_, _, _, _, _, Some(deed)) => Some(deed),
        _ => None,
    }
}

/// What comes of a command.
#[verifier::opaque]
pub open spec fn performed(
    manager: ManagerView,
    session: SessionView,
    rules: RuleSet,
    screen: ScreenView,
    seen: ObservationsView,
    message: SocketMessage,
) -> Feat {
    match message {
        SocketMessage::EagerFocus(exe) => of_state(
            eager_focus::eagerly_focused(manager, screen, exe@),
            session,
        ),
        SocketMessage::ToggleWorkspaceLayer => of_state(
            command_layers::layer_toggled(manager, screen, session.settings),
            session,
        ),
        SocketMessage::ToggleIgnoredWindowLayer => of_state(
            command_layers::ignored_toggled(manager, screen),
            session,
        ),
        SocketMessage::IgnoreRule(kind, id) => ignoring(manager, session, screen, kind, id),
        SocketMessage::SessionFloatRule => floating_for_session(manager, session, screen),
        _ => match session_feat(manager, session, screen, message) {
            Some(feat) => feat,
            None => match state_deed(manager, session, rules, screen, seen, message) {
                Some(deed) => of_state(deed, session),
                None => of_session(manager, session, screen),
            },
        },
    }
}

/// What follows every command: the places of the windows are written down where the
/// state has changed, and subscribers, borders, dimming and stackbars follow.
pub open spec fn finished(screen: ScreenView, modified: bool, force_borders: bool) -> ScreenView {
    let known = if modified {
        screen.managing(ManagerOp::UpdateKnownHwnds)
    } else {
        screen
    };
    known.taking(StepView::Notify(Notice::Command, modified)).taking(
        StepView::Send(
            if force_borders {
                Signal::ForceUpdateBorders
            } else {
                Signal::UpdateBorders(None)
            },
        ),
    ).taking(StepView::Send(Signal::UpdateTransparency)).taking(
        StepView::Send(Signal::UpdateStackbars),
    )
}

/// What comes of a configuration that was looked at: where it can be used, a manager made
/// from it takes over.
pub open spec fn configuration_checked(
    manager: ManagerView,
    session: SessionView,
    screen: ScreenView,
    is_valid: bool,
) -> Feat {
    if is_valid {
        Feat {
            manager: ManagerView { is_paused: true, ..manager },
            session: SessionView { workspace_rules: Seq::empty(), ..session },
            screen: screen.managing(ManagerOp::RestoreAllWindows(false)).managing(
                ManagerOp::ReplaceManager,
            ),
            result: Ok(CommandStage::Finish { force_borders: true }),
        }
    } else {
        of_session(manager, session, screen)
    }
}

/// What comes of a command that goes on at a stage, but the last one.
#[verifier::opaque]
pub open spec fn gone_on(
    manager: ManagerView,
    session: SessionView,
    screen: ScreenView,
    seen: ObservationsView,
    message: SocketMessage,
    stage: CommandStage,
) -> Feat {
    match stage {
        CommandStage::Finish { .. } => of_session(manager, session, screen),
        CommandStage::LoadFocused => of_state(eager_focus::load_focused(manager, screen), session),
        CommandStage::NoteLastWorkspace(idx) => of_state(
            command_focus::note_last_workspace(manager, screen, idx),
            session,
        ),
        CommandStage::SwitchNext { workspace, monitor } => of_state(
            command_focus::switch_from(manager, screen, workspace, monitor),
            session,
        ),
        CommandStage::LayerShown { focus, lower_ignored } => of_state(
            command_layers::layer_shown(manager, screen, session.settings, focus, lower_ignored),
            session,
        ),
        CommandStage::NoteFocusFollowsMouse(implementation) => of_session(
            command_files::following(manager, implementation),
            session,
            screen,
        ),
        CommandStage::ConfigurationChecked => configuration_checked(
            manager,
            session,
            screen,
            seen.answer,
        ),
        CommandStage::PipeConnected => of_session(
            manager,
            match message {
                SocketMessage::AddSubscriberPipe(pipe) => SessionView {
                    subscriptions: session.subscriptions.adding_pipe(pipe@),
                    ..session
                },
                _ => session,
            },
            screen,
        ),
        CommandStage::ResizeLoaded => of_state(
            command_files::resize_loaded(manager, screen, seen),
            session,
        ),
        CommandStage::Purge => of_state(
            ignore_rule::purged(manager, screen, session.settings, session.purge),
            SessionView {
                purge: if session.purge.len() == 0 {
                    session.purge
                } else {
                    session.purge.drop_first()
                },
                ..session
            },
        ),
    }
}

/// What comes of asking about a command: the state, what else it changed, what is asked of
/// the window system, and whether it failed.
pub struct CommandTurn {
    pub manager: ManagerView,
    pub session: SessionView,
    pub screen: ScreenView,
    pub result: Result<(), Error>,
}

/// Ask again at the stage to which a command has come.
pub open spec fn turn_of(feat: Feat) -> CommandTurn {
    match feat.result {
        Ok(stage) => CommandTurn {
            manager: feat.manager,
            session: feat.session,
            screen: feat.screen.taking(StepView::ContinueCommand(stage)),
            result: Ok(()),
        },
        Err(error) => CommandTurn {
            manager: feat.manager,
            session: feat.session,
            screen: feat.screen,
            result: Err(error),
        },
    }
}

/// Whether another virtual desktop is shown than the own one.
pub open spec fn is_away(manager: ManagerView, seen: ObservationsView) -> bool {
    manager.virtual_desktop_id matches Some(own) && seen.virtual_desktop matches Some(shown)
        && own != shown
}

/// Carry out a command, unless another virtual desktop is shown than the own one.
pub open spec fn commanded(
    manager: ManagerView,
    session: SessionView,
    rules: RuleSet,
    screen: ScreenView,
    seen: ObservationsView,
    message: SocketMessage,
) -> CommandTurn {
    if is_away(manager, seen) {
        CommandTurn { manager, session, screen, result: Ok(()) }
    } else {
        turn_of(
            performed(
                manager,
                session,
                rules,
                screen.taking(StepView::RememberState),
                seen,
                message,
            ),
        )
    }
}

/// Go on with a command.
pub open spec fn resumed_command(
    manager: ManagerView,
    session: SessionView,
    screen: ScreenView,
    seen: ObservationsView,
    message: SocketMessage,
    stage: CommandStage,
) -> CommandTurn {
    match stage {
        CommandStage::Finish { force_borders } => CommandTurn {
            manager,
            session,
            screen: finished(screen, seen.modified, force_borders),
            result: Ok(()),
        },
        _ => turn_of(gone_on(manager, session, screen, seen, message, stage)),
    }
}

impl WindowManager {
    fn is_on_other_desktop(&self, seen: &Observations) -> (r: bool)
        ensures
            r == is_away(self@, seen@),
    {
        match (&self.virtual_desktop_id, &seen.virtual_desktop) {
            (Some(own), Some(shown)) => !turn::same_bytes(own, shown),
            _ => false,
        }
    }

    fn perform_operation(&self, message: &SocketMessage, screen: &mut Screen) -> (r: Option<
        Result<CommandStage, Error>,
    >)
        ensures
            match operation_deed(self@, old(screen)@, *message) {
                Some(deed) => r is Some && (Deed {
                    manager: self@,
                    screen: final(screen)@,
                    result: r->0,
                }) == deed,
                None => r is None && final(screen)@ == old(screen)@,
            },
    {
        proof {
            reveal(operation_deed);
        }
        if command_ops::plan_plain_op(message, screen) {
            return Some(change_state::finished());
        }
        match self.plan_state_ops(message, screen) {
            Some(Ok(())) => Some(change_state::finished()),
            Some(Err(error)) => Some(Err(error)),
            None => None,
        }
    }

    fn perform_on_state(
        &mut self,
        message: &SocketMessage,
        session: &Session,
        seen: &Observations,
        screen: &mut Screen,
    ) -> (r: Option<Result<CommandStage, Error>>)
        requires
            session.rules.wf(),
        ensures
            match state_deed(old(self)@, session@, session.rules, old(screen)@, seen@, *message) {
                Some(deed) => r is Some && (Deed {
                    manager: final(self)@,
                    screen: final(screen)@,
                    result: r->0,
                }) == deed,
                None => r is None && final(self)@ == old(self)@ && final(screen)@ == old(screen)@,
            },
    {
        proof {
            reveal(state_deed);
        }
        let done = self.perform_operation(message, screen);
        if done.is_some() {
            return done;
        }
        let done = self.make_calls(message, screen);
        if done.is_some() {
            return done;
        }
        let done = self.change_state(message, screen);
        if done.is_some() {
            return done;
        }
        let done = self.change_focus(message, seen, screen);
        if done.is_some() {
            return done;
        }
        let done = self.await_outside(message, session.settings.custom_ffm, seen, screen);
        if done.is_some() {
            return done;
        }
        self.answer_command(message, &session.rules, seen, screen)
    }

    fn perform_on_session(
        &self,
        message: &SocketMessage,
        session: &mut Session,
        screen: &mut Screen,
    ) -> (r: Option<CommandStage>)
        ensures
            final(session).rules.wf() == old(session).rules.wf(),
            match session_feat(self@, old(session)@, old(screen)@, *message) {
                Some(feat) => {
                    &&& r matches Some(stage) && feat.result == Ok::<CommandStage, Error>(stage)
                    &&& feat.manager == self@
                    &&& final(session)@ == feat.session
                    &&& final(screen)@ == feat.screen
                },
                None => {
                    &&& r is None
                    &&& *final(session) == *old(session)
                    &&& final(screen)@ == old(screen)@
                },
            },
    {
        proof {
            reveal(session_feat);
        }
        match change_settings::adjust_settings(&mut session.settings, message, screen) {
            Some(force_borders) => {
                return Some(CommandStage::Finish { force_borders });
            },
            None => {},
        }
        let finish = CommandStage::Finish { force_borders: false };
        if session.note_rule(message) {
            return Some(finish);
        }
        if session.note_workspace_rule(self, message) {
            return Some(finish);
        }
        if session.note_preference(message) {
            return Some(finish);
        }
        None
    }

    fn ignore_windows(
        &self,
        kind: ApplicationIdentifier,
        id: &String,
        session: &mut Session,
        screen: &Screen,
    ) -> (r: Result<CommandStage, Error>)
        ensures
            final(session).rules.wf() == old(session).rules.wf(),
            (Feat { manager: self@, session: final(session)@, screen: screen@, result: r })
                == ignoring(self@, old(session)@, screen@, kind, *id),
    {
        proof {
            reveal(ignoring);
        }
        session.note_ignore_rule(kind, id);
        match self.windows_with_text(kind, id, &screen.desktop) {
            Ok(purge) => {
                session.purge = purge;
                Ok(CommandStage::Purge)
            },
            Err(error) => Err(error),
        }
    }

    fn perform(
        &mut self,
        message: &SocketMessage,
        session: &mut Session,
        seen: &Observations,
        screen: &mut Screen,
    ) -> (r: Result<CommandStage, Error>)
        requires
            old(session).rules.wf(),
        ensures
            final(session).rules.wf(),
            (Feat {
                manager: final(self)@,
                session: final(session)@,
                screen: final(screen)@,
                result: r,
            }) == performed(
                old(self)@,
                old(session)@,
                old(session).rules,
                old(screen)@,
                seen@,
                *message,
            ),
    {
        proof {
            reveal(performed);
        }
        match message {
            SocketMessage::EagerFocus(exe) => self.focus_eagerly(exe.as_str(), screen),
            SocketMessage::ToggleWorkspaceLayer => self.toggle_workspace_layer(
                &session.settings,
                screen,
            ),
            SocketMessage::ToggleIgnoredWindowLayer => self.toggle_ignored_layer(screen),
            SocketMessage::IgnoreRule(kind, id) => self.ignore_windows(
                *kind,
                id,
                session,
                screen,
            ),
            SocketMessage::SessionFloatRule => {
                proof {
                    reveal(floating_for_session);
                }
                match session.float_foreground(screen) {
                    Ok(()) => change_state::finished(),
                    Err(error) => Err(error),
                }
            },
            _ => match self.perform_on_session(message, session, screen) {
                Some(stage) => Ok(stage),
                None => match self.perform_on_state(message, session, seen, screen) {
                    Some(result) => result,
                    None => change_state::finished(),
                },
            },
        }
    }

    /// Carry out a command.
    pub fn process_command(
        &mut self,
        message: &SocketMessage,
        session: &mut Session,
        seen: &Observations,
        screen: &mut Screen,
    ) -> (r: Result<(), Error>)
        requires
            old(session).rules.wf(),
        ensures
            final(session).rules.wf(),
            (CommandTurn {
                manager: final(self)@,
                session: final(session)@,
                screen: final(screen)@,
                result: r,
            }) == commanded(
                old(self)@,
                old(session)@,
                old(session).rules,
                old(screen)@,
                seen@,
                *message,
            ),
    {
        if self.is_on_other_desktop(seen) {
            return Ok(());
        }
        screen.take_step(Step::RememberState);
        match self.perform(message, session, seen, screen) {
            Ok(stage) => {
                screen.take_step(Step::ContinueCommand(stage));
                Ok(())
            },
            Err(error) => Err(error),
        }
    }

    fn go_on_with_command(
        &mut self,
        stage: CommandStage,
        message: &SocketMessage,
        session: &mut Session,
        seen: &Observations,
        screen: &mut Screen,
    ) -> (r: Result<CommandStage, Error>)
        ensures
            final(session).rules == old(session).rules,
            (Feat {
                manager: final(self)@,
                session: final(session)@,
                screen: final(screen)@,
                result: r,
            }) == gone_on(
                old(self)@,
                old(session)@,
                old(screen)@,
                seen@,
                *message,
                stage,
            ),
    {
        proof {
            reveal(gone_on);
        }
        match stage {
            CommandStage::Finish { .. } => change_state::finished(),
            CommandStage::LoadFocused => self.load_focused_monitor(screen),
            CommandStage::NoteLastWorkspace(idx) => self.remember_last_workspace(idx, screen),
            CommandStage::SwitchNext { workspace, monitor } => self.switch_next(
                workspace,
                monitor,
                screen,
            ),
            CommandStage::LayerShown { focus, lower_ignored } => self.settle_floating_layer(
                focus,
                lower_ignored,
                &session.settings,
                screen,
            ),
            CommandStage::NoteFocusFollowsMouse(implementation) => {
                self.focus_follows_mouse = implementation;
                change_state::finished()
            },
            CommandStage::ConfigurationChecked => {
                if seen.answer {
                    session.workspace_rules = Vec::new();
                    assert(session@.workspace_rules =~= Seq::empty());
                    self.is_paused = true;
                    screen.manage(ManagerOp::RestoreAllWindows(false));
                    screen.manage(ManagerOp::ReplaceManager);
                    Ok(CommandStage::Finish { force_borders: true })
                } else {
                    change_state::finished()
                }
            },
            CommandStage::PipeConnected => {
                match message {
                    SocketMessage::AddSubscriberPipe(pipe) => {
                        session.subscriptions.add_pipe(pipe);
                    },
                    _ => {},
                }
                change_state::finished()
            },
            CommandStage::ResizeLoaded => self.take_resize_dimensions(seen, screen),
            CommandStage::Purge => self.purge_next(&mut session.purge, &session.settings, screen),
        }
    }

    fn finish_command(&self, force_borders: bool, seen: &Observations, screen: &mut Screen)
        ensures
            final(screen)@ == finished(old(screen)@, seen@.modified, force_borders),
    {
        if seen.modified {
            screen.manage(ManagerOp::UpdateKnownHwnds);
        }
        screen.take_step(Step::Notify(Notice::Command, seen.modified));
        if force_borders {
            screen.plan.send(Signal::ForceUpdateBorders);
        } else {
            screen.plan.send(Signal::UpdateBorders(None));
        }
        screen.plan.send(Signal::UpdateTransparency);
        screen.plan.send(Signal::UpdateStackbars);
    }

    /// Go on with a command at a stage.
    pub fn resume_command(
        &mut self,
        stage: CommandStage,
        message: &SocketMessage,
        session: &mut Session,
        seen: &Observations,
        screen: &mut Screen,
    ) -> (r: Result<(), Error>)
        ensures
            final(session).rules == old(session).rules,
            (CommandTurn {
                manager: final(self)@,
                session: final(session)@,
                screen: final(screen)@,
                result: r,
            }) == resumed_command(
                old(self)@,
                old(session)@,
                old(screen)@,
                seen@,
                *message,
                stage,
            ),
    {
        match stage {
            CommandStage::Finish { force_borders } => {
                self.finish_command(force_borders, seen, screen);
                Ok(())
            },
            _ => match self.go_on_with_command(stage, message, session, seen, screen) {
                Ok(next) => {
                    screen.take_step(Step::ContinueCommand(next));
                    Ok(())
                },
                Err(error) => Err(error),
            },
        }
    }
}

/// What becomes of a command that a client has sent.
#[derive(Clone, Copy, Debug, PartialEq, Eq, Structural)]
pub enum Reception {
    /// It is carried out, and the client may send another one.
    Process,
    /// It is carried out, and the connection ends.
    ProcessAndClose,
    /// It is ignored, and the connection ends.
    IgnoreAndClose,
}

/// Whether a command is carried out while the manager is paused.
pub open spec fn works_while_paused(message: SocketMessage) -> bool {
    message is TogglePause || message is State || message is GlobalState || message is Stop
}

/// What becomes of a command.
pub open spec fn reception(is_paused: bool, message: SocketMessage) -> Reception {
    if !is_paused {
        Reception::Process
    } else if works_while_paused(message) {
        Reception::ProcessAndClose
    } else {
        Reception::IgnoreAndClose
    }
}

/// Decide what becomes of a command that a client has sent. A paused manager only takes
/// commands that end the pause or the program, or ask for the state.
pub fn receive_command(is_paused: bool, message: &SocketMessage) -> (r: Reception)
    ensures
        r == reception(is_paused, *message),
{
    if !is_paused {
        return Reception::Process;
    }
    match message {
        SocketMessage::TogglePause
        | SocketMessage::State
        | SocketMessage::GlobalState
        | SocketMessage::Stop => Reception::ProcessAndClose,
        _ => Reception::IgnoreAndClose,
    }
}

/// What is done after waiting for the window manager for some time in vain.
#[derive(Clone, Copy, Debug, PartialEq, Eq, Structural)]
pub struct LockWait {
    /// Note that the wait is long.
    pub warn: bool,
    /// Drop the command.
    pub give_up: bool,
}

/// Decide what is done after an attempt to get hold of the window manager has failed.
pub fn wait_for_lock(elapsed_ms: u64, has_warned: bool) -> (r: LockWait)
    ensures
        r.warn == (!has_warned && elapsed_ms >= CONTENTION_WARN_AT_MS),
        r.give_up == (elapsed_ms >= LOCK_WAIT_BUDGET_MS),
{
    LockWait {
        warn: !has_warned && elapsed_ms >= CONTENTION_WARN_AT_MS,
        give_up: elapsed_ms >= LOCK_WAIT_BUDGET_MS,
    }
}

/// A manager can always be taken out of its pause.
pub proof fn pauses_can_be_ended(manager: ManagerView, screen: ScreenView)
    ensures
        reception(manager.is_paused, SocketMessage::TogglePause) != Reception::IgnoreAndClose,
        change_state::changed_by(manager, screen, SocketMessage::TogglePause) matches Some(deed)
            && deed.manager.is_paused == !manager.is_paused,
{
    reveal(change_state::changed_by);
}

/// A command on another virtual desktop changes nothing and asks for nothing.
pub proof fn commands_wait_for_their_desktop(
    manager: ManagerView,
    session: SessionView,
    rules: RuleSet,
    screen: ScreenView,
    seen: ObservationsView,
    message: SocketMessage,
)
    requires
        is_away(manager, seen),
    ensures
        commanded(manager, session, rules, screen, seen, message) == (CommandTurn {
            manager,
            session,
            screen,
            result: Ok(()),
        }),
{
}

/// Where there is a monitor, a command to focus a workspace by its number leads to that
/// workspace: either it has the focus already, or it is asked for as the only operation of
/// the command, and once the focused monitor has focused it, the focused workspace is the
/// one at the index.
pub proof fn workspaces_are_focused_by_number(
    manager: ManagerView,
    session: SessionView,
    rules: RuleSet,
    screen: ScreenView,
    seen: ObservationsView,
    idx: usize,
)
    requires
        !is_away(manager, seen),
        manager.monitor() is Ok,
        idx < usize::MAX,
    ensures
        ({
            let turn = commanded(
                manager,
                session,
                rules,
                screen,
                seen,
                SocketMessage::FocusWorkspaceNumber(idx),
            );
            let focused = turn.manager.focusing_workspace(idx);
            let remembered = screen.taking(StepView::RememberState);
            let asked = remembered.managing(ManagerOp::FocusWorkspace(idx));
            let last = StepView::ContinueCommand(CommandStage::Finish { force_borders: false });
            &&& turn.result is Ok
            &&& turn.manager == manager.at_cursor(seen)
            &&& turn.screen == (if command_focus::focused_or_first(turn.manager) == idx {
                remembered
            } else {
                asked
            }).taking(last)
            &&& focused.monitor() matches Ok(monitor) && monitor.workspaces.focused == idx
            &&& focused.workspace() is Ok
        }),
{
    reveal(performed);
    reveal(session_feat);
    reveal(change_settings::adjustment);
    reveal(state_deed);
    reveal(operation_deed);
    reveal(command_ops::plain_op);
    reveal(command_ops::state_ops);
    reveal(change_state::called_by);
    reveal(change_state::changed_by);
    reveal(ManagerView::set_by);
    reveal(change_state::workspace_change);
    reveal(command_focus::focused_by);
}

} // verus!
