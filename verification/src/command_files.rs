//! Commands that wait for something outside: the mouse settings of the window system,
//! files, and the pipes of subscribers.

use vstd::prelude::*;

use crate::behaviour::FocusFollowsMouseImplementation;
use crate::change_state;
use crate::change_state::Deed;
use crate::error::Error;
use crate::geometry::Rect;
use crate::manager_op::ManagerOp;
use crate::plan::Call;
use crate::plan::CommandStage;
use crate::plan::StepView;
use crate::socket_message::SocketMessage;
use crate::turn::Observations;
use crate::turn::ObservationsView;
use crate::window::Screen;
use crate::window::ScreenView;
use crate::window_manager;
use crate::window_manager::ManagerView;
use crate::window_manager::WindowManager;
use crate::workspace::WorkspaceView;

verus! {

/// The manager with another way in which the focus follows the mouse.
pub open spec fn following(
    manager: ManagerView,
    implementation: Option<FocusFollowsMouseImplementation>,
) -> ManagerView {
    ManagerView { focus_follows_mouse: implementation, ..manager }
}

/// The manager without a raise that it waits for.
pub open spec fn without_raise(manager: ManagerView) -> ManagerView {
    ManagerView { has_pending_raise_op: false, ..manager }
}

/// Let the window system let the focus follow the mouse, or not any more.
pub open spec fn system_following(manager: ManagerView, screen: ScreenView, enable: bool) -> Deed {
    change_state::underway(
        manager,
        screen.taking(
            StepView::Do(
                if enable {
                    Call::EnableFocusFollowsMouse
                } else {
                    Call::DisableFocusFollowsMouse
                },
            ),
        ),
        CommandStage::NoteFocusFollowsMouse(
            if enable {
                Some(FocusFollowsMouseImplementation::Windows)
            } else {
                None
            },
        ),
    )
}

/// Let the focus follow the mouse or not. The window manager and the window system never
/// do it both, and the window manager only where it was started for it.
pub open spec fn focus_following(
    manager: ManagerView,
    screen: ScreenView,
    seen: ObservationsView,
    custom_ffm: bool,
    implementation: FocusFollowsMouseImplementation,
    enable: bool,
) -> Deed {
    let komorebi = Some(FocusFollowsMouseImplementation::Komorebi);
    if custom_ffm && implementation == FocusFollowsMouseImplementation::Komorebi {
        match seen.system_focus_follows_mouse {
            None => change_state::refused(manager, screen, Error::WindowSystem),
            Some(true) => change_state::carried_out(manager, screen),
            Some(false) => change_state::carried_out(
                if enable {
                    following(manager, komorebi)
                } else {
                    without_raise(following(manager, None))
                },
                screen,
            ),
        }
    } else if manager.focus_follows_mouse == komorebi {
        change_state::carried_out(manager, screen)
    } else {
        system_following(manager, screen, enable)
    }
}

/// Let the focus follow the mouse where it does not, and the other way round.
pub open spec fn focus_following_toggled(
    manager: ManagerView,
    screen: ScreenView,
    seen: ObservationsView,
    custom_ffm: bool,
    implementation: FocusFollowsMouseImplementation,
) -> Deed {
    let komorebi = Some(FocusFollowsMouseImplementation::Komorebi);
    if custom_ffm && implementation == FocusFollowsMouseImplementation::Komorebi {
        match seen.system_focus_follows_mouse {
            None => change_state::refused(manager, screen, Error::WindowSystem),
            Some(true) => change_state::carried_out(manager, screen),
            Some(false) => change_state::carried_out(
                match manager.focus_follows_mouse {
                    None => without_raise(following(manager, komorebi)),
                    Some(FocusFollowsMouseImplementation::Komorebi) => following(manager, None),
                    Some(FocusFollowsMouseImplementation::Windows) => manager,
                },
                screen,
            ),
        }
    } else {
        match manager.focus_follows_mouse {
            None => system_following(manager, screen, true),
            Some(FocusFollowsMouseImplementation::Windows) => system_following(
                manager,
                screen,
                false,
            ),
            Some(FocusFollowsMouseImplementation::Komorebi) => change_state::carried_out(
                manager,
                screen,
            ),
        }
    }
}

/// Write down or read by how much the containers of the focused workspace were resized.
pub open spec fn with_file(
    manager: ManagerView,
    screen: ScreenView,
    op: ManagerOp,
    stage: CommandStage,
) -> Deed {
    match manager.workspace() {
        Err(error) => change_state::refused(manager, screen, error),
        Ok(_) => change_state::underway(manager, screen.managing(op), stage),
    }
}

/// Take over by how much containers were resized.
#[verifier::opaque]
pub open spec fn resize_loaded(
    manager: ManagerView,
    screen: ScreenView,
    seen: ObservationsView,
) -> Deed {
    match manager.workspace() {
        Err(error) => change_state::refused(manager, screen, error),
        Ok(workspace) => change_state::carried_out(
            manager.with_workspace(
                WorkspaceView { resize_dimensions: seen.resize_dimensions, ..workspace },
            ),
            screen.updating(false, false),
        ),
    }
}

/// What comes of a command that waits for something outside; nothing for another one.
#[verifier::opaque]
pub open spec fn awaited_by(
    manager: ManagerView,
    screen: ScreenView,
    seen: ObservationsView,
    custom_ffm: bool,
    message: SocketMessage,
) -> Option<Deed> {
    let finish = CommandStage::Finish { force_borders: false };
    match message {
        SocketMessage::FocusFollowsMouse(implementation, enable) => Some(
            focus_following(manager, screen, seen, custom_ffm, implementation, enable),
        ),
        SocketMessage::ToggleFocusFollowsMouse(implementation) => Some(
            focus_following_toggled(manager, screen, seen, custom_ffm, implementation),
        ),
        SocketMessage::QuickSave => Some(
            with_file(manager, screen, ManagerOp::SaveResizeDimensions(None), finish),
        ),
        SocketMessage::Save(path) => Some(
            with_file(manager, screen, ManagerOp::SaveResizeDimensions(Some(path)), finish),
        ),
        SocketMessage::QuickLoad => Some(
            with_file(
                manager,
                screen,
                ManagerOp::LoadResizeDimensions(None),
                CommandStage::ResizeLoaded,
            ),
        ),
        SocketMessage::Load(path) => Some(
            with_file(
                manager,
                screen,
                ManagerOp::LoadResizeDimensions(Some(path)),
                CommandStage::ResizeLoaded,
            ),
        ),
        SocketMessage::ReplaceConfiguration(_) => Some(
            change_state::underway(
                manager,
                screen.managing(ManagerOp::CheckConfiguration),
                CommandStage::ConfigurationChecked,
            ),
        ),
        SocketMessage::AddSubscriberPipe(pipe) => Some(
            change_state::underway(
                manager,
                screen.managing(ManagerOp::ConnectPipe(pipe)),
                CommandStage::PipeConnected,
            ),
        ),
        _ => None,
    }
}

fn copy_dimensions(dimensions: &Vec<Option<Rect>>) -> (r: Vec<Option<Rect>>)
    ensures
        r@ == dimensions@,
{
    let mut copy: Vec<Option<Rect>> = Vec::new();
    let mut i: usize = 0;
    while i < dimensions.len()
        invariant
            i <= dimensions@.len(),
            copy@ == dimensions@.take(i as int),
        decreases dimensions@.len() - i,
    {
        copy.push(dimensions[i]);
        i = i + 1;
        assert(copy@ =~= dimensions@.take(i as int));
    }
    assert(dimensions@.take(i as int) =~= dimensions@);
    copy
}

fn switch_system_following(enable: bool, screen: &mut Screen) -> (r: CommandStage)
    ensures
        final(screen)@ == old(screen)@.taking(
            StepView::Do(
                if enable {
                    Call::EnableFocusFollowsMouse
                } else {
                    Call::DisableFocusFollowsMouse
                },
            ),
        ),
        r == CommandStage::NoteFocusFollowsMouse(
            if enable {
                Some(FocusFollowsMouseImplementation::Windows)
            } else {
                None
            },
        ),
{
    if enable {
        screen.plan.call(Call::EnableFocusFollowsMouse);
        CommandStage::NoteFocusFollowsMouse(Some(FocusFollowsMouseImplementation::Windows))
    } else {
        screen.plan.call(Call::DisableFocusFollowsMouse);
        CommandStage::NoteFocusFollowsMouse(None)
    }
}

impl WindowManager {
    fn follow_mouse(
        &mut self,
        custom_ffm: bool,
        implementation: FocusFollowsMouseImplementation,
        enable: bool,
        seen: &Observations,
        screen: &mut Screen,
    ) -> (r: Result<CommandStage, Error>)
        ensures
            (Deed { manager: final(self)@, screen: final(screen)@, result: r })
                == focus_following(
                old(self)@,
                old(screen)@,
                seen@,
                custom_ffm,
                implementation,
                enable,
            ),
    {
        if custom_ffm && implementation == FocusFollowsMouseImplementation::Komorebi {
            match seen.system_focus_follows_mouse {
                Some(true) => {},
                Some(false) => {
                    if enable {
                        self.focus_follows_mouse = Some(
                            FocusFollowsMouseImplementation::Komorebi,
                        );
                    } else {
                        self.focus_follows_mouse = None;
                        self.has_pending_raise_op = false;
                    }
                },
                None => {
                    return Err(Error::WindowSystem);
                },
            }
            return change_state::finished();
        }
        match self.focus_follows_mouse {
            Some(FocusFollowsMouseImplementation::Komorebi) => change_state::finished(),
            _ => Ok(switch_system_following(enable, screen)),
        }
    }

    fn toggle_own_following(&mut self)
        ensures
            final(self)@ == (match old(self)@.focus_follows_mouse {
                None => without_raise(
                    following(old(self)@, Some(FocusFollowsMouseImplementation::Komorebi)),
                ),
                Some(FocusFollowsMouseImplementation::Komorebi) => following(old(self)@, None),
                Some(FocusFollowsMouseImplementation::Windows) => old(self)@,
            }),
    {
        match self.focus_follows_mouse {
            None => {
                self.focus_follows_mouse = Some(FocusFollowsMouseImplementation::Komorebi);
                self.has_pending_raise_op = false;
            },
            Some(FocusFollowsMouseImplementation::Komorebi) => {
                self.focus_follows_mouse = None;
            },
            Some(FocusFollowsMouseImplementation::Windows) => {},
        }
    }

    fn toggle_follow_mouse(
        &mut self,
        custom_ffm: bool,
        implementation: FocusFollowsMouseImplementation,
        seen: &Observations,
        screen: &mut Screen,
    ) -> (r: Result<CommandStage, Error>)
        ensures
            (Deed { manager: final(self)@, screen: final(screen)@, result: r })
                == focus_following_toggled(
                old(self)@,
                old(screen)@,
                seen@,
                custom_ffm,
                implementation,
            ),
    {
        if custom_ffm && implementation == FocusFollowsMouseImplementation::Komorebi {
            match seen.system_focus_follows_mouse {
                Some(true) => {},
                Some(false) => {
                    self.toggle_own_following();
                },
                None => {
                    return Err(Error::WindowSystem);
                },
            }
            return change_state::finished();
        }
        match self.focus_follows_mouse {
            None => Ok(switch_system_following(true, screen)),
            Some(FocusFollowsMouseImplementation::Windows) => Ok(
                switch_system_following(false, screen),
            ),
            Some(FocusFollowsMouseImplementation::Komorebi) => change_state::finished(),
        }
    }

    fn use_file(&self, op: ManagerOp, stage: CommandStage, screen: &mut Screen) -> (r: Result<
        CommandStage,
        Error,
    >)
        ensures
            (Deed { manager: self@, screen: final(screen)@, result: r }) == with_file(
                self@,
                old(screen)@,
                op,
                stage,
            ),
    {
        match self.focused_workspace() {
            Ok(_) => {},
            Err(error) => {
                return Err(error);
            },
        }
        screen.manage(op);
        Ok(stage)
    }

    /// Take over by how much containers were resized.
    pub(crate) fn take_resize_dimensions(&mut self, seen: &Observations, screen: &mut Screen) -> (r:
        Result<CommandStage, Error>)
        ensures
            (Deed { manager: final(self)@, screen: final(screen)@, result: r }) == resize_loaded(
                old(self)@,
                old(screen)@,
                seen@,
            ),
    {
        proof {
            reveal(resize_loaded);
        }
        match self.focused_workspace_mut() {
            Ok(workspace) => {
                workspace.resize_dimensions = copy_dimensions(&seen.resize_dimensions);
            },
            Err(error) => {
                return Err(error);
            },
        }
        screen.update(false, false);
        change_state::finished()
    }

    /// Carry out a command that waits for something outside.
    pub(crate) fn await_outside(
        &mut self,
        message: &SocketMessage,
        custom_ffm: bool,
        seen: &Observations,
        screen: &mut Screen,
    ) -> (r: Option<Result<CommandStage, Error>>)
        ensures
            match awaited_by(old(self)@, old(screen)@, seen@, custom_ffm, *message) {
                Some(deed) => r is Some && (Deed {
                    manager: final(self)@,
                    screen: final(screen)@,
                    result: r->0,
                }) == deed,
                None => r is None && final(self)@ == old(self)@ && final(screen)@ == old(screen)@,
            },
    {
        proof {
            reveal(awaited_by);
        }
        let finish = CommandStage::Finish { force_borders: false };
        match message {
            SocketMessage::FocusFollowsMouse(implementation, enable) => Some(
                self.follow_mouse(custom_ffm, *implementation, *enable, seen, screen),
            ),
            SocketMessage::ToggleFocusFollowsMouse(implementation) => Some(
                self.toggle_follow_mouse(custom_ffm, *implementation, seen, screen),
            ),
            SocketMessage::QuickSave => Some(
                self.use_file(ManagerOp::SaveResizeDimensions(None), finish, screen),
            ),
            SocketMessage::Save(path) => Some(
                self.use_file(
                    ManagerOp::SaveResizeDimensions(Some(path.clone())),
                    finish,
                    screen,
                ),
            ),
            SocketMessage::QuickLoad => Some(
                self.use_file(
                    ManagerOp::LoadResizeDimensions(None),
                    CommandStage::ResizeLoaded,
                    screen,
                ),
            ),
            SocketMessage::Load(path) => Some(
                self.use_file(
                    ManagerOp::LoadResizeDimensions(Some(path.clone())),
                    CommandStage::ResizeLoaded,
                    screen,
                ),
            ),
            SocketMessage::ReplaceConfiguration(_) => {
                screen.manage(ManagerOp::CheckConfiguration);
                Some(Ok(CommandStage::ConfigurationChecked))
            },
            SocketMessage::AddSubscriberPipe(pipe) => {
                screen.manage(ManagerOp::ConnectPipe(pipe.clone()));
                Some(Ok(CommandStage::PipeConnected))
            },
            _ => None,
        }
    }
}

/// The window manager never lets the focus follow the mouse while the window system does,
/// and the window system is never asked to while the window manager does.
pub proof fn one_way_to_follow_the_mouse(
    manager: ManagerView,
    screen: ScreenView,
    seen: ObservationsView,
    custom_ffm: bool,
    implementation: FocusFollowsMouseImplementation,
    enable: bool,
)
    ensures
        ({
            let deed = focus_following(manager, screen, seen, custom_ffm, implementation, enable);
            &&& manager.focus_follows_mouse == Some(FocusFollowsMouseImplementation::Komorebi)
                ==> deed.screen == screen
            &&& seen.system_focus_follows_mouse == Some(true) ==> deed.manager == manager
        }),
        ({
            let deed = focus_following_toggled(manager, screen, seen, custom_ffm, implementation);
            &&& manager.focus_follows_mouse == Some(FocusFollowsMouseImplementation::Komorebi)
                ==> deed.screen == screen
            &&& seen.system_focus_follows_mouse == Some(true) ==> deed.manager == manager
        }),
{
}

} // verus!
