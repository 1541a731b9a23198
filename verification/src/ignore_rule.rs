//! The command that sends the windows away that a new rule ignores.

use vstd::prelude::*;

use crate::change_state;
use crate::change_state::Deed;
use crate::container::ContainerView;
use crate::desktop::Desktop;
use crate::desktop::DesktopView;
use crate::error::Error;
use crate::monitor::Monitor;
use crate::monitor::MonitorView;
use crate::plan::CommandStage;
use crate::rules::ApplicationIdentifier;
use crate::settings::Settings;
use crate::text;
use crate::window::Screen;
use crate::window::ScreenView;
use crate::window::Window;
use crate::window_manager::ManagerView;
use crate::window_manager::WindowManager;
use crate::workspace::Workspace;

verus! {

/// The text of a window that an identifier looks at, where the window system tells.
pub open spec fn text_of(hwnd: isize, kind: ApplicationIdentifier, d: DesktopView) -> Option<String> {
    let facts = d.at(hwnd);
    match kind {
        ApplicationIdentifier::Path => facts.path,
        ApplicationIdentifier::Exe => facts.exe,
        ApplicationIdentifier::Class => facts.class,
        ApplicationIdentifier::Title => facts.title,
    }
}

/// The windows with a text, each with the index of its monitor; none at all where the
/// text of one of them is not known.
pub open spec fn with_text(
    windows: Seq<Window>,
    idx: usize,
    kind: ApplicationIdentifier,
    id: Seq<char>,
    d: DesktopView,
) -> Option<Seq<(usize, isize)>>
    decreases windows.len(),
{
    if windows.len() == 0 {
        Some(Seq::empty())
    } else {
        match (
            with_text(windows.drop_last(), idx, kind, id, d),
            text_of(windows.last().hwnd, kind, d),
        ) {
            (Some(found), Some(text)) => if text@ == id {
                Some(found.push((idx, windows.last().hwnd)))
            } else {
                Some(found)
            },
            _ => None,
        }
    }
}

/// The windows with a text in the containers of a workspace.
pub open spec fn in_containers(
    containers: Seq<ContainerView>,
    idx: usize,
    kind: ApplicationIdentifier,
    id: Seq<char>,
    d: DesktopView,
) -> Option<Seq<(usize, isize)>>
    decreases containers.len(),
{
    if containers.len() == 0 {
        Some(Seq::empty())
    } else {
        match (
            in_containers(containers.drop_last(), idx, kind, id, d),
            with_text(containers.last().windows.elements, idx, kind, id, d),
        ) {
            (Some(found), Some(more)) => Some(found + more),
            _ => None,
        }
    }
}

/// The windows with a text in the containers that the monitors show.
pub open spec fn on_monitors(
    monitors: Seq<MonitorView>,
    kind: ApplicationIdentifier,
    id: Seq<char>,
    d: DesktopView,
) -> Result<Seq<(usize, isize)>, Error>
    decreases monitors.len(),
{
    if monitors.len() == 0 {
        Ok(Seq::empty())
    } else {
        match on_monitors(monitors.drop_last(), kind, id, d) {
            Err(error) => Err(error),
            Ok(found) => match monitors.last().workspaces.focused_element() {
                None => Err(Error::NoWorkspace),
                Some(workspace) => match in_containers(
                    workspace.containers.elements,
                    (monitors.len() - 1) as usize,
                    kind,
                    id,
                    d,
                ) {
                    Some(more) => Ok(found + more),
                    None => Err(Error::WindowSystem),
                },
            },
        }
    }
}

/// Take the first of the windows that are to be sent away out of its workspace, and lay
/// that out. What is left are the others.
pub open spec fn purged(
    manager: ManagerView,
    screen: ScreenView,
    settings: Settings,
    purge: Seq<(usize, isize)>,
) -> Deed {
    if purge.len() == 0 {
        change_state::carried_out(manager, screen)
    } else {
        let (idx, hwnd) = purge[0];
        if idx >= manager.monitors.elements.len() {
            change_state::refused(manager, screen, Error::NoMonitor)
        } else {
            let monitor = manager.monitors.elements[idx as int];
            match monitor.workspaces.focused_element() {
                None => change_state::refused(manager, screen, Error::NoWorkspace),
                Some(workspace) => if workspace.has(hwnd) {
                    let left = monitor.with_workspace(
                        monitor.workspaces.focused as int,
                        workspace.without_window(hwnd),
                    );
                    change_state::underway(
                        manager.with_monitor(
                            idx as int,
                            left.with_globals_at(
                                left.workspaces.focused as int,
                                manager.work_area_offset,
                                settings,
                            ),
                        ),
                        left.updated_screen(screen, settings),
                        CommandStage::Purge,
                    )
                } else {
                    change_state::refused(manager, screen, Error::NoWindow)
                },
            }
        }
    }
}

fn known_text(window: Window, kind: ApplicationIdentifier, desktop: &Desktop) -> (r: Option<String>)
    ensures
        r == text_of(window.hwnd, kind, desktop@),
{
    let text = match kind {
        ApplicationIdentifier::Path => window.path(desktop),
        ApplicationIdentifier::Exe => window.exe(desktop),
        ApplicationIdentifier::Class => window.class(desktop),
        ApplicationIdentifier::Title => window.title(desktop),
    };
    match text {
        Ok(text) => Some(text),
        Err(_) => None,
    }
}

fn find_with_text(
    windows: &Vec<Window>,
    idx: usize,
    kind: ApplicationIdentifier,
    id: &String,
    desktop: &Desktop,
    found: &mut Vec<(usize, isize)>,
) -> (r: bool)
    ensures
        match with_text(windows@, idx, kind, id@, desktop@) {
            Some(more) => r && final(found)@ == old(found)@ + more,
            None => !r,
        },
{
    let ghost before = found@;
    let mut i: usize = 0;
    assert(windows@.take(0) =~= Seq::empty());
    assert(before + Seq::<(usize, isize)>::empty() =~= before);
    while i < windows.len()
        invariant
            i <= windows@.len(),
            before == old(found)@,
            with_text(windows@.take(i as int), idx, kind, id@, desktop@) is Some,
            found@ == before + with_text(windows@.take(i as int), idx, kind, id@, desktop@)->0,
        decreases windows@.len() - i,
    {
        let ghost so_far = with_text(windows@.take(i as int), idx, kind, id@, desktop@)->0;
        assert(windows@.take(i + 1).drop_last() =~= windows@.take(i as int));
        match known_text(windows[i], kind, desktop) {
            Some(text) => {
                if text::equal(text.as_str(), id.as_str()) {
                    found.push((idx, windows[i].hwnd));
                    assert(found@ =~= before + so_far.push((idx, windows@[i as int].hwnd)));
                }
            },
            None => {
                proof {
                    unknown_text_spoils(windows@, idx, kind, id@, desktop@, i + 1);
                }
                return false;
            },
        }
        i = i + 1;
    }
    assert(windows@.take(i as int) =~= windows@);
    true
}

/// Where a part of the windows cannot be looked through, neither can all of them.
proof fn unknown_text_spoils(
    windows: Seq<Window>,
    idx: usize,
    kind: ApplicationIdentifier,
    id: Seq<char>,
    d: DesktopView,
    len: int,
)
    requires
        0 <= len <= windows.len(),
        with_text(windows.take(len), idx, kind, id, d) is None,
    ensures
        with_text(windows, idx, kind, id, d) is None,
    decreases windows.len() - len,
{
    if len < windows.len() {
        assert(windows.take(len + 1).drop_last() =~= windows.take(len));
        unknown_text_spoils(windows, idx, kind, id, d, len + 1);
    } else {
        assert(windows.take(len) =~= windows);
    }
}

proof fn unknown_container_spoils(
    containers: Seq<ContainerView>,
    idx: usize,
    kind: ApplicationIdentifier,
    id: Seq<char>,
    d: DesktopView,
    len: int,
)
    requires
        0 <= len <= containers.len(),
        in_containers(containers.take(len), idx, kind, id, d) is None,
    ensures
        in_containers(containers, idx, kind, id, d) is None,
    decreases containers.len() - len,
{
    if len < containers.len() {
        assert(containers.take(len + 1).drop_last() =~= containers.take(len));
        unknown_container_spoils(containers, idx, kind, id, d, len + 1);
    } else {
        assert(containers.take(len) =~= containers);
    }
}

proof fn unknown_monitor_spoils(
    monitors: Seq<MonitorView>,
    kind: ApplicationIdentifier,
    id: Seq<char>,
    d: DesktopView,
    len: int,
)
    requires
        0 <= len <= monitors.len(),
        on_monitors(monitors.take(len), kind, id, d) is Err,
    ensures
        on_monitors(monitors, kind, id, d) == on_monitors(monitors.take(len), kind, id, d),
    decreases monitors.len() - len,
{
    if len < monitors.len() {
        assert(monitors.take(len + 1).drop_last() =~= monitors.take(len));
        unknown_monitor_spoils(monitors, kind, id, d, len + 1);
    } else {
        assert(monitors.take(len) =~= monitors);
    }
}

fn find_in_containers(
    workspace: &Workspace,
    idx: usize,
    kind: ApplicationIdentifier,
    id: &String,
    desktop: &Desktop,
    found: &mut Vec<(usize, isize)>,
) -> (r: bool)
    ensures
        match in_containers(workspace@.containers.elements, idx, kind, id@, desktop@) {
            Some(more) => r && final(found)@ == old(found)@ + more,
            None => !r,
        },
{
    let ghost before = found@;
    let ghost containers = workspace@.containers.elements;
    let mut i: usize = 0;
    assert(containers.take(0) =~= Seq::empty());
    assert(before + Seq::<(usize, isize)>::empty() =~= before);
    while i < workspace.containers.elements.len()
        invariant
            i <= workspace.containers.elements@.len(),
            before == old(found)@,
            containers == workspace@.containers.elements,
            in_containers(containers.take(i as int), idx, kind, id@, desktop@) is Some,
            found@ == before + in_containers(
                containers.take(i as int),
                idx,
                kind,
                id@,
                desktop@,
            )->0,
        decreases workspace.containers.elements@.len() - i,
    {
        let ghost earlier = found@;
        let ghost so_far = in_containers(containers.take(i as int), idx, kind, id@, desktop@)->0;
        let container = &workspace.containers.elements[i];
        assert(containers[i as int] == container@);
        assert(container@.windows.elements =~= container.windows.elements@);
        assert(containers.take(i + 1).drop_last() =~= containers.take(i as int));
        if !find_with_text(&container.windows.elements, idx, kind, id, desktop, found) {
            proof {
                unknown_container_spoils(containers, idx, kind, id@, desktop@, i + 1);
            }
            return false;
        }
        let ghost more = with_text(container@.windows.elements, idx, kind, id@, desktop@)->0;
        assert((before + so_far) + more =~= before + (so_far + more));
        i = i + 1;
    }
    assert(containers.take(i as int) =~= containers);
    true
}

impl WindowManager {
    /// The windows with a text in the containers that the monitors show, each with the
    /// index of its monitor.
    pub(crate) fn windows_with_text(
        &self,
        kind: ApplicationIdentifier,
        id: &String,
        desktop: &Desktop,
    ) -> (r: Result<Vec<(usize, isize)>, Error>)
        ensures
            match on_monitors(self@.monitors.elements, kind, id@, desktop@) {
                Ok(found) => r matches Ok(windows) && windows@ == found,
                Err(error) => r matches Err(given) && given == error,
            },
    {
        let ghost monitors = self@.monitors.elements;
        let mut found: Vec<(usize, isize)> = Vec::new();
        let mut i: usize = 0;
        assert(monitors.take(0) =~= Seq::empty());
        while i < self.monitors.elements.len()
            invariant
                i <= self.monitors.elements@.len(),
                monitors == self@.monitors.elements,
                on_monitors(monitors.take(i as int), kind, id@, desktop@) == Ok::<
                    Seq<(usize, isize)>,
                    Error,
                >(found@),
            decreases self.monitors.elements@.len() - i,
        {
            let monitor = &self.monitors.elements[i];
            assert(monitors[i as int] == monitor@);
            assert(monitors.take(i + 1).drop_last() =~= monitors.take(i as int));
            let is_known = match monitor.focused_workspace() {
                Some(workspace) => find_in_containers(
                    workspace,
                    i,
                    kind,
                    id,
                    desktop,
                    &mut found,
                ),
                None => {
                    proof {
                        unknown_monitor_spoils(monitors, kind, id@, desktop@, i + 1);
                    }
                    return Err(Error::NoWorkspace);
                },
            };
            if !is_known {
                proof {
                    unknown_monitor_spoils(monitors, kind, id@, desktop@, i + 1);
                }
                return Err(Error::WindowSystem);
            }
            i = i + 1;
        }
        assert(monitors.take(i as int) =~= monitors);
        Ok(found)
    }

    /// Send the next window away.
    pub(crate) fn purge_next(
        &mut self,
        purge: &mut Vec<(usize, isize)>,
        settings: &Settings,
        screen: &mut Screen,
    ) -> (r: Result<CommandStage, Error>)
        ensures
            (Deed { manager: final(self)@, screen: final(screen)@, result: r }) == purged(
                old(self)@,
                old(screen)@,
                *settings,
                old(purge)@,
            ),
            final(purge)@ == (if old(purge)@.len() == 0 {
                old(purge)@
            } else {
                old(purge)@.drop_first()
            }),
    {
        if purge.len() == 0 {
            return change_state::finished();
        }
        let (idx, hwnd) = purge.remove(0);
        assert(purge@ =~= old(purge)@.drop_first());
        let offset = self.work_area_offset;
        proof {
            if idx < self@.monitors.elements.len() {
                assert(self@.monitors.elements.update(
                    idx as int,
                    self@.monitors.elements[idx as int],
                ) =~= self@.monitors.elements);
            }
        }
        match self.monitors.get_mut(idx) {
            Some(monitor) => {
                match send_away(monitor, hwnd) {
                    Ok(()) => {},
                    Err(error) => {
                        return Err(error);
                    },
                }
                let _ = monitor.update_focused_workspace(offset, settings, screen);
                Ok(CommandStage::Purge)
            },
            None => Err(Error::NoMonitor),
        }
    }
}

fn send_away(monitor: &mut Monitor, hwnd: isize) -> (r: Result<(), Error>)
    ensures
        match old(monitor)@.workspaces.focused_element() {
            None => r == Err::<(), Error>(Error::NoWorkspace) && final(monitor)@ == old(monitor)@,
            Some(workspace) => if workspace.has(hwnd) {
                &&& r is Ok
                &&& final(monitor)@ == old(monitor)@.with_workspace(
                    old(monitor)@.workspaces.focused as int,
                    workspace.without_window(hwnd),
                )
            } else {
                r == Err::<(), Error>(Error::NoWindow) && final(monitor)@ == old(monitor)@
            },
        },
{
    proof {
        let focused = monitor@.workspaces.focused as int;
        if monitor@.workspaces.focused_element() is Some {
            assert(monitor@.workspaces.elements.update(
                focused,
                monitor@.workspaces.elements[focused],
            ) =~= monitor@.workspaces.elements);
        }
    }
    match monitor.focused_workspace_mut() {
        Some(workspace) => if workspace.contains_window(hwnd) {
            workspace.remove_window(hwnd)
        } else {
            Err(Error::NoWindow)
        },
        None => Err(Error::NoWorkspace),
    }
}

} // verus!
