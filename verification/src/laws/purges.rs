//! How windows are sent away that a new rule ignores, and how the foreground comes to float.

use vstd::prelude::*;

use crate::container::ContainerView;
use crate::desktop::DesktopView;
use crate::error::Error;
use crate::ignore_rule;
use crate::laws::commands;
use crate::laws::commands::Situation;
use crate::laws::preferences;
use crate::manager_op::ManagerOp;
use crate::monitor::MonitorView;
use crate::plan::CommandStage;
use crate::plan::StepView;
use crate::process_command;
use crate::rules;
use crate::rules::ApplicationIdentifier;
use crate::rules::WindowTexts;
use crate::session;
use crate::session::RuleListsView;
use crate::session::SessionView;
use crate::socket_message::SocketMessage;
use crate::window::Window;
use crate::workspace;
use crate::workspace::WorkspaceView;

verus! {

/// Whether the text of a window, of a kind, is known to be a given one.
pub open spec fn has_text(
    hwnd: isize,
    kind: ApplicationIdentifier,
    id: Seq<char>,
    d: DesktopView,
) -> bool {
    let text = match kind {
        ApplicationIdentifier::Path => d.at(hwnd).path,
        ApplicationIdentifier::Exe => d.at(hwnd).exe,
        ApplicationIdentifier::Class => d.at(hwnd).class,
        ApplicationIdentifier::Title => d.at(hwnd).title,
    };
    text is Some && text->0@ == id
}

/// Whether one of the windows is a given one.
pub open spec fn is_among(windows: Seq<Window>, hwnd: isize) -> bool {
    exists|i: int| 0 <= i < windows.len() && (#[trigger] windows[i]).hwnd == hwnd
}

/// Whether a container of a workspace holds a window.
pub open spec fn is_tiled(workspace: WorkspaceView, hwnd: isize) -> bool {
    exists|c: int|
        0 <= c < workspace.containers.elements.len() && is_among(
            (#[trigger] workspace.containers.elements[c]).windows.elements,
            hwnd,
        )
}

proof fn pushed(list: Seq<(usize, isize)>, added: (usize, isize), entry: (usize, isize))
    ensures
        list.push(added).contains(entry) == (list.contains(entry) || added == entry),
{
    let longer = list.push(added);
    if list.contains(entry) {
        let i = choose|i: int| 0 <= i < list.len() && list[i] == entry;
        assert(longer[i] == entry);
    }
    if added == entry {
        assert(longer[list.len() as int] == entry);
    }
}

proof fn appended(list: Seq<(usize, isize)>, added: Seq<(usize, isize)>, entry: (usize, isize))
    ensures
        (list + added).contains(entry) == (list.contains(entry) || added.contains(entry)),
{
    let longer = list + added;
    if list.contains(entry) {
        let i = choose|i: int| 0 <= i < list.len() && list[i] == entry;
        assert(longer[i] == entry);
    }
    if added.contains(entry) {
        let i = choose|i: int| 0 <= i < added.len() && added[i] == entry;
        assert(longer[list.len() + i] == entry);
    }
    if longer.contains(entry) {
        let i = choose|i: int| 0 <= i < longer.len() && longer[i] == entry;
        if i < list.len() {
            assert(list[i] == entry);
        } else {
            assert(added[i - list.len()] == entry);
        }
    }
}

proof fn found_windows(
    windows: Seq<Window>,
    idx: usize,
    kind: ApplicationIdentifier,
    id: Seq<char>,
    d: DesktopView,
    entry: (usize, isize),
)
    ensures
        ignore_rule::with_text(windows, idx, kind, id, d) matches Some(found) ==> found.contains(
            entry,
        ) == (entry.0 == idx && is_among(windows, entry.1) && has_text(entry.1, kind, id, d)),
    decreases windows.len(),
{
    if windows.len() > 0 {
        let before = windows.drop_last();
        let last = windows.last().hwnd;
        found_windows(before, idx, kind, id, d, entry);
        if ignore_rule::with_text(before, idx, kind, id, d) is Some {
            pushed(ignore_rule::with_text(before, idx, kind, id, d)->0, (idx, last), entry);
        }
        assert(is_among(windows, entry.1) == (is_among(before, entry.1) || last == entry.1)) by {
            if is_among(before, entry.1) {
                let i = choose|i: int|
                    0 <= i < before.len() && (#[trigger] before[i]).hwnd == entry.1;
                assert(windows[i].hwnd == entry.1);
            }
            if is_among(windows, entry.1) {
                let i = choose|i: int|
                    0 <= i < windows.len() && (#[trigger] windows[i]).hwnd == entry.1;
                if i < before.len() {
                    assert(before[i].hwnd == entry.1);
                }
            }
            if last == entry.1 {
                assert(windows[windows.len() - 1].hwnd == entry.1);
            }
        }
    }
}

proof fn found_in_containers(
    containers: Seq<ContainerView>,
    idx: usize,
    kind: ApplicationIdentifier,
    id: Seq<char>,
    d: DesktopView,
    entry: (usize, isize),
)
    ensures
        ignore_rule::in_containers(containers, idx, kind, id, d) matches Some(found)
            ==> found.contains(entry) == (entry.0 == idx && has_text(entry.1, kind, id, d)
            && exists|c: int|
            0 <= c < containers.len() && is_among(
                (#[trigger] containers[c]).windows.elements,
                entry.1,
            )),
    decreases containers.len(),
{
    if containers.len() > 0 {
        let before = containers.drop_last();
        let last = containers.last().windows.elements;
        found_in_containers(before, idx, kind, id, d, entry);
        found_windows(last, idx, kind, id, d, entry);
        let found = ignore_rule::in_containers(before, idx, kind, id, d);
        let more = ignore_rule::with_text(last, idx, kind, id, d);
        if found is Some && more is Some {
            appended(found->0, more->0, entry);
        }
        if exists|c: int|
            0 <= c < before.len() && is_among((#[trigger] before[c]).windows.elements, entry.1) {
            let c = choose|c: int|
                0 <= c < before.len() && is_among((#[trigger] before[c]).windows.elements, entry.1);
            assert(is_among(containers[c].windows.elements, entry.1));
        }
        if exists|c: int|
            0 <= c < containers.len() && is_among(
                (#[trigger] containers[c]).windows.elements,
                entry.1,
            ) {
            let c = choose|c: int|
                0 <= c < containers.len() && is_among(
                    (#[trigger] containers[c]).windows.elements,
                    entry.1,
                );
            if c < before.len() {
                assert(is_among(before[c].windows.elements, entry.1));
            }
        }
        if is_among(last, entry.1) {
            assert(is_among(containers[containers.len() - 1].windows.elements, entry.1));
        }
    }
}

/// Whether a monitor shows a window with a text in a container.
pub open spec fn shows_text(
    monitors: Seq<MonitorView>,
    entry: (usize, isize),
    kind: ApplicationIdentifier,
    id: Seq<char>,
    d: DesktopView,
) -> bool {
    let workspaces = monitors[entry.0 as int].workspaces;
    &&& entry.0 < monitors.len()
    &&& workspaces.focused < workspaces.elements.len()
    &&& is_tiled(workspaces.elements[workspaces.focused as int], entry.1)
    &&& has_text(entry.1, kind, id, d)
}

proof fn found_on_monitors(
    monitors: Seq<MonitorView>,
    kind: ApplicationIdentifier,
    id: Seq<char>,
    d: DesktopView,
    entry: (usize, isize),
)
    requires
        monitors.len() <= usize::MAX,
    ensures
        ignore_rule::on_monitors(monitors, kind, id, d) matches Ok(found) ==> found.contains(entry)
            == shows_text(monitors, entry, kind, id, d),
    decreases monitors.len(),
{
    if monitors.len() > 0 {
        let before = monitors.drop_last();
        let last = monitors.last().workspaces;
        let idx = (monitors.len() - 1) as usize;
        found_on_monitors(before, kind, id, d, entry);
        if last.focused < last.elements.len() {
            let containers = last.elements[last.focused as int].containers.elements;
            found_in_containers(containers, idx, kind, id, d, entry);
            let found = ignore_rule::on_monitors(before, kind, id, d);
            let more = ignore_rule::in_containers(containers, idx, kind, id, d);
            if found is Ok && more is Some {
                appended(found->Ok_0, more->0, entry);
            }
        }
        if entry.0 < before.len() {
            assert(before[entry.0 as int] == monitors[entry.0 as int]);
        }
    }
}

/// A command that ignores windows notes the rule, and sends away exactly those windows in the
/// containers that the monitors show whose text is the given one. The state is left as it is
/// until then.
pub proof fn ignored_windows_are_sent_away(
    situation: Situation,
    kind: ApplicationIdentifier,
    id: String,
    entry: (usize, isize),
)
    requires
        situation.is_at_home(),
        situation.manager.monitors.elements.len() <= usize::MAX,
    ensures
        ({
            let turn = situation.after(SocketMessage::IgnoreRule(kind, id));
            let lists = situation.session.lists;
            let steps = situation.screen.steps.push(StepView::RememberState);
            &&& turn.manager == situation.manager
            &&& turn.session.lists == (RuleListsView {
                ignore: preferences::noted(lists.ignore, kind, id),
                ..lists
            })
            &&& turn.session.workspace_rules == situation.session.workspace_rules
            &&& turn.session.settings == situation.session.settings
            &&& turn.result is Ok ==> turn.session.purge.contains(entry) == shows_text(
                situation.manager.monitors.elements,
                entry,
                kind,
                id@,
                situation.screen.desktop,
            )
            &&& turn.result is Ok ==> turn.screen.steps == steps.push(
                StepView::ContinueCommand(CommandStage::Purge),
            )
        }),
{
    reveal(process_command::performed);
    reveal(process_command::ignoring);
    preferences::is_noted(situation.session.lists.ignore, kind, id);
    found_on_monitors(
        situation.manager.monitors.elements,
        kind,
        id@,
        situation.screen.desktop,
        entry,
    );
}

/// Of the windows that are sent away, one after the other leaves the workspace that its monitor
/// shows, and every other window stays on it.
pub proof fn windows_leave_one_by_one(
    situation: Situation,
    message: SocketMessage,
    other: isize,
)
    requires
        situation.session.purge.len() > 0,
        situation.session.purge[0].0 < situation.manager.monitors.elements.len(),
        ({
            let (m, hwnd) = situation.session.purge[0];
            let workspaces = situation.manager.monitors.elements[m as int].workspaces;
            &&& workspaces.focused < workspaces.elements.len()
            &&& workspaces.elements[workspaces.focused as int].has(hwnd)
            &&& workspaces.elements[workspaces.focused as int].holds_once(hwnd)
        }),
    ensures
        ({
            let turn = situation.after_stage(message, CommandStage::Purge);
            let (m, hwnd) = situation.session.purge[0];
            let monitors = situation.manager.monitors.elements;
            let focused = monitors[m as int].workspaces.focused as int;
            let before = monitors[m as int].workspaces.elements[focused];
            let after = turn.manager.monitors.elements[m as int].workspaces.elements[focused];
            &&& turn.result is Ok
            &&& turn.session == (SessionView {
                purge: situation.session.purge.drop_first(),
                ..situation.session
            })
            &&& turn.manager.monitors.focused == situation.manager.monitors.focused
            &&& turn.manager.monitors.elements.len() == monitors.len()
            &&& !after.has(hwnd)
            &&& other != hwnd ==> after.has(other) == before.has(other)
            &&& forall|i: int|
                0 <= i < monitors.len() && i != m ==> #[trigger] turn.manager.monitors.elements[i]
                    == monitors[i]
            &&& turn.screen.steps.last() == StepView::ContinueCommand(CommandStage::Purge)
        }),
{
    reveal(process_command::gone_on);
    let (m, hwnd) = situation.session.purge[0];
    let workspaces = situation.manager.monitors.elements[m as int].workspaces;
    let before = workspaces.elements[workspaces.focused as int];
    workspace::windows_that_are_taken_out_are_gone(before, hwnd, hwnd);
    workspace::windows_that_are_taken_out_are_gone(before, hwnd, other);
    let turn = situation.after_stage(message, CommandStage::Purge);
    let after = turn.manager.monitors.elements[m as int].workspaces.elements[workspaces.focused as int];
    let left = before.without_window(hwnd);
    assert(after == (WorkspaceView { globals: after.globals, ..left }));
    assert(after.has(hwnd) == left.has(hwnd));
    assert(after.has(other) == left.has(other));
}

/// Once none is left to be sent away, the command ends.
pub proof fn sending_away_ends(situation: Situation, message: SocketMessage)
    requires
        situation.session.purge.len() == 0,
    ensures
        ({
            let turn = situation.after_stage(message, CommandStage::Purge);
            &&& turn.result is Ok
            &&& turn.manager == situation.manager
            &&& turn.session == situation.session
            &&& turn.screen.steps == situation.screen.steps.push(
                StepView::ContinueCommand(commands::finish()),
            )
        }),
{
    reveal(process_command::gone_on);
}

/// The command that lets the window in the foreground float for the session adds one and the same
/// rule to the floating windows and to those of the session, and lets the window float, where its
/// texts are known.
pub proof fn the_foreground_floats_for_the_session(situation: Situation)
    requires
        situation.is_at_home(),
    ensures
        ({
            let turn = situation.after(SocketMessage::SessionFloatRule);
            let foreground = situation.screen.desktop.foreground;
            let facts = situation.screen.desktop.at(foreground->0);
            let is_known = foreground is Some && facts.exe is Some && facts.title is Some
                && facts.class is Some;
            let before = situation.session.lists;
            let after = turn.session.lists;
            &&& foreground is None ==> situation.fails(turn, Error::WindowSystem)
            &&& is_known ==> {
                &&& turn.result is Ok
                &&& turn.manager == situation.manager
                &&& after.floating.len() == before.floating.len() + 1
                &&& after.session_floating.len() == before.session_floating.len() + 1
                &&& after.floating.last() == after.session_floating.last()
                &&& after.floating.drop_last() == before.floating
                &&& after.session_floating.drop_last() == before.session_floating
                &&& after.ignore == before.ignore
                &&& after.manage == before.manage
                &&& turn.screen.steps == situation.screen.steps.push(
                    StepView::RememberState,
                ).push(StepView::Manage(ManagerOp::ToggleFloat(true))).push(
                    StepView::ContinueCommand(commands::finish()),
                )
            }
            &&& foreground is Some && !is_known ==> turn.session == situation.session
                && turn.manager == situation.manager && turn.result is Ok
        }),
{
    reveal(process_command::performed);
    reveal(process_command::floating_for_session);
    let turn = situation.after(SocketMessage::SessionFloatRule);
    let before = situation.session.lists;
    let after = turn.session.lists;
    if after.floating.len() > before.floating.len() {
        assert(after.floating.drop_last() =~= before.floating);
        assert(after.session_floating.drop_last() =~= before.session_floating);
    }
}

/// The rule that lets a window float for the session is about the windows with its executable,
/// its title and its class, and about no others.
pub proof fn session_rules_are_about_the_same_texts(
    exe: String,
    title: String,
    class: String,
    texts: WindowTexts,
    regexes: Map<Seq<char>, Set<Seq<char>>>,
)
    ensures
        rules::rule_matches(session::float_rule(exe, title, class), texts, regexes) == (texts.exe
            == exe@ && texts.title == title@ && texts.class == class@),
{
    let rule = session::float_rule(exe, title, class);
    let identifiers = rule->Composite_0;
    assert(rules::identifier_matches(identifiers[0], texts, regexes) == (texts.exe == exe@));
    assert(rules::identifier_matches(identifiers[1], texts, regexes) == (texts.title == title@));
    assert(rules::identifier_matches(identifiers[2], texts, regexes) == (texts.class == class@));
}

} // verus!
