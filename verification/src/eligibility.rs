//! Which windows are managed.

use vstd::prelude::*;

use crate::desktop::Desktop;
use crate::desktop::WindowFacts;
use crate::error::Error;
use crate::plan::Call;
use crate::plan::Plan;
use crate::plan::StepView;
use crate::rule_set;
use crate::rule_set::RuleSet;
use crate::rules;
use crate::rules::MatchingRule;
use crate::rules::RuleView;
use crate::rules::WindowTexts;
use crate::styles;
use crate::styles::ExtendedWindowStyle;
use crate::styles::WindowStyle;
use crate::window;
use crate::window::Window;
use crate::window_manager_event::WindowManagerEvent;

verus! {

/// How a window fared against the rules, for somebody who wants to know why it is
/// managed or not.
#[derive(Debug)]
pub struct RuleDebug {
    pub should_manage: bool,
    pub is_window: bool,
    pub has_minimum_width: bool,
    pub has_minimum_height: bool,
    pub has_title: bool,
    pub is_cloaked: bool,
    pub allow_cloaked: bool,
    pub allow_layered_transparency: bool,
    pub window_style: Option<WindowStyle>,
    pub extended_window_style: Option<ExtendedWindowStyle>,
    pub title: Option<String>,
    pub exe_name: Option<String>,
    pub class: Option<String>,
    pub path: Option<String>,
    pub matches_permaignore_class: Option<String>,
    pub matches_ignore_identifier: Option<MatchingRule>,
    pub matches_managed_override: Option<MatchingRule>,
    pub matches_layered_whitelist: Option<MatchingRule>,
    pub matches_floating_applications: Option<MatchingRule>,
    pub matches_wsl2_gui: Option<String>,
    pub matches_no_titlebar: Option<MatchingRule>,
}

/// How a window fared against the rules, for contracts.
pub struct RuleDebugView {
    pub should_manage: bool,
    pub is_window: bool,
    pub has_minimum_width: bool,
    pub has_minimum_height: bool,
    pub has_title: bool,
    pub is_cloaked: bool,
    pub allow_cloaked: bool,
    pub allow_layered_transparency: bool,
    pub window_style: Option<WindowStyle>,
    pub extended_window_style: Option<ExtendedWindowStyle>,
    pub title: Option<Seq<char>>,
    pub exe_name: Option<Seq<char>>,
    pub class: Option<Seq<char>>,
    pub path: Option<Seq<char>>,
    pub matches_permaignore_class: Option<Seq<char>>,
    pub matches_ignore_identifier: Option<RuleView>,
    pub matches_managed_override: Option<RuleView>,
    pub matches_layered_whitelist: Option<RuleView>,
    pub matches_floating_applications: Option<RuleView>,
    pub matches_wsl2_gui: Option<Seq<char>>,
    pub matches_no_titlebar: Option<RuleView>,
}

pub open spec fn text_view(text: Option<String>) -> Option<Seq<char>> {
    match text {
        Some(text) => Some(text@),
        None => None,
    }
}

pub open spec fn rule_view(rule: Option<MatchingRule>) -> Option<RuleView> {
    match rule {
        Some(rule) => Some(rule@),
        None => None,
    }
}

impl View for RuleDebug {
    type V = RuleDebugView;

    open spec fn view(&self) -> RuleDebugView {
        RuleDebugView {
            should_manage: self.should_manage,
            is_window: self.is_window,
            has_minimum_width: self.has_minimum_width,
            has_minimum_height: self.has_minimum_height,
            has_title: self.has_title,
            is_cloaked: self.is_cloaked,
            allow_cloaked: self.allow_cloaked,
            allow_layered_transparency: self.allow_layered_transparency,
            window_style: self.window_style,
            extended_window_style: self.extended_window_style,
            title: text_view(self.title),
            exe_name: text_view(self.exe_name),
            class: text_view(self.class),
            path: text_view(self.path),
            matches_permaignore_class: text_view(self.matches_permaignore_class),
            matches_ignore_identifier: rule_view(self.matches_ignore_identifier),
            matches_managed_override: rule_view(self.matches_managed_override),
            matches_layered_whitelist: rule_view(self.matches_layered_whitelist),
            matches_floating_applications: rule_view(self.matches_floating_applications),
            matches_wsl2_gui: text_view(self.matches_wsl2_gui),
            matches_no_titlebar: rule_view(self.matches_no_titlebar),
        }
    }
}

/// Nothing has been found out yet.
pub open spec fn blank_debug() -> RuleDebugView {
    RuleDebugView {
        should_manage: false,
        is_window: false,
        has_minimum_width: false,
        has_minimum_height: false,
        has_title: false,
        is_cloaked: false,
        allow_cloaked: false,
        allow_layered_transparency: false,
        window_style: None,
        extended_window_style: None,
        title: None,
        exe_name: None,
        class: None,
        path: None,
        matches_permaignore_class: None,
        matches_ignore_identifier: None,
        matches_managed_override: None,
        matches_layered_whitelist: None,
        matches_floating_applications: None,
        matches_wsl2_gui: None,
        matches_no_titlebar: None,
    }
}

impl Default for RuleDebug {
    fn default() -> (r: Self)
        ensures
            r@ == blank_debug(),
    {
        RuleDebug {
            should_manage: false,
            is_window: false,
            has_minimum_width: false,
            has_minimum_height: false,
            has_title: false,
            is_cloaked: false,
            allow_cloaked: false,
            allow_layered_transparency: false,
            window_style: None,
            extended_window_style: None,
            title: None,
            exe_name: None,
            class: None,
            path: None,
            matches_permaignore_class: None,
            matches_ignore_identifier: None,
            matches_managed_override: None,
            matches_layered_whitelist: None,
            matches_floating_applications: None,
            matches_wsl2_gui: None,
            matches_no_titlebar: None,
        }
    }
}

/// What decides whether a window that can be managed is managed.
pub struct Candidate {
    pub texts: WindowTexts,
    pub style: u32,
    pub ex_style: u32,
    /// The window was made layered by the transparency of the window manager.
    pub dimmed: bool,
    /// The event that is processed is that the window was hidden.
    pub hidden: bool,
}

/// The rule of a list that takes effect on a candidate.
pub open spec fn effective(
    list: Seq<MatchingRule>,
    candidate: Candidate,
    rules: RuleSet,
) -> Option<RuleView> {
    rules::last_match(list, candidate.texts, rules.regex_identifiers@)
}

/// A class that is never managed.
pub open spec fn permaignored(candidate: Candidate, rules: RuleSet) -> bool {
    rule_set::holds_text(rules.permaignore_classes@, candidate.texts.class)
}

/// Ignored by a rule, and not managed by another one.
pub open spec fn ignored(candidate: Candidate, rules: RuleSet) -> bool {
    effective(rules.ignore_identifiers@, candidate, rules) is Some && effective(
        rules.manage_identifiers@,
        candidate,
        rules,
    ) is None
}

/// Whether a window is managed: not ignored, and either managed by a rule or with the
/// looks of an application window. A layered window passes for one where a rule allows
/// it, where the window manager made it layered, and where the event is that it was
/// hidden.
pub open spec fn eligible(candidate: Candidate, rules: RuleSet) -> bool {
    let managed = effective(rules.manage_identifiers@, candidate, rules) is Some;
    let framed = rule_set::holds_text(rules.wsl2_ui_processes@, candidate.texts.exe) || effective(
        rules.no_titlebar@,
        candidate,
        rules,
    ) is Some || (styles::has_bits(candidate.style, styles::CAPTION) && styles::has_bits(
        candidate.ex_style,
        styles::WINDOWEDGE,
    ));
    let allow_layered = candidate.dimmed || candidate.hidden || effective(
        rules.layered_whitelist@,
        candidate,
        rules,
    ) is Some;
    &&& !permaignored(candidate, rules)
    &&& !ignored(candidate, rules)
    &&& managed || (framed && !styles::has_bits(candidate.ex_style, styles::DLGMODALFRAME) && (
    allow_layered || !styles::has_bits(candidate.ex_style, styles::LAYERED)))
}

/// A newly found match, or what was noted before.
pub open spec fn found_or<T>(found: Option<T>, before: Option<T>) -> Option<T> {
    match found {
        Some(found) => Some(found),
        None => before,
    }
}

/// What is noted of a candidate.
pub open spec fn debug_of(
    debug: RuleDebugView,
    candidate: Candidate,
    rules: RuleSet,
) -> RuleDebugView {
    if permaignored(candidate, rules) {
        RuleDebugView { matches_permaignore_class: Some(candidate.texts.class), ..debug }
    } else {
        let debug = RuleDebugView {
            matches_ignore_identifier: found_or(
                effective(rules.ignore_identifiers@, candidate, rules),
                debug.matches_ignore_identifier,
            ),
            matches_managed_override: found_or(
                effective(rules.manage_identifiers@, candidate, rules),
                debug.matches_managed_override,
            ),
            matches_floating_applications: found_or(
                effective(rules.floating_applications@, candidate, rules),
                debug.matches_floating_applications,
            ),
            ..debug
        };
        if ignored(candidate, rules) {
            debug
        } else {
            RuleDebugView {
                matches_layered_whitelist: found_or(
                    effective(rules.layered_whitelist@, candidate, rules),
                    debug.matches_layered_whitelist,
                ),
                allow_layered_transparency: debug.allow_layered_transparency || candidate.dimmed
                    || candidate.hidden,
                matches_wsl2_gui: if rule_set::holds_text(
                    rules.wsl2_ui_processes@,
                    candidate.texts.exe,
                ) {
                    Some(candidate.texts.exe)
                } else {
                    debug.matches_wsl2_gui
                },
                matches_no_titlebar: found_or(
                    effective(rules.no_titlebar@, candidate, rules),
                    debug.matches_no_titlebar,
                ),
                ..debug
            }
        }
    }
}

/// A slow application that is not ignored is waited for.
pub open spec fn wait_steps(candidate: Candidate, rules: RuleSet) -> Seq<StepView> {
    if !permaignored(candidate, rules) && !ignored(candidate, rules) && effective(
        rules.slow_application_identifiers@,
        candidate,
        rules,
    ) is Some {
        seq![StepView::Do(Call::Sleep(rules.slow_application_compensation_time))]
    } else {
        Seq::empty()
    }
}

/// Whether the window of an event is hidden by it.
pub open spec fn is_hide(event: Option<WindowManagerEvent>) -> bool {
    event matches Some(event) && event is Hide
}

/// Note a match, where there is one.
fn note(slot: &mut Option<MatchingRule>, found: Option<MatchingRule>)
    ensures
        rule_view(*final(slot)) == found_or(rule_view(found), rule_view(*old(slot))),
{
    if found.is_some() {
        *slot = found;
    }
}

impl RuleDebug {
    /// Note by which rules a window is ignored, managed or floated.
    fn note_rules(
        &mut self,
        ignored: Option<MatchingRule>,
        managed: Option<MatchingRule>,
        floated: Option<MatchingRule>,
    )
        ensures
            final(self)@ == (RuleDebugView {
                matches_ignore_identifier: found_or(
                    rule_view(ignored),
                    old(self)@.matches_ignore_identifier,
                ),
                matches_managed_override: found_or(
                    rule_view(managed),
                    old(self)@.matches_managed_override,
                ),
                matches_floating_applications: found_or(
                    rule_view(floated),
                    old(self)@.matches_floating_applications,
                ),
                ..old(self)@
            }),
    {
        note(&mut self.matches_ignore_identifier, ignored);
        note(&mut self.matches_managed_override, managed);
        note(&mut self.matches_floating_applications, floated);
    }

    /// Note what excuses the looks of a window.
    fn note_excuses(
        &mut self,
        layered: Option<MatchingRule>,
        transparency: bool,
        wsl2_gui: Option<String>,
        no_titlebar: Option<MatchingRule>,
    )
        ensures
            final(self)@ == (RuleDebugView {
                matches_layered_whitelist: found_or(
                    rule_view(layered),
                    old(self)@.matches_layered_whitelist,
                ),
                allow_layered_transparency: old(self)@.allow_layered_transparency || transparency,
                matches_wsl2_gui: found_or(text_view(wsl2_gui), old(self)@.matches_wsl2_gui),
                matches_no_titlebar: found_or(
                    rule_view(no_titlebar),
                    old(self)@.matches_no_titlebar,
                ),
                ..old(self)@
            }),
    {
        note(&mut self.matches_layered_whitelist, layered);
        self.allow_layered_transparency = self.allow_layered_transparency || transparency;
        if wsl2_gui.is_some() {
            self.matches_wsl2_gui = wsl2_gui;
        }
        note(&mut self.matches_no_titlebar, no_titlebar);
    }
}

/// The texts of a window.
struct Texts<'a> {
    title: &'a String,
    exe: &'a String,
    class: &'a String,
    path: &'a String,
}

impl<'a> Texts<'a> {
    spec fn spoken(self) -> WindowTexts {
        WindowTexts {
            title: self.title@,
            exe: self.exe@,
            class: self.class@,
            path: self.path@,
        }
    }

    /// The rule of a list that takes effect on the window.
    fn rule_in(&self, list: &Vec<MatchingRule>, rules: &RuleSet) -> (r: Option<MatchingRule>)
        requires
            rules.wf(),
        ensures
            rule_view(r) == rules::last_match(list@, self.spoken(), rules.regex_identifiers@),
    {
        rules::should_act(
            self.title.as_str(),
            self.exe.as_str(),
            self.class.as_str(),
            self.path.as_str(),
            list,
            &rules.regex_identifiers,
        )
    }
}

fn window_is_eligible(
    hwnd: isize,
    title: &String,
    exe_name: &String,
    class: &String,
    path: &String,
    style: &WindowStyle,
    ex_style: &ExtendedWindowStyle,
    event: Option<WindowManagerEvent>,
    rules: &RuleSet,
    dimmed_hwnds: &Vec<isize>,
    debug: &mut RuleDebug,
    plan: &mut Plan,
) -> (r: bool)
    requires
        rules.wf(),
    ensures
        ({
            let candidate = Candidate {
                texts: WindowTexts { title: title@, exe: exe_name@, class: class@, path: path@ },
                style: style.bits,
                ex_style: ex_style.bits,
                dimmed: dimmed_hwnds@.contains(hwnd),
                hidden: is_hide(event),
            };
            &&& r == eligible(candidate, *rules)
            &&& final(debug)@ == debug_of(old(debug)@, candidate, *rules)
            &&& final(plan)@ == old(plan)@ + wait_steps(candidate, *rules)
        }),
{
    let ghost candidate = Candidate {
        texts: WindowTexts { title: title@, exe: exe_name@, class: class@, path: path@ },
        style: style.bits,
        ex_style: ex_style.bits,
        dimmed: dimmed_hwnds@.contains(hwnd),
        hidden: is_hide(event),
    };
    assert(plan@ + Seq::<StepView>::empty() =~= plan@);

    if rule_set::contains_text(&rules.permaignore_classes, class.as_str()) {
        debug.matches_permaignore_class = Some(class.clone());
        return false;
    }
    let texts = Texts { title, exe: exe_name, class, path };
    let ignore_rule = texts.rule_in(&rules.ignore_identifiers, rules);
    let manage_rule = texts.rule_in(&rules.manage_identifiers, rules);
    let float_rule = texts.rule_in(&rules.floating_applications, rules);
    let should_ignore = ignore_rule.is_some();
    let managed_override = manage_rule.is_some();
    debug.note_rules(ignore_rule, manage_rule, float_rule);
    if should_ignore && !managed_override {
        return false;
    }
    let layered_rule = texts.rule_in(&rules.layered_whitelist, rules);
    // Hide events are processed for dimmed windows on every monitor, so that no tile is
    // left without its window.
    let transparency = window::position_of(dimmed_hwnds, hwnd).is_some() || matches!(
        event,
        Some(WindowManagerEvent::Hide(_, _))
    );
    let allow_layered = layered_rule.is_some() || transparency;
    let allow_wsl2_gui = rule_set::contains_text(&rules.wsl2_ui_processes, exe_name.as_str());
    let titlebar_rule = texts.rule_in(&rules.no_titlebar, rules);
    let allow_titlebar_removed = titlebar_rule.is_some();
    debug.note_excuses(
        layered_rule,
        transparency,
        if allow_wsl2_gui {
            Some(exe_name.clone())
        } else {
            None
        },
        titlebar_rule,
    );
    if texts.rule_in(&rules.slow_application_identifiers, rules).is_some() {
        plan.call(Call::Sleep(rules.slow_application_compensation_time));
    }
    assert(plan@ =~= old(plan)@ + wait_steps(candidate, *rules));
    let framed = allow_wsl2_gui || allow_titlebar_removed || (style.contains(styles::CAPTION)
        && ex_style.contains(styles::WINDOWEDGE));
    (framed && !ex_style.contains(styles::DLGMODALFRAME) && (allow_layered || !ex_style.contains(
        styles::LAYERED,
    ))) || managed_override
}

/// The outcome of asking whether a window is managed.
pub struct Judgement {
    pub manage: bool,
    pub debug: RuleDebugView,
    pub steps: Seq<StepView>,
}

/// A judgement that is reached before the rules are looked at.
pub open spec fn refused(debug: RuleDebugView) -> Judgement {
    Judgement { manage: false, debug, steps: Seq::empty() }
}

/// Whether a cloaked window may be managed: only where the event is that it was hidden
/// or cloaked.
pub open spec fn allows_cloaked(event: Option<WindowManagerEvent>) -> bool {
    event matches Some(event) && (event is Hide || event is Cloak)
}

/// The width and the height of a window, zero where they are not known.
pub open spec fn known_size(facts: WindowFacts) -> (i32, i32) {
    match facts.rect {
        Some(rect) => (rect.right, rect.bottom),
        None => (0, 0),
    }
}

/// The texts and styles of a window, where the window system gives all of them.
pub open spec fn candidate_of(
    facts: WindowFacts,
    event: Option<WindowManagerEvent>,
    dimmed: bool,
) -> Option<Candidate> {
    match (facts.title, facts.exe, facts.class, facts.path) {
        (Some(title), Some(exe), Some(class), Some(path)) => match (
            window::window_style(facts.style),
            window::extended_style(facts.ex_style),
        ) {
            (Some(style), Some(ex_style)) => Some(
                Candidate {
                    texts: WindowTexts { title: title@, exe: exe@, class: class@, path: path@ },
                    style,
                    ex_style,
                    dimmed,
                    hidden: is_hide(event),
                },
            ),
            _ => None,
        },
        _ => None,
    }
}

/// Whether a window is managed when an event is processed, and what is noted of it.
#[verifier::opaque]
pub open spec fn judge(
    facts: WindowFacts,
    event: Option<WindowManagerEvent>,
    rules: RuleSet,
    dimmed: bool,
    debug: RuleDebugView,
) -> Judgement {
    if event matches Some(event) && event is Manage {
        Judgement {
            manage: true,
            debug: RuleDebugView {
                is_window: true,
                has_minimum_width: true,
                has_minimum_height: true,
                has_title: true,
                should_manage: true,
                ..debug
            },
            steps: Seq::empty(),
        }
    } else if !facts.is_window {
        refused(debug)
    } else {
        let debug = RuleDebugView { is_window: true, ..debug };
        if known_size(facts).0 < rules.minimum_width {
            refused(debug)
        } else {
            let debug = RuleDebugView { has_minimum_width: true, ..debug };
            if known_size(facts).1 < rules.minimum_height {
                refused(debug)
            } else {
                let debug = RuleDebugView { has_minimum_height: true, ..debug };
                if facts.title is None {
                    refused(debug)
                } else {
                    let is_cloaked = facts.is_cloaked == Some(true);
                    let debug = RuleDebugView {
                        has_title: true,
                        is_cloaked,
                        allow_cloaked: allows_cloaked(event),
                        ..debug
                    };
                    if is_cloaked && !allows_cloaked(event) {
                        refused(debug)
                    } else {
                        judge_candidate(facts, event, rules, dimmed, debug)
                    }
                }
            }
        }
    }
}

/// The judgement of a window that can be managed, by its texts and styles.
pub open spec fn judge_candidate(
    facts: WindowFacts,
    event: Option<WindowManagerEvent>,
    rules: RuleSet,
    dimmed: bool,
    debug: RuleDebugView,
) -> Judgement {
    match (facts.title, facts.exe, facts.class, facts.path) {
        (Some(title), Some(exe), Some(class), Some(path)) => {
            let debug = RuleDebugView {
                title: Some(title@),
                exe_name: Some(exe@),
                class: Some(class@),
                path: Some(path@),
                ..debug
            };
            match candidate_of(facts, event, dimmed) {
                Some(candidate) => {
                    let debug = debug_of(
                        RuleDebugView {
                            window_style: Some(WindowStyle { bits: candidate.style }),
                            extended_window_style: Some(
                                ExtendedWindowStyle { bits: candidate.ex_style },
                            ),
                            ..debug
                        },
                        candidate,
                        rules,
                    );
                    Judgement {
                        manage: eligible(candidate, rules),
                        debug: RuleDebugView {
                            should_manage: eligible(candidate, rules),
                            ..debug
                        },
                        steps: wait_steps(candidate, rules),
                    }
                },
                None => refused(debug),
            }
        },
        _ => refused(debug),
    }
}

impl Window {
    /// Whether the window is managed when an event is processed. What was found out is
    /// noted in `debug`.
    pub fn should_manage(
        self,
        event: Option<WindowManagerEvent>,
        debug: &mut RuleDebug,
        rules: &RuleSet,
        dimmed_hwnds: &Vec<isize>,
        desktop: &Desktop,
        plan: &mut Plan,
    ) -> (r: Result<bool, Error>)
        requires
            rules.wf(),
        ensures
            ({
                let judgement = judge(
                    desktop@.at(self.hwnd),
                    event,
                    *rules,
                    dimmed_hwnds@.contains(self.hwnd),
                    old(debug)@,
                );
                &&& r == Ok::<bool, Error>(judgement.manage)
                &&& final(debug)@ == judgement.debug
                &&& final(plan)@ == old(plan)@ + judgement.steps
            }),
    {
        let ghost before = plan@;
        assert(before + Seq::<StepView>::empty() =~= before);
        proof {
            reveal(judge);
        }

        // A window that is managed on request passes whatever it looks like.
        if matches!(event, Some(WindowManagerEvent::Manage(_))) {
            debug.is_window = true;
            debug.has_minimum_width = true;
            debug.has_minimum_height = true;
            debug.has_title = true;
            debug.should_manage = true;
            return Ok(true);
        }
        if !self.is_window(desktop) {
            return Ok(false);
        }
        debug.is_window = true;
        let (width, height): (i32, i32) = match desktop.rect(self.hwnd) {
            Some(rect) => (rect.right, rect.bottom),
            None => (0, 0),
        };
        if width < rules.minimum_width {
            return Ok(false);
        }
        debug.has_minimum_width = true;
        if height < rules.minimum_height {
            return Ok(false);
        }
        debug.has_minimum_height = true;
        let title = match self.title(desktop) {
            Ok(title) => title,
            Err(_) => {
                return Ok(false);
            },
        };
        debug.has_title = true;
        let is_cloaked = match self.is_cloaked(desktop) {
            Ok(is_cloaked) => is_cloaked,
            Err(_) => false,
        };
        debug.is_cloaked = is_cloaked;
        let allow_cloaked = matches!(
            event,
            Some(WindowManagerEvent::Hide(_, _)) | Some(WindowManagerEvent::Cloak(_, _))
        );
        debug.allow_cloaked = allow_cloaked;
        if is_cloaked && !allow_cloaked {
            return Ok(false);
        }
        match (self.exe(desktop), self.class(desktop), self.path(desktop)) {
            (Ok(exe_name), Ok(class), Ok(path)) => {
                debug.title = Some(title.clone());
                debug.exe_name = Some(exe_name.clone());
                debug.class = Some(class.clone());
                debug.path = Some(path.clone());
                match (self.style(desktop), self.ex_style(desktop)) {
                    (Ok(style), Ok(ex_style)) => {
                        debug.window_style = Some(style);
                        debug.extended_window_style = Some(ex_style);
                        let eligible = window_is_eligible(
                            self.hwnd,
                            &title,
                            &exe_name,
                            &class,
                            &path,
                            &style,
                            &ex_style,
                            event,
                            rules,
                            dimmed_hwnds,
                            debug,
                            plan,
                        );
                        debug.should_manage = eligible;
                        Ok(eligible)
                    },
                    _ => Ok(false),
                }
            },
            _ => Ok(false),
        }
    }
}

/// A window that is managed on request is managed whatever it looks like.
pub proof fn manage_requests_are_granted(
    facts: WindowFacts,
    window: Window,
    rules: RuleSet,
    dimmed: bool,
    debug: RuleDebugView,
)
    ensures
        judge(facts, Some(WindowManagerEvent::Manage(window)), rules, dimmed, debug).manage,
{
    reveal(judge);
}

/// Without such a request, nothing but a window with a title is ever managed, and a
/// class that is never managed is not managed by any rule.
pub proof fn only_titled_windows_are_managed(
    facts: WindowFacts,
    event: WindowManagerEvent,
    rules: RuleSet,
    dimmed: bool,
    debug: RuleDebugView,
)
    requires
        !(event is Manage),
        judge(facts, Some(event), rules, dimmed, debug).manage,
    ensures
        facts.is_window,
        facts.title is Some,
        facts.class is Some,
        !rule_set::holds_text(rules.permaignore_classes@, facts.class->0@),
{
    reveal(judge);
}

/// A rule that manages a window wins over a rule that ignores it.
pub proof fn managing_wins_over_ignoring(candidate: Candidate, rules: RuleSet)
    requires
        !permaignored(candidate, rules),
        effective(rules.manage_identifiers@, candidate, rules) is Some,
    ensures
        eligible(candidate, rules),
{
}

} // verus!
