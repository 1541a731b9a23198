//! What commands change besides the state of the window manager: rules, settings,
//! preferences and subscribers.

use std::collections::HashMap;

use vstd::prelude::*;

use crate::error::Error;
use crate::geometry::Rect;
use crate::manager_op::ManagerOp;
use crate::rule_set::RuleSet;
use crate::rules;
use crate::rules::ApplicationIdentifier;
use crate::rules::IdWithIdentifier;
use crate::rules::MatchingRule;
use crate::rules::MatchingStrategy;
use crate::rules::RuleView;
use crate::settings::Settings;
use crate::socket_message::SocketMessage;
use crate::socket_message::SubscribeOptions;
use crate::subscriptions::Subscriptions;
use crate::subscriptions::SubscriptionsView;
use crate::text;
use crate::window::Screen;
use crate::window::ScreenView;
use crate::window::Window;
use crate::window_manager::ManagerView;
use crate::window_manager::WindowManager;

verus! {

broadcast use vstd::std_specs::hash::group_hash_axioms;

/// The workspace to which the windows that a rule names belong.
#[derive(Debug)]
pub struct WorkspaceMatchingRule {
    pub monitor_index: usize,
    pub workspace_index: usize,
    pub matching_rule: MatchingRule,
    /// Only when a window is seen for the first time.
    pub initial_only: bool,
}

/// A workspace rule, for contracts.
pub struct WorkspaceRuleView {
    pub monitor_index: usize,
    pub workspace_index: usize,
    pub matching_rule: RuleView,
    pub initial_only: bool,
}

impl View for WorkspaceMatchingRule {
    type V = WorkspaceRuleView;

    open spec fn view(&self) -> WorkspaceRuleView {
        WorkspaceRuleView {
            monitor_index: self.monitor_index,
            workspace_index: self.workspace_index,
            matching_rule: self.matching_rule@,
            initial_only: self.initial_only,
        }
    }
}

impl WorkspaceRuleView {
    /// Whether two rules say the same.
    pub open spec fn same_as(self, other: WorkspaceRuleView) -> bool {
        &&& self.monitor_index == other.monitor_index
        &&& self.workspace_index == other.workspace_index
        &&& self.matching_rule.same_as(other.matching_rule)
        &&& self.initial_only == other.initial_only
    }

    /// Whether the rule stays when the rules of a workspace are cleared: those that name
    /// its monitor or its index go.
    pub open spec fn outlasts(self, monitor_idx: usize, workspace_idx: usize) -> bool {
        self.monitor_index != monitor_idx && self.workspace_index != workspace_idx
    }
}

pub struct Session {
    pub rules: RuleSet,
    pub workspace_rules: Vec<WorkspaceMatchingRule>,
    pub settings: Settings,
    pub stackbar_font_family: Option<String>,
    /// At which index a monitor with these coordinates is preferred.
    pub monitor_index_preferences: HashMap<usize, Rect>,
    /// At which index a display with this identifier is preferred.
    pub display_index_preferences: HashMap<usize, String>,
    pub subscriptions: Subscriptions,
    /// The windows, with the index of their monitor, that a new rule sends away.
    pub purge: Vec<(usize, isize)>,
}

/// The rules that commands change, for contracts.
#[verifier::ext_equal]
pub struct RuleListsView {
    pub ignore: Seq<RuleView>,
    pub manage: Seq<RuleView>,
    pub floating: Seq<RuleView>,
    pub session_floating: Seq<RuleView>,
    pub layered: Seq<RuleView>,
    pub no_titlebar: Seq<RuleView>,
    pub tray: Seq<RuleView>,
    pub name_change: Seq<RuleView>,
}

/// The rules that no command changes, for contracts.
pub struct FixedRulesView {
    pub permaignore_classes: Vec<String>,
    pub pinned_floating_applications: Vec<MatchingRule>,
    pub slow_application_identifiers: Vec<MatchingRule>,
    pub transparency_blacklist: Vec<MatchingRule>,
    pub wsl2_ui_processes: Vec<String>,
    pub regex_identifiers: crate::text::RegexIdentifiers,
    pub minimum_width: i32,
    pub minimum_height: i32,
    pub slow_application_compensation_time: u64,
}

/// What commands change, for contracts.
#[verifier::ext_equal]
pub struct SessionView {
    pub lists: RuleListsView,
    pub fixed: FixedRulesView,
    pub workspace_rules: Seq<WorkspaceRuleView>,
    pub settings: Settings,
    pub stackbar_font_family: Option<String>,
    pub monitor_index_preferences: Map<usize, Rect>,
    pub display_index_preferences: Map<usize, String>,
    pub subscriptions: SubscriptionsView,
    pub purge: Seq<(usize, isize)>,
}

/// The rules of a list.
pub open spec fn rule_views(list: Seq<MatchingRule>) -> Seq<RuleView> {
    list.map_values(|rule: MatchingRule| rule@)
}

/// The workspace rules of a list.
pub open spec fn workspace_rule_views(list: Seq<WorkspaceMatchingRule>) -> Seq<WorkspaceRuleView> {
    list.map_values(|rule: WorkspaceMatchingRule| rule@)
}

impl View for Session {
    type V = SessionView;

    open spec fn view(&self) -> SessionView {
        SessionView {
            lists: RuleListsView {
                ignore: rule_views(self.rules.ignore_identifiers@),
                manage: rule_views(self.rules.manage_identifiers@),
                floating: rule_views(self.rules.floating_applications@),
                session_floating: rule_views(self.rules.session_floating_applications@),
                layered: rule_views(self.rules.layered_whitelist@),
                no_titlebar: rule_views(self.rules.no_titlebar@),
                tray: rule_views(self.rules.tray_and_multi_window_identifiers@),
                name_change: rule_views(self.rules.object_name_change_on_launch@),
            },
            fixed: FixedRulesView {
                permaignore_classes: self.rules.permaignore_classes,
                pinned_floating_applications: self.rules.pinned_floating_applications,
                slow_application_identifiers: self.rules.slow_application_identifiers,
                transparency_blacklist: self.rules.transparency_blacklist,
                wsl2_ui_processes: self.rules.wsl2_ui_processes,
                regex_identifiers: self.rules.regex_identifiers,
                minimum_width: self.rules.minimum_width,
                minimum_height: self.rules.minimum_height,
                slow_application_compensation_time: self.rules.slow_application_compensation_time,
            },
            workspace_rules: workspace_rule_views(self.workspace_rules@),
            settings: self.settings,
            stackbar_font_family: self.stackbar_font_family,
            monitor_index_preferences: self.monitor_index_preferences@,
            display_index_preferences: self.display_index_preferences@,
            subscriptions: self.subscriptions@,
            purge: self.purge@,
        }
    }
}

impl Session {
    /// A session with rules and settings, in which no command has been given yet.
    pub fn new(rules: RuleSet, settings: Settings) -> (r: Self)
        ensures
            r.rules == rules,
            r@.workspace_rules == Seq::<WorkspaceRuleView>::empty(),
            r@.settings == settings,
            r@.stackbar_font_family is None,
            r@.monitor_index_preferences == Map::<usize, Rect>::empty(),
            r@.display_index_preferences == Map::<usize, String>::empty(),
            r@.subscriptions.is_empty(),
            r@.subscriptions.options == Map::<Seq<char>, SubscribeOptions>::empty(),
            r@.purge == Seq::<(usize, isize)>::empty(),
    {
        let r = Session {
            rules,
            workspace_rules: Vec::new(),
            settings,
            stackbar_font_family: None,
            monitor_index_preferences: HashMap::new(),
            display_index_preferences: HashMap::new(),
            subscriptions: Subscriptions::new(),
            purge: Vec::new(),
        };
        assert(r@.workspace_rules =~= Seq::<WorkspaceRuleView>::empty());
        r
    }
}

/// Whether a simple rule of a list is about a text.
pub open spec fn names_text(list: Seq<RuleView>, id: Seq<char>) -> bool {
    exists|i: int|
        0 <= i < list.len() && (#[trigger] list[i] matches RuleView::Simple(rule) && rule.id@
            == id)
}

/// A list with a rule about a text, unless a simple rule is about it already.
pub open spec fn with_rule(
    list: Seq<RuleView>,
    kind: ApplicationIdentifier,
    id: String,
) -> Seq<RuleView> {
    if names_text(list, id@) {
        list
    } else {
        list.push(rules::simple_rule(kind, id, MatchingStrategy::Legacy))
    }
}

/// Whether a list holds a rule.
pub open spec fn has_rule(list: Seq<RuleView>, rule: RuleView) -> bool {
    exists|i: int| 0 <= i < list.len() && (#[trigger] list[i]).same_as(rule)
}

/// The rules of a list that are not in another one.
pub open spec fn rules_without(list: Seq<RuleView>, others: Seq<RuleView>) -> Seq<RuleView> {
    list.filter(|rule: RuleView| !has_rule(others, rule))
}

/// Whether a list holds a workspace rule.
pub open spec fn has_workspace_rule(list: Seq<WorkspaceRuleView>, rule: WorkspaceRuleView) -> bool {
    exists|i: int| 0 <= i < list.len() && (#[trigger] list[i]).same_as(rule)
}

/// A list with a workspace rule, unless it holds it already.
pub open spec fn with_workspace_rule(
    list: Seq<WorkspaceRuleView>,
    rule: WorkspaceRuleView,
) -> Seq<WorkspaceRuleView> {
    if has_workspace_rule(list, rule) {
        list
    } else {
        list.push(rule)
    }
}

/// The workspace rules that stay when those of a workspace are cleared.
pub open spec fn cleared(
    list: Seq<WorkspaceRuleView>,
    monitor_idx: usize,
    workspace_idx: usize,
) -> Seq<WorkspaceRuleView> {
    list.filter(|rule: WorkspaceRuleView| rule.outlasts(monitor_idx, workspace_idx))
}

/// The rule that sends the windows with a text to a workspace.
pub open spec fn workspace_rule(
    kind: ApplicationIdentifier,
    id: String,
    monitor_index: usize,
    workspace_index: usize,
    initial_only: bool,
) -> WorkspaceRuleView {
    WorkspaceRuleView {
        monitor_index,
        workspace_index,
        matching_rule: rules::simple_rule(kind, id, MatchingStrategy::Legacy),
        initial_only,
    }
}

impl RuleListsView {
    /// The lists after a command that adds a rule to one of them.
    pub open spec fn noting(self, message: SocketMessage) -> Option<RuleListsView> {
        match message {
            SocketMessage::ManageRule(kind, id) => Some(
                RuleListsView { manage: with_rule(self.manage, kind, id), ..self },
            ),
            SocketMessage::IdentifyObjectNameChangeApplication(kind, id) => Some(
                RuleListsView { name_change: with_rule(self.name_change, kind, id), ..self },
            ),
            SocketMessage::IdentifyTrayApplication(kind, id) => Some(
                RuleListsView { tray: with_rule(self.tray, kind, id), ..self },
            ),
            SocketMessage::IdentifyLayeredApplication(kind, id) => Some(
                RuleListsView { layered: with_rule(self.layered, kind, id), ..self },
            ),
            SocketMessage::RemoveTitleBar(kind, id) => Some(
                RuleListsView { no_titlebar: with_rule(self.no_titlebar, kind, id), ..self },
            ),
            SocketMessage::ClearSessionFloatRules => Some(
                RuleListsView {
                    floating: rules_without(self.floating, self.session_floating),
                    session_floating: Seq::empty(),
                    ..self
                },
            ),
            _ => None,
        }
    }
}

fn add_rule(list: &mut Vec<MatchingRule>, kind: ApplicationIdentifier, id: &String)
    ensures
        rule_views(final(list)@) == with_rule(rule_views(old(list)@), kind, *id),
{
    let ghost before = rule_views(list@);
    let mut i: usize = 0;
    while i < list.len()
        invariant
            i <= list@.len(),
            before == rule_views(list@),
            before == rule_views(old(list)@),
            forall|k: int|
                0 <= k < i ==> !(#[trigger] before[k] matches RuleView::Simple(rule) && rule.id@
                    == id@),
        decreases list@.len() - i,
    {
        assert(before[i as int] == list@[i as int]@);
        match &list[i] {
            MatchingRule::Simple(rule) => {
                if text::equal(rule.id.as_str(), id.as_str()) {
                    return ;
                }
            },
            MatchingRule::Composite(_) => {},
        }
        i = i + 1;
    }
    list.push(MatchingRule::simple(kind, id.clone(), MatchingStrategy::Legacy));
    assert(rule_views(list@) =~= before.push(
        rules::simple_rule(kind, *id, MatchingStrategy::Legacy),
    ));
}

fn contains_rule(list: &Vec<MatchingRule>, rule: &MatchingRule) -> (r: bool)
    ensures
        r == has_rule(rule_views(list@), rule@),
{
    let mut i: usize = 0;
    while i < list.len()
        invariant
            i <= list@.len(),
            forall|k: int|
                0 <= k < i ==> !(#[trigger] rule_views(list@)[k]).same_as(rule@),
        decreases list@.len() - i,
    {
        assert(rule_views(list@)[i as int] == list@[i as int]@);
        if list[i].is_same(rule) {
            return true;
        }
        i = i + 1;
    }
    false
}

fn drop_rules(list: &mut Vec<MatchingRule>, others: &Vec<MatchingRule>)
    ensures
        rule_views(final(list)@) == rules_without(rule_views(old(list)@), rule_views(others@)),
{
    let ghost before = rule_views(list@);
    let ghost keeps = |rule: RuleView| !has_rule(rule_views(others@), rule);
    let mut kept: Vec<MatchingRule> = Vec::new();
    let mut i: usize = 0;
    proof {
        reveal(Seq::filter);
        assert(before.take(0) =~= Seq::empty());
        assert(rule_views(kept@) =~= Seq::empty());
    }
    while i < list.len()
        invariant
            i <= list@.len(),
            before == rule_views(list@),
            keeps == (|rule: RuleView| !has_rule(rule_views(others@), rule)),
            rule_views(kept@) == before.take(i as int).filter(keeps),
        decreases list@.len() - i,
    {
        let ghost earlier = rule_views(kept@);
        proof {
            reveal(Seq::filter);
            assert(before.take(i + 1).drop_last() =~= before.take(i as int));
            assert(before.take(i + 1).last() == list@[i as int]@);
        }
        if !contains_rule(others, &list[i]) {
            let rule = list[i].clone();
            kept.push(rule);
            assert(rule_views(kept@) =~= earlier.push(rule@));
        }
        i = i + 1;
    }
    assert(before.take(i as int) =~= before);
    *list = kept;
}

impl WorkspaceMatchingRule {
    pub fn is_same(&self, other: &WorkspaceMatchingRule) -> (r: bool)
        ensures
            r == self@.same_as(other@),
    {
        self.monitor_index == other.monitor_index && self.workspace_index
            == other.workspace_index && self.matching_rule.is_same(&other.matching_rule)
            && self.initial_only == other.initial_only
    }
}

fn add_workspace_rule(
    list: &mut Vec<WorkspaceMatchingRule>,
    kind: ApplicationIdentifier,
    id: &String,
    monitor_index: usize,
    workspace_index: usize,
    initial_only: bool,
)
    ensures
        workspace_rule_views(final(list)@) == with_workspace_rule(
            workspace_rule_views(old(list)@),
            workspace_rule(kind, *id, monitor_index, workspace_index, initial_only),
        ),
{
    let rule = WorkspaceMatchingRule {
        monitor_index,
        workspace_index,
        matching_rule: MatchingRule::simple(kind, id.clone(), MatchingStrategy::Legacy),
        initial_only,
    };
    let ghost before = workspace_rule_views(list@);
    let mut i: usize = 0;
    while i < list.len()
        invariant
            i <= list@.len(),
            before == workspace_rule_views(list@),
            before == workspace_rule_views(old(list)@),
            rule@ == workspace_rule(kind, *id, monitor_index, workspace_index, initial_only),
            forall|k: int| 0 <= k < i ==> !(#[trigger] before[k]).same_as(rule@),
        decreases list@.len() - i,
    {
        assert(before[i as int] == list@[i as int]@);
        if list[i].is_same(&rule) {
            return ;
        }
        i = i + 1;
    }
    list.push(rule);
    assert(workspace_rule_views(list@) =~= before.push(rule@));
}

fn clear_workspace_rules(
    list: &mut Vec<WorkspaceMatchingRule>,
    monitor_idx: usize,
    workspace_idx: usize,
)
    ensures
        workspace_rule_views(final(list)@) == cleared(
            workspace_rule_views(old(list)@),
            monitor_idx,
            workspace_idx,
        ),
{
    let ghost before = workspace_rule_views(list@);
    let ghost stays = |rule: WorkspaceRuleView| rule.outlasts(monitor_idx, workspace_idx);
    let mut kept: Vec<WorkspaceMatchingRule> = Vec::new();
    let mut i: usize = 0;
    proof {
        reveal(Seq::filter);
        assert(before.take(0) =~= Seq::empty());
        assert(workspace_rule_views(kept@) =~= Seq::empty());
    }
    while i < list.len()
        invariant
            i <= list@.len(),
            before == workspace_rule_views(list@),
            stays == (|rule: WorkspaceRuleView| rule.outlasts(monitor_idx, workspace_idx)),
            workspace_rule_views(kept@) == before.take(i as int).filter(stays),
        decreases list@.len() - i,
    {
        let ghost earlier = workspace_rule_views(kept@);
        proof {
            reveal(Seq::filter);
            assert(before.take(i + 1).drop_last() =~= before.take(i as int));
            assert(before.take(i + 1).last() == list@[i as int]@);
        }
        let rule = &list[i];
        if rule.monitor_index != monitor_idx && rule.workspace_index != workspace_idx {
            let copy = WorkspaceMatchingRule {
                monitor_index: rule.monitor_index,
                workspace_index: rule.workspace_index,
                matching_rule: rule.matching_rule.clone(),
                initial_only: rule.initial_only,
            };
            kept.push(copy);
            assert(workspace_rule_views(kept@) =~= earlier.push(copy@));
        }
        i = i + 1;
    }
    assert(before.take(i as int) =~= before);
    *list = kept;
}

impl Session {
    /// Ignore windows with a text from now on.
    pub(crate) fn note_ignore_rule(&mut self, kind: ApplicationIdentifier, id: &String)
        ensures
            final(self).rules.wf() == old(self).rules.wf(),
            final(self)@ == (SessionView {
                lists: RuleListsView {
                    ignore: with_rule(old(self)@.lists.ignore, kind, *id),
                    ..old(self)@.lists
                },
                ..old(self)@
            }),
    {
        add_rule(&mut self.rules.ignore_identifiers, kind, id);
    }

    /// Carry out a command that changes a list of rules.
    pub(crate) fn note_rule(&mut self, message: &SocketMessage) -> (r: bool)
        ensures
            final(self).rules.wf() == old(self).rules.wf(),
            !r ==> *final(self) == *old(self),
            match old(self)@.lists.noting(*message) {
                Some(lists) => r && final(self)@ == (SessionView { lists, ..old(self)@ }),
                None => !r && final(self)@ == old(self)@,
            },
    {
        match message {
            SocketMessage::ManageRule(kind, id) => {
                add_rule(&mut self.rules.manage_identifiers, *kind, id);
                true
            },
            SocketMessage::IdentifyObjectNameChangeApplication(kind, id) => {
                add_rule(&mut self.rules.object_name_change_on_launch, *kind, id);
                true
            },
            SocketMessage::IdentifyTrayApplication(kind, id) => {
                add_rule(&mut self.rules.tray_and_multi_window_identifiers, *kind, id);
                true
            },
            SocketMessage::IdentifyLayeredApplication(kind, id) => {
                add_rule(&mut self.rules.layered_whitelist, *kind, id);
                true
            },
            SocketMessage::RemoveTitleBar(kind, id) => {
                add_rule(&mut self.rules.no_titlebar, *kind, id);
                true
            },
            SocketMessage::ClearSessionFloatRules => {
                drop_rules(
                    &mut self.rules.floating_applications,
                    &self.rules.session_floating_applications,
                );
                self.rules.session_floating_applications = Vec::new();
                assert(self@.lists.session_floating =~= Seq::empty());
                true
            },
            _ => false,
        }
    }
}

/// The workspace rules after a command that changes them.
pub open spec fn changed_workspace_rules(
    manager: ManagerView,
    list: Seq<WorkspaceRuleView>,
    message: SocketMessage,
) -> Option<Seq<WorkspaceRuleView>> {
    match message {
        SocketMessage::InitialWorkspaceRule(kind, id, m, w) => Some(
            with_workspace_rule(list, workspace_rule(kind, id, m, w, true)),
        ),
        SocketMessage::WorkspaceRule(kind, id, m, w) => Some(
            with_workspace_rule(list, workspace_rule(kind, id, m, w, false)),
        ),
        SocketMessage::InitialNamedWorkspaceRule(kind, id, name) => Some(
            match manager.place_named(name@) {
                Some((m, w)) => with_workspace_rule(
                    list,
                    workspace_rule(kind, id, m as usize, w as usize, true),
                ),
                None => list,
            },
        ),
        SocketMessage::NamedWorkspaceRule(kind, id, name) => Some(
            match manager.place_named(name@) {
                Some((m, w)) => with_workspace_rule(
                    list,
                    workspace_rule(kind, id, m as usize, w as usize, false),
                ),
                None => list,
            },
        ),
        SocketMessage::ClearWorkspaceRules(m, w) => Some(cleared(list, m, w)),
        SocketMessage::ClearNamedWorkspaceRules(name) => Some(
            match manager.place_named(name@) {
                Some((m, w)) => cleared(list, m as usize, w as usize),
                None => list,
            },
        ),
        SocketMessage::ClearAllWorkspaceRules => Some(Seq::empty()),
        _ => None,
    }
}

impl Session {
    /// Carry out a command that changes the workspace rules.
    pub(crate) fn note_workspace_rule(
        &mut self,
        manager: &WindowManager,
        message: &SocketMessage,
    ) -> (r: bool)
        ensures
            final(self).rules == old(self).rules,
            !r ==> *final(self) == *old(self),
            match changed_workspace_rules(manager@, old(self)@.workspace_rules, *message) {
                Some(workspace_rules) => r && final(self)@ == (SessionView {
                    workspace_rules,
                    ..old(self)@
                }),
                None => !r && final(self)@ == old(self)@,
            },
    {
        match message {
            SocketMessage::InitialWorkspaceRule(kind, id, m, w) => {
                add_workspace_rule(&mut self.workspace_rules, *kind, id, *m, *w, true);
                true
            },
            SocketMessage::WorkspaceRule(kind, id, m, w) => {
                add_workspace_rule(&mut self.workspace_rules, *kind, id, *m, *w, false);
                true
            },
            SocketMessage::InitialNamedWorkspaceRule(kind, id, name) => {
                match manager.monitor_workspace_index_by_name(name.as_str()) {
                    Some((m, w)) => {
                        add_workspace_rule(&mut self.workspace_rules, *kind, id, m, w, true);
                    },
                    None => {},
                }
                true
            },
            SocketMessage::NamedWorkspaceRule(kind, id, name) => {
                match manager.monitor_workspace_index_by_name(name.as_str()) {
                    Some((m, w)) => {
                        add_workspace_rule(&mut self.workspace_rules, *kind, id, m, w, false);
                    },
                    None => {},
                }
                true
            },
            SocketMessage::ClearWorkspaceRules(m, w) => {
                clear_workspace_rules(&mut self.workspace_rules, *m, *w);
                true
            },
            SocketMessage::ClearNamedWorkspaceRules(name) => {
                match manager.monitor_workspace_index_by_name(name.as_str()) {
                    Some((m, w)) => {
                        clear_workspace_rules(&mut self.workspace_rules, m, w);
                    },
                    None => {},
                }
                true
            },
            SocketMessage::ClearAllWorkspaceRules => {
                self.workspace_rules = Vec::new();
                assert(self@.workspace_rules =~= Seq::empty());
                true
            },
            _ => false,
        }
    }
}

impl SessionView {
    /// What a command leaves that changes a preference or a subscriber.
    pub open spec fn preferring(self, message: SocketMessage) -> Option<SessionView> {
        match message {
            SocketMessage::MonitorIndexPreference(idx, left, top, right, bottom) => Some(
                SessionView {
                    monitor_index_preferences: self.monitor_index_preferences.insert(
                        idx,
                        Rect { left, top, right, bottom },
                    ),
                    ..self
                },
            ),
            SocketMessage::DisplayIndexPreference(idx, display) => Some(
                SessionView {
                    display_index_preferences: self.display_index_preferences.insert(
                        idx,
                        display,
                    ),
                    ..self
                },
            ),
            SocketMessage::StackbarFontFamily(font_family) => Some(
                SessionView { stackbar_font_family: font_family, ..self },
            ),
            SocketMessage::AddSubscriberSocket(socket) => Some(
                SessionView {
                    subscriptions: self.subscriptions.adding_socket(socket@),
                    ..self
                },
            ),
            SocketMessage::AddSubscriberSocketWithOptions(socket, options) => Some(
                SessionView {
                    subscriptions: self.subscriptions.adding_socket(socket@).with_options(
                        socket@,
                        options,
                    ),
                    ..self
                },
            ),
            SocketMessage::RemoveSubscriberSocket(socket) => Some(
                SessionView {
                    subscriptions: self.subscriptions.removing_socket(socket@),
                    ..self
                },
            ),
            SocketMessage::RemoveSubscriberPipe(pipe) => Some(
                SessionView {
                    subscriptions: self.subscriptions.removing_pipe(pipe@),
                    ..self
                },
            ),
            _ => None,
        }
    }
}

impl Session {
    /// Carry out a command that changes a preference or a subscriber.
    pub(crate) fn note_preference(&mut self, message: &SocketMessage) -> (r: bool)
        ensures
            final(self).rules == old(self).rules,
            !r ==> *final(self) == *old(self),
            match old(self)@.preferring(*message) {
                Some(session) => r && final(self)@ == session,
                None => !r && final(self)@ == old(self)@,
            },
    {
        match message {
            SocketMessage::MonitorIndexPreference(idx, left, top, right, bottom) => {
                let _ = self.monitor_index_preferences.insert(
                    *idx,
                    Rect { left: *left, top: *top, right: *right, bottom: *bottom },
                );
                true
            },
            SocketMessage::DisplayIndexPreference(idx, display) => {
                let _ = self.display_index_preferences.insert(*idx, display.clone());
                true
            },
            SocketMessage::StackbarFontFamily(font_family) => {
                self.stackbar_font_family = match font_family {
                    Some(family) => Some(family.clone()),
                    None => None,
                };
                true
            },
            SocketMessage::AddSubscriberSocket(socket) => {
                self.subscriptions.add_socket(socket);
                true
            },
            SocketMessage::AddSubscriberSocketWithOptions(socket, options) => {
                self.subscriptions.add_socket_with_options(socket, *options);
                true
            },
            SocketMessage::RemoveSubscriberSocket(socket) => {
                self.subscriptions.remove_socket(socket);
                true
            },
            SocketMessage::RemoveSubscriberPipe(pipe) => {
                self.subscriptions.remove_pipe(pipe);
                true
            },
            _ => false,
        }
    }
}

/// The rule that a window with these texts floats.
pub open spec fn float_rule(exe: String, title: String, class: String) -> RuleView {
    RuleView::Composite(
        seq![
            IdWithIdentifier {
                kind: ApplicationIdentifier::Exe,
                id: exe,
                matching_strategy: Some(MatchingStrategy::Equals),
            },
            IdWithIdentifier {
                kind: ApplicationIdentifier::Title,
                id: title,
                matching_strategy: Some(MatchingStrategy::Equals),
            },
            IdWithIdentifier {
                kind: ApplicationIdentifier::Class,
                id: class,
                matching_strategy: Some(MatchingStrategy::Equals),
            },
        ],
    )
}

impl SessionView {
    /// What is left of letting the window in the foreground float for the session: where
    /// its texts are known, a rule for all windows that have them.
    pub open spec fn floating_foreground(self, screen: ScreenView) -> SessionView {
        match screen.desktop.foreground {
            Some(foreground) => {
                let facts = screen.desktop.at(foreground);
                match (facts.exe, facts.title, facts.class) {
                    (Some(exe), Some(title), Some(class)) => SessionView {
                        lists: RuleListsView {
                            floating: self.lists.floating.push(float_rule(exe, title, class)),
                            session_floating: self.lists.session_floating.push(
                                float_rule(exe, title, class),
                            ),
                            ..self.lists
                        },
                        ..self
                    },
                    _ => self,
                }
            },
            None => self,
        }
    }
}

/// Whether the texts of the window in the foreground are known.
pub open spec fn knows_foreground(screen: ScreenView) -> bool {
    screen.desktop.foreground matches Some(foreground) && screen.desktop.at(
        foreground,
    ).exe is Some && screen.desktop.at(foreground).title is Some && screen.desktop.at(
        foreground,
    ).class is Some
}

impl Session {
    /// Let the window in the foreground float for the session.
    pub(crate) fn float_foreground(&mut self, screen: &mut Screen) -> (r: Result<(), Error>)
        ensures
            final(self).rules.wf() == old(self).rules.wf(),
            final(self)@ == old(self)@.floating_foreground(old(screen)@),
            if old(screen)@.desktop.foreground is None {
                r == Err::<(), Error>(Error::WindowSystem) && final(screen)@ == old(screen)@
            } else {
                r is Ok && final(screen)@ == (if knows_foreground(old(screen)@) {
                    old(screen)@.managing(ManagerOp::ToggleFloat(true))
                } else {
                    old(screen)@
                })
            },
    {
        let foreground: isize = match screen.desktop.foreground {
            Some(foreground) => foreground,
            None => {
                return Err(Error::WindowSystem);
            },
        };
        let window = Window { hwnd: foreground };
        match (
            window.exe(&screen.desktop),
            window.title(&screen.desktop),
            window.class(&screen.desktop),
        ) {
            (Ok(exe), Ok(title), Ok(class)) => {
                let mut identifiers: Vec<IdWithIdentifier> = Vec::new();
                let equals = Some(MatchingStrategy::Equals);
                identifiers.push(
                    IdWithIdentifier {
                        kind: ApplicationIdentifier::Exe,
                        id: exe,
                        matching_strategy: equals,
                    },
                );
                identifiers.push(
                    IdWithIdentifier {
                        kind: ApplicationIdentifier::Title,
                        id: title,
                        matching_strategy: equals,
                    },
                );
                identifiers.push(
                    IdWithIdentifier {
                        kind: ApplicationIdentifier::Class,
                        id: class,
                        matching_strategy: equals,
                    },
                );
                let rule = MatchingRule::Composite(identifiers);
                assert(rule@ == float_rule(exe, title, class)) by {
                    assert(identifiers@ =~= float_rule(exe, title, class)->Composite_0);
                }
                self.rules.session_floating_applications.push(rule.clone());
                self.rules.floating_applications.push(rule);
                assert(self@.lists.floating =~= old(self)@.lists.floating.push(rule@));
                assert(self@.lists.session_floating =~= old(self)@.lists.session_floating.push(
                    rule@,
                ));
                screen.manage(ManagerOp::ToggleFloat(true));
            },
            _ => {},
        }
        Ok(())
    }
}

/// A rule about a text is added once.
pub proof fn rules_are_added_once(list: Seq<RuleView>, kind: ApplicationIdentifier, id: String)
    ensures
        with_rule(with_rule(list, kind, id), kind, id) == with_rule(list, kind, id),
{
    let once = with_rule(list, kind, id);
    if !names_text(list, id@) {
        assert(once[list.len() as int] matches RuleView::Simple(rule) && rule.id@ == id@);
    }
}

/// Clearing the rules of a workspace leaves none for it.
pub proof fn cleared_workspaces_have_no_rule(
    list: Seq<WorkspaceRuleView>,
    monitor_idx: usize,
    workspace_idx: usize,
    i: int,
)
    requires
        0 <= i < cleared(list, monitor_idx, workspace_idx).len(),
    ensures
        !(cleared(list, monitor_idx, workspace_idx)[i].monitor_index == monitor_idx && cleared(
            list,
            monitor_idx,
            workspace_idx,
        )[i].workspace_index == workspace_idx),
{
    let stays = |rule: WorkspaceRuleView| rule.outlasts(monitor_idx, workspace_idx);
    filtered(list, stays, i);
}

/// What a filter leaves passes it, and comes from the list.
pub proof fn filtered<A>(list: Seq<A>, stays: spec_fn(A) -> bool, i: int)
    requires
        0 <= i < list.filter(stays).len(),
    ensures
        stays(list.filter(stays)[i]),
        list.contains(list.filter(stays)[i]),
    decreases list.len(),
{
    reveal(Seq::filter);
    let before = list.drop_last().filter(stays);
    if i < before.len() {
        filtered(list.drop_last(), stays, i);
        let k = choose|k: int|
            0 <= k < list.drop_last().len() && list.drop_last()[k] == before[i];
        assert(list[k] == before[i]);
    } else {
        assert(list[list.len() - 1] == list.filter(stays)[i]);
    }
}

/// No rule of the session is left among the floating applications once they are cleared.
pub proof fn cleared_sessions_have_no_rule(lists: RuleListsView, i: int)
    requires
        0 <= i < lists.noting(SocketMessage::ClearSessionFloatRules)->0.floating.len(),
    ensures
        !has_rule(
            lists.session_floating,
            lists.noting(SocketMessage::ClearSessionFloatRules)->0.floating[i],
        ),
        lists.noting(SocketMessage::ClearSessionFloatRules)->0.session_floating.len() == 0,
{
    let keeps = |rule: RuleView| !has_rule(lists.session_floating, rule);
    filtered(lists.floating, keeps, i);
}

} // verus!
