//! What commands change of rules, settings, preferences and subscribers.

use vstd::prelude::*;

use crate::animation::settings::AnimationSettings;
use crate::change_settings;
use crate::geometry::Rect;
use crate::laws::commands::Situation;
use crate::plan::CommandStage;
use crate::plan::StepView;
use crate::process_command;
use crate::rules::ApplicationIdentifier;
use crate::rules::IdWithIdentifier;
use crate::rules::MatchingStrategy;
use crate::rules::RuleView;
use crate::session;
use crate::session::RuleListsView;
use crate::session::SessionView;
use crate::session::WorkspaceRuleView;
use crate::settings::BorderSettings;
use crate::settings::Rgb;
use crate::settings::Settings;
use crate::settings::StackbarSettings;
use crate::settings::TransparencySettings;
use crate::socket_message::BorderStyle;
use crate::socket_message::SocketMessage;
use crate::socket_message::WindowKind;
use crate::subscriptions::SubscriptionsView;

verus! {

/// Whether a command leaves the state as it is, changes the session to another one, and asks
/// for nothing but that all borders are drawn anew or not.
pub open spec fn turns_session(
    situation: Situation,
    message: SocketMessage,
    session: SessionView,
    force_borders: bool,
) -> bool {
    let turn = situation.after(message);
    &&& turn.result is Ok
    &&& turn.manager == situation.manager
    &&& turn.session == session
    &&& turn.screen.hiding == situation.screen.hiding
    &&& turn.screen.desktop == situation.screen.desktop
    &&& turn.screen.steps == situation.screen.steps.push(StepView::RememberState).push(
        StepView::ContinueCommand(CommandStage::Finish { force_borders }),
    )
}

/// The session with other settings.
pub open spec fn with_settings(session: SessionView, settings: Settings) -> SessionView {
    SessionView { settings, ..session }
}

proof fn session_commands(situation: Situation, message: SocketMessage)
    requires
        situation.is_at_home(),
        process_command::session_feat(
            situation.manager,
            situation.session,
            situation.screen.taking(StepView::RememberState),
            message,
        ) is Some,
        !(message is EagerFocus || message is ToggleWorkspaceLayer
            || message is ToggleIgnoredWindowLayer || message is IgnoreRule
            || message is SessionFloatRule),
    ensures
        situation.after(message) == process_command::turn_of(
            process_command::session_feat(
                situation.manager,
                situation.session,
                situation.screen.taking(StepView::RememberState),
                message,
            )->0,
        ),
{
    reveal(process_command::performed);
}

proof fn is_adjusted(situation: Situation, message: SocketMessage)
    requires
        situation.is_at_home(),
        change_settings::adjustment(situation.session.settings, message) is Some,
        change_settings::adjustment(situation.session.settings, message)->0.steps.len() == 0,
        !(message is EagerFocus || message is ToggleWorkspaceLayer
            || message is ToggleIgnoredWindowLayer || message is IgnoreRule
            || message is SessionFloatRule),
    ensures
        turns_session(
            situation,
            message,
            with_settings(
                situation.session,
                change_settings::adjustment(situation.session.settings, message)->0.settings,
            ),
            change_settings::adjustment(situation.session.settings, message)->0.force_borders,
        ),
{
    let screen = situation.screen.taking(StepView::RememberState);
    let adjusted = change_settings::adjustment(situation.session.settings, message)->0;
    assert(screen.steps + adjusted.steps =~= screen.steps);
    reveal(process_command::session_feat);
    session_commands(situation, message);
}

/// Commands about dimming set what they give or turn it around, and nothing else.
pub proof fn dimming_is_set(situation: Situation, enable: bool, alpha: u8)
    requires
        situation.is_at_home(),
    ensures
        ({
            let settings = situation.session.settings;
            let dimming = settings.transparency;
            let becomes = |dimming: TransparencySettings|
                with_settings(
                    situation.session,
                    Settings { transparency: dimming, ..settings },
                );
            &&& turns_session(
                situation,
                SocketMessage::Transparency(enable),
                becomes(TransparencySettings { enabled: enable, ..dimming }),
                false,
            )
            &&& turns_session(
                situation,
                SocketMessage::ToggleTransparency,
                becomes(TransparencySettings { enabled: !dimming.enabled, ..dimming }),
                false,
            )
            &&& turns_session(
                situation,
                SocketMessage::TransparencyAlpha(alpha),
                becomes(TransparencySettings { alpha, ..dimming }),
                false,
            )
            &&& turns_session(
                situation,
                SocketMessage::TransparencyFloating(enable),
                becomes(TransparencySettings { floating: enable, ..dimming }),
                false,
            )
            &&& turns_session(
                situation,
                SocketMessage::ToggleTransparencyFloating,
                becomes(TransparencySettings { floating: !dimming.floating, ..dimming }),
                false,
            )
            &&& turns_session(
                situation,
                SocketMessage::TransparencyMonocle(enable),
                becomes(TransparencySettings { monocle: enable, ..dimming }),
                false,
            )
            &&& turns_session(
                situation,
                SocketMessage::ToggleTransparencyMonocle,
                becomes(TransparencySettings { monocle: !dimming.monocle, ..dimming }),
                false,
            )
        }),
{
    reveal(change_settings::adjustment);
    is_adjusted(situation, SocketMessage::Transparency(enable));
    is_adjusted(situation, SocketMessage::ToggleTransparency);
    is_adjusted(situation, SocketMessage::TransparencyAlpha(alpha));
    is_adjusted(situation, SocketMessage::TransparencyFloating(enable));
    is_adjusted(situation, SocketMessage::ToggleTransparencyFloating);
    is_adjusted(situation, SocketMessage::TransparencyMonocle(enable));
    is_adjusted(situation, SocketMessage::ToggleTransparencyMonocle);
}

/// Commands about how borders, stackbars and animations look set what they give, and nothing
/// else. Borders are drawn anew then.
pub proof fn looks_are_set(
    situation: Situation,
    width: i32,
    style: BorderStyle,
    height: i32,
    fps: u64,
)
    requires
        situation.is_at_home(),
    ensures
        ({
            let settings = situation.session.settings;
            let border = |border: BorderSettings|
                with_settings(situation.session, Settings { border, ..settings });
            let stackbar = |stackbar: StackbarSettings|
                with_settings(situation.session, Settings { stackbar, ..settings });
            &&& turns_session(
                situation,
                SocketMessage::BorderWidth(width),
                border(BorderSettings { width, ..settings.border }),
                true,
            )
            &&& turns_session(
                situation,
                SocketMessage::BorderOffset(width),
                border(BorderSettings { offset: width, ..settings.border }),
                true,
            )
            &&& turns_session(
                situation,
                SocketMessage::BorderStyle(style),
                border(BorderSettings { style, ..settings.border }),
                true,
            )
            &&& turns_session(
                situation,
                SocketMessage::StackbarHeight(height),
                stackbar(StackbarSettings { height, ..settings.stackbar }),
                false,
            )
            &&& turns_session(
                situation,
                SocketMessage::StackbarTabWidth(height),
                stackbar(StackbarSettings { tab_width: height, ..settings.stackbar }),
                false,
            )
            &&& turns_session(
                situation,
                SocketMessage::StackbarFontSize(height),
                stackbar(StackbarSettings { font_size: height, ..settings.stackbar }),
                false,
            )
            &&& turns_session(
                situation,
                SocketMessage::AnimationFps(fps),
                with_settings(
                    situation.session,
                    Settings {
                        animations: AnimationSettings { fps, ..settings.animations },
                        ..settings
                    },
                ),
                false,
            )
        }),
{
    reveal(change_settings::adjustment);
    is_adjusted(situation, SocketMessage::BorderWidth(width));
    is_adjusted(situation, SocketMessage::BorderOffset(width));
    is_adjusted(situation, SocketMessage::BorderStyle(style));
    is_adjusted(situation, SocketMessage::StackbarHeight(height));
    is_adjusted(situation, SocketMessage::StackbarTabWidth(height));
    is_adjusted(situation, SocketMessage::StackbarFontSize(height));
    is_adjusted(situation, SocketMessage::AnimationFps(fps));
}

/// Borders are switched on and off as a command says, and those that are drawn are taken down
/// where they are switched off.
pub proof fn borders_are_switched(situation: Situation, enable: bool)
    requires
        situation.is_at_home(),
    ensures
        ({
            let turn = situation.after(SocketMessage::Border(enable));
            let settings = situation.session.settings;
            &&& turn.result is Ok
            &&& turn.manager == situation.manager
            &&& turn.session == with_settings(
                situation.session,
                Settings {
                    border: BorderSettings { enabled: enable, ..settings.border },
                    ..settings
                },
            )
            &&& enable ==> turn.screen.steps.len() == situation.screen.steps.len() + 2
            &&& !enable ==> turn.screen.steps.len() == situation.screen.steps.len() + 3
        }),
{
    reveal(change_settings::adjustment);
    reveal(process_command::session_feat);
    session_commands(situation, SocketMessage::Border(enable));
}

/// The rule about the windows whose text, of a kind, is a given one.
pub open spec fn rule_about(kind: ApplicationIdentifier, id: String) -> RuleView {
    RuleView::Simple(
        IdWithIdentifier { kind, id, matching_strategy: Some(MatchingStrategy::Legacy) },
    )
}

/// Whether a simple rule of a list is about a text.
pub open spec fn is_about(list: Seq<RuleView>, id: String) -> bool {
    exists|i: int|
        0 <= i < list.len() && (#[trigger] list[i]) is Simple && list[i]->Simple_0.id@ == id@
}

/// A list with one more rule, unless one of its rules is about the text already.
pub open spec fn noted(list: Seq<RuleView>, kind: ApplicationIdentifier, id: String) -> Seq<
    RuleView,
> {
    if is_about(list, id) {
        list
    } else {
        list.push(rule_about(kind, id))
    }
}

/// A rule that is given is noted in a list.
pub proof fn is_noted(list: Seq<RuleView>, kind: ApplicationIdentifier, id: String)
    ensures
        session::with_rule(list, kind, id) == noted(list, kind, id),
{
    if is_about(list, id) {
        let i = choose|i: int|
            0 <= i < list.len() && (#[trigger] list[i]) is Simple && list[i]->Simple_0.id@ == id@;
        assert(session::names_text(list, id@));
    }
    if session::names_text(list, id@) {
        let i = choose|i: int|
            0 <= i < list.len() && (#[trigger] list[i] matches RuleView::Simple(rule) && rule.id@
                == id@);
        assert(list[i] is Simple && list[i]->Simple_0.id@ == id@);
    }
}

proof fn lists_are_turned(situation: Situation, message: SocketMessage, lists: RuleListsView)
    requires
        situation.is_at_home(),
        situation.session.lists.noting(message) == Some(lists),
        message is ManageRule || message is IdentifyObjectNameChangeApplication
            || message is IdentifyTrayApplication || message is IdentifyLayeredApplication
            || message is RemoveTitleBar,
    ensures
        turns_session(
            situation,
            message,
            SessionView { lists, ..situation.session },
            false,
        ),
{
    assert(change_settings::adjustment(situation.session.settings, message) is None) by {
        reveal(change_settings::adjustment);
    }
    reveal(process_command::session_feat);
    session_commands(situation, message);
}

/// A command that gives a rule adds it to the list that it is for, once, and to no other.
pub proof fn rules_go_to_their_list(situation: Situation, kind: ApplicationIdentifier, id: String)
    requires
        situation.is_at_home(),
    ensures
        ({
            let lists = situation.session.lists;
            let becomes = |lists: RuleListsView| SessionView { lists, ..situation.session };
            &&& turns_session(
                situation,
                SocketMessage::ManageRule(kind, id),
                becomes(RuleListsView { manage: noted(lists.manage, kind, id), ..lists }),
                false,
            )
            &&& turns_session(
                situation,
                SocketMessage::IdentifyObjectNameChangeApplication(kind, id),
                becomes(
                    RuleListsView { name_change: noted(lists.name_change, kind, id), ..lists },
                ),
                false,
            )
            &&& turns_session(
                situation,
                SocketMessage::IdentifyTrayApplication(kind, id),
                becomes(RuleListsView { tray: noted(lists.tray, kind, id), ..lists }),
                false,
            )
            &&& turns_session(
                situation,
                SocketMessage::IdentifyLayeredApplication(kind, id),
                becomes(RuleListsView { layered: noted(lists.layered, kind, id), ..lists }),
                false,
            )
            &&& turns_session(
                situation,
                SocketMessage::RemoveTitleBar(kind, id),
                becomes(
                    RuleListsView { no_titlebar: noted(lists.no_titlebar, kind, id), ..lists },
                ),
                false,
            )
        }),
{
    let lists = situation.session.lists;
    is_noted(lists.manage, kind, id);
    is_noted(lists.name_change, kind, id);
    is_noted(lists.tray, kind, id);
    is_noted(lists.layered, kind, id);
    is_noted(lists.no_titlebar, kind, id);
    lists_are_turned(
        situation,
        SocketMessage::ManageRule(kind, id),
        RuleListsView { manage: noted(lists.manage, kind, id), ..lists },
    );
    lists_are_turned(
        situation,
        SocketMessage::IdentifyObjectNameChangeApplication(kind, id),
        RuleListsView { name_change: noted(lists.name_change, kind, id), ..lists },
    );
    lists_are_turned(
        situation,
        SocketMessage::IdentifyTrayApplication(kind, id),
        RuleListsView { tray: noted(lists.tray, kind, id), ..lists },
    );
    lists_are_turned(
        situation,
        SocketMessage::IdentifyLayeredApplication(kind, id),
        RuleListsView { layered: noted(lists.layered, kind, id), ..lists },
    );
    lists_are_turned(
        situation,
        SocketMessage::RemoveTitleBar(kind, id),
        RuleListsView { no_titlebar: noted(lists.no_titlebar, kind, id), ..lists },
    );
}

/// Whether a workspace rule sends the windows with a text to a place.
pub open spec fn sends(
    rule: WorkspaceRuleView,
    kind: ApplicationIdentifier,
    id: String,
    m: usize,
    w: usize,
    initial_only: bool,
) -> bool {
    &&& rule.monitor_index == m
    &&& rule.workspace_index == w
    &&& rule.initial_only == initial_only
    &&& rule.matching_rule.same_as(rule_about(kind, id))
}

/// Whether a list of workspace rules is another one with a rule that sends windows to a place,
/// at the end unless it has been there before.
pub open spec fn gains(
    before: Seq<WorkspaceRuleView>,
    after: Seq<WorkspaceRuleView>,
    kind: ApplicationIdentifier,
    id: String,
    m: usize,
    w: usize,
    initial_only: bool,
) -> bool {
    if exists|i: int|
        0 <= i < before.len() && sends(#[trigger] before[i], kind, id, m, w, initial_only) {
        after == before
    } else {
        after.len() == before.len() + 1 && after.drop_last() == before && sends(
            after.last(),
            kind,
            id,
            m,
            w,
            initial_only,
        )
    }
}

proof fn is_gained(
    list: Seq<WorkspaceRuleView>,
    kind: ApplicationIdentifier,
    id: String,
    m: usize,
    w: usize,
    initial_only: bool,
)
    ensures
        gains(
            list,
            session::with_workspace_rule(
                list,
                session::workspace_rule(kind, id, m, w, initial_only),
            ),
            kind,
            id,
            m,
            w,
            initial_only,
        ),
{
    let rule = session::workspace_rule(kind, id, m, w, initial_only);
    assert forall|i: int| 0 <= i < list.len() implies (#[trigger] list[i]).same_as(rule) == sends(
        list[i],
        kind,
        id,
        m,
        w,
        initial_only,
    ) by {}
    if session::has_workspace_rule(list, rule) {
        let i = choose|i: int| 0 <= i < list.len() && (#[trigger] list[i]).same_as(rule);
        assert(sends(list[i], kind, id, m, w, initial_only));
    } else {
        assert forall|i: int| 0 <= i < list.len() implies !sends(
            #[trigger] list[i],
            kind,
            id,
            m,
            w,
            initial_only,
        ) by {
            assert(!list[i].same_as(rule));
        }
        assert(list.push(rule).drop_last() =~= list);
    }
}

proof fn workspace_rules_are_turned(situation: Situation, message: SocketMessage)
    requires
        situation.is_at_home(),
        message is WorkspaceRule || message is InitialWorkspaceRule || message is NamedWorkspaceRule
            || message is InitialNamedWorkspaceRule || message is ClearAllWorkspaceRules
            || message is ClearWorkspaceRules || message is ClearNamedWorkspaceRules,
    ensures
        session::changed_workspace_rules(
            situation.manager,
            situation.session.workspace_rules,
            message,
        ) is Some,
        turns_session(
            situation,
            message,
            SessionView {
                workspace_rules: session::changed_workspace_rules(
                    situation.manager,
                    situation.session.workspace_rules,
                    message,
                )->0,
                ..situation.session
            },
            false,
        ),
{
    assert(change_settings::adjustment(situation.session.settings, message) is None) by {
        reveal(change_settings::adjustment);
    }
    assert(situation.session.lists.noting(message) is None);
    reveal(process_command::session_feat);
    session_commands(situation, message);
}

/// A command that gives a workspace rule adds it, once, for the place that it gives by numbers
/// or by a name, for new windows only or for all. The rules are all cleared by command, too.
pub proof fn workspace_rules_are_noted(
    situation: Situation,
    kind: ApplicationIdentifier,
    id: String,
    m: usize,
    w: usize,
    name: String,
)
    requires
        situation.is_at_home(),
        situation.manager.place_named(name@) == Some((m as int, w as int)),
    ensures
        ({
            let before = situation.session.workspace_rules;
            let plain = situation.after(SocketMessage::WorkspaceRule(kind, id, m, w));
            let initial = situation.after(SocketMessage::InitialWorkspaceRule(kind, id, m, w));
            let named = situation.after(SocketMessage::NamedWorkspaceRule(kind, id, name));
            let initial_named = situation.after(
                SocketMessage::InitialNamedWorkspaceRule(kind, id, name),
            );
            let cleared = situation.after(SocketMessage::ClearAllWorkspaceRules);
            &&& gains(before, plain.session.workspace_rules, kind, id, m, w, false)
            &&& gains(before, initial.session.workspace_rules, kind, id, m, w, true)
            &&& plain == named
            &&& initial == initial_named
            &&& plain.session.lists == situation.session.lists
            &&& plain.manager == situation.manager
            &&& cleared.session == (SessionView {
                workspace_rules: Seq::empty(),
                ..situation.session
            })
            &&& situation.after(SocketMessage::ClearNamedWorkspaceRules(name)) == situation.after(
                SocketMessage::ClearWorkspaceRules(m, w),
            )
        }),
{
    let before = situation.session.workspace_rules;
    is_gained(before, kind, id, m, w, false);
    is_gained(before, kind, id, m, w, true);
    workspace_rules_are_turned(situation, SocketMessage::WorkspaceRule(kind, id, m, w));
    workspace_rules_are_turned(situation, SocketMessage::InitialWorkspaceRule(kind, id, m, w));
    workspace_rules_are_turned(situation, SocketMessage::NamedWorkspaceRule(kind, id, name));
    workspace_rules_are_turned(
        situation,
        SocketMessage::InitialNamedWorkspaceRule(kind, id, name),
    );
    workspace_rules_are_turned(situation, SocketMessage::ClearAllWorkspaceRules);
    workspace_rules_are_turned(situation, SocketMessage::ClearWorkspaceRules(m, w));
    workspace_rules_are_turned(situation, SocketMessage::ClearNamedWorkspaceRules(name));
}

/// The preferred index of a monitor or of a display is remembered, and that of all others
/// stays.
pub proof fn indices_are_preferred(situation: Situation, idx: usize, rect: Rect, display: String)
    requires
        situation.is_at_home(),
    ensures
        ({
            let session = situation.session;
            let of_monitor = SocketMessage::MonitorIndexPreference(
                idx,
                rect.left,
                rect.top,
                rect.right,
                rect.bottom,
            );
            &&& turns_session(
                situation,
                of_monitor,
                SessionView {
                    monitor_index_preferences: session.monitor_index_preferences.insert(idx, rect),
                    ..session
                },
                false,
            )
            &&& turns_session(
                situation,
                SocketMessage::DisplayIndexPreference(idx, display),
                SessionView {
                    display_index_preferences: session.display_index_preferences.insert(
                        idx,
                        display,
                    ),
                    ..session
                },
                false,
            )
        }),
{
    reveal(change_settings::adjustment);
    reveal(process_command::session_feat);
    session_commands(
        situation,
        SocketMessage::MonitorIndexPreference(
            idx,
            rect.left,
            rect.top,
            rect.right,
            rect.bottom,
        ),
    );
    session_commands(situation, SocketMessage::DisplayIndexPreference(idx, display));
}

/// A client subscribes and leaves by command, at the socket or the pipe that it gives, and no other
/// subscriber is touched.
pub proof fn clients_subscribe_and_leave(situation: Situation, socket: String)
    requires
        situation.is_at_home(),
    ensures
        ({
            let session = situation.session;
            let before = session.subscriptions;
            let becomes = |subscriptions: SubscriptionsView|
                SessionView { subscriptions, ..session };
            &&& turns_session(
                situation,
                SocketMessage::AddSubscriberSocket(socket),
                becomes(
                    SubscriptionsView { sockets: before.sockets.insert(socket@), ..before },
                ),
                false,
            )
            &&& turns_session(
                situation,
                SocketMessage::RemoveSubscriberSocket(socket),
                becomes(
                    SubscriptionsView { sockets: before.sockets.remove(socket@), ..before },
                ),
                false,
            )
            &&& turns_session(
                situation,
                SocketMessage::RemoveSubscriberPipe(socket),
                becomes(SubscriptionsView { pipes: before.pipes.remove(socket@), ..before }),
                false,
            )
        }),
{
    assert(change_settings::adjustment(
        situation.session.settings,
        SocketMessage::AddSubscriberSocket(socket),
    ) is None && change_settings::adjustment(
        situation.session.settings,
        SocketMessage::RemoveSubscriberSocket(socket),
    ) is None && change_settings::adjustment(
        situation.session.settings,
        SocketMessage::RemoveSubscriberPipe(socket),
    ) is None) by {
        reveal(change_settings::adjustment);
    }
    reveal(process_command::session_feat);
    session_commands(situation, SocketMessage::AddSubscriberSocket(socket));
    session_commands(situation, SocketMessage::RemoveSubscriberSocket(socket));
    session_commands(situation, SocketMessage::RemoveSubscriberPipe(socket));
}

/// The colour of the borders of a kind of window is set to what is given, and that of no other
/// kind.
pub proof fn colours_are_set_for_their_kind(
    situation: Situation,
    kind: WindowKind,
    r: u32,
    g: u32,
    b: u32,
)
    requires
        situation.is_at_home(),
    ensures
        ({
            let turn = situation.after(SocketMessage::BorderColour(kind, r, g, b));
            let before = situation.session.settings.border.colours;
            let after = turn.session.settings.border.colours;
            let colour = Some(Rgb { r, g, b });
            &&& turn.result is Ok
            &&& turn.manager == situation.manager
            &&& after.focused == if kind is Single {
                colour
            } else {
                before.focused
            }
            &&& after.stack == if kind is Stack {
                colour
            } else {
                before.stack
            }
            &&& after.monocle == if kind is Monocle {
                colour
            } else {
                before.monocle
            }
            &&& after.unfocused == if kind is Unfocused {
                colour
            } else {
                before.unfocused
            }
            &&& after.unfocused_locked == if kind is UnfocusedLocked {
                colour
            } else {
                before.unfocused_locked
            }
            &&& after.floating == if kind is Floating {
                colour
            } else {
                before.floating
            }
            &&& after.pinned == if kind is Pinned {
                colour
            } else {
                before.pinned
            }
        }),
{
    reveal(change_settings::adjustment);
    is_adjusted(situation, SocketMessage::BorderColour(kind, r, g, b));
}

} // verus!
