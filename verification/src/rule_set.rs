//! The rules and limits that decide which windows are managed.

use vstd::prelude::*;

use crate::rules::ApplicationIdentifier;
use crate::rules::IdWithIdentifier;
use crate::rules::MatchingRule;
use crate::rules::MatchingStrategy;
use crate::rules::RuleView;
use crate::text;
use crate::text::RegexIdentifiers;

verus! {

/// Whether a list of texts holds a text.
pub open spec fn holds_text(list: Seq<String>, text: Seq<char>) -> bool {
    exists|i: int| 0 <= i < list.len() && (#[trigger] list[i])@ == text
}

pub fn contains_text(list: &Vec<String>, text: &str) -> (r: bool)
    ensures
        r == holds_text(list@, text@),
{
    let mut i: usize = 0;
    while i < list.len()
        invariant
            i <= list@.len(),
            forall|k: int| 0 <= k < i ==> (#[trigger] list@[k])@ != text@,
        decreases list@.len() - i,
    {
        if text::equal(list[i].as_str(), text) {
            assert(list@[i as int]@ == text@);
            return true;
        }
        i = i + 1;
    }
    false
}

pub struct RuleSet {
    /// Windows of these classes are never managed.
    pub permaignore_classes: Vec<String>,
    pub ignore_identifiers: Vec<MatchingRule>,
    pub manage_identifiers: Vec<MatchingRule>,
    pub floating_applications: Vec<MatchingRule>,
    pub session_floating_applications: Vec<MatchingRule>,
    pub pinned_floating_applications: Vec<MatchingRule>,
    pub layered_whitelist: Vec<MatchingRule>,
    pub no_titlebar: Vec<MatchingRule>,
    pub slow_application_identifiers: Vec<MatchingRule>,
    pub tray_and_multi_window_identifiers: Vec<MatchingRule>,
    pub object_name_change_on_launch: Vec<MatchingRule>,
    pub transparency_blacklist: Vec<MatchingRule>,
    pub wsl2_ui_processes: Vec<String>,
    pub regex_identifiers: RegexIdentifiers,
    pub minimum_width: i32,
    pub minimum_height: i32,
    /// How long, in milliseconds, a slow application is waited for.
    pub slow_application_compensation_time: u64,
}

/// The rule that a window's `kind` equals `id`.
pub open spec fn is_equality_rule(
    rule: MatchingRule,
    kind: ApplicationIdentifier,
    id: Seq<char>,
) -> bool {
    rule@ matches RuleView::Simple(identifier) && identifier.kind == kind && identifier.id@ == id
        && identifier.matching_strategy == Some(MatchingStrategy::Equals)
}

fn equality_rule(kind: ApplicationIdentifier, id: &str) -> (r: MatchingRule)
    ensures
        is_equality_rule(r, kind, id@),
{
    MatchingRule::Simple(
        IdWithIdentifier {
            kind,
            id: id.to_owned(),
            matching_strategy: Some(MatchingStrategy::Equals),
        },
    )
}

impl RuleSet {
    pub open spec fn wf(&self) -> bool {
        self.regex_identifiers.wf()
    }

    /// The rules that hold before any configuration is loaded.
    pub fn new() -> (r: Self)
        ensures
            r.wf(),
            r.permaignore_classes@.len() == 1,
            r.permaignore_classes@[0]@ == "Chrome_RenderWidgetHostHWND"@,
            r.ignore_identifiers@.len() == 3,
            is_equality_rule(
                r.ignore_identifiers@[0],
                ApplicationIdentifier::Class,
                "OPContainerClass"@,
            ),
            is_equality_rule(
                r.ignore_identifiers@[1],
                ApplicationIdentifier::Class,
                "IHWindowClass"@,
            ),
            is_equality_rule(
                r.ignore_identifiers@[2],
                ApplicationIdentifier::Exe,
                "komorebi-bar.exe"@,
            ),
            r.manage_identifiers@.len() == 0,
            r.floating_applications@.len() == 1,
            is_equality_rule(
                r.floating_applications@[0],
                ApplicationIdentifier::Exe,
                "komorebi-shortcuts.exe"@,
            ),
            r.session_floating_applications@.len() == 0,
            r.pinned_floating_applications@.len() == 0,
            r.layered_whitelist@.len() == 1,
            is_equality_rule(r.layered_whitelist@[0], ApplicationIdentifier::Exe, "steam.exe"@),
            r.no_titlebar@.len() == 0,
            r.slow_application_identifiers@.len() == 1,
            is_equality_rule(
                r.slow_application_identifiers@[0],
                ApplicationIdentifier::Exe,
                "firefox.exe"@,
            ),
            r.tray_and_multi_window_identifiers@.len() == 6,
            is_equality_rule(
                r.tray_and_multi_window_identifiers@[0],
                ApplicationIdentifier::Exe,
                "explorer.exe"@,
            ),
            is_equality_rule(
                r.tray_and_multi_window_identifiers@[1],
                ApplicationIdentifier::Exe,
                "firefox.exe"@,
            ),
            is_equality_rule(
                r.tray_and_multi_window_identifiers@[2],
                ApplicationIdentifier::Exe,
                "chrome.exe"@,
            ),
            is_equality_rule(
                r.tray_and_multi_window_identifiers@[3],
                ApplicationIdentifier::Exe,
                "idea64.exe"@,
            ),
            is_equality_rule(
                r.tray_and_multi_window_identifiers@[4],
                ApplicationIdentifier::Exe,
                "ApplicationFrameHost.exe"@,
            ),
            is_equality_rule(
                r.tray_and_multi_window_identifiers@[5],
                ApplicationIdentifier::Exe,
                "steam.exe"@,
            ),
            r.object_name_change_on_launch@.len() == 2,
            is_equality_rule(
                r.object_name_change_on_launch@[0],
                ApplicationIdentifier::Exe,
                "firefox.exe"@,
            ),
            is_equality_rule(
                r.object_name_change_on_launch@[1],
                ApplicationIdentifier::Exe,
                "idea64.exe"@,
            ),
            r.transparency_blacklist@.len() == 0,
            r.wsl2_ui_processes@.len() == 2,
            r.wsl2_ui_processes@[0]@ == "X410.exe"@,
            r.wsl2_ui_processes@[1]@ == "vcxsrv.exe"@,
            r.regex_identifiers@ == Map::<Seq<char>, Set<Seq<char>>>::empty(),
            r.minimum_width == 0,
            r.minimum_height == 0,
            r.slow_application_compensation_time == 20,
    {
        let mut permaignore_classes: Vec<String> = Vec::new();
        permaignore_classes.push("Chrome_RenderWidgetHostHWND".to_owned());
        let mut ignore_identifiers: Vec<MatchingRule> = Vec::new();
        ignore_identifiers.push(equality_rule(ApplicationIdentifier::Class, "OPContainerClass"));
        ignore_identifiers.push(equality_rule(ApplicationIdentifier::Class, "IHWindowClass"));
        ignore_identifiers.push(equality_rule(ApplicationIdentifier::Exe, "komorebi-bar.exe"));
        let mut floating_applications: Vec<MatchingRule> = Vec::new();
        floating_applications.push(
            equality_rule(ApplicationIdentifier::Exe, "komorebi-shortcuts.exe"),
        );
        let mut layered_whitelist: Vec<MatchingRule> = Vec::new();
        layered_whitelist.push(equality_rule(ApplicationIdentifier::Exe, "steam.exe"));
        let mut slow_application_identifiers: Vec<MatchingRule> = Vec::new();
        slow_application_identifiers.push(
            equality_rule(ApplicationIdentifier::Exe, "firefox.exe"),
        );
        let mut tray_and_multi_window_identifiers: Vec<MatchingRule> = Vec::new();
        tray_and_multi_window_identifiers.push(
            equality_rule(ApplicationIdentifier::Exe, "explorer.exe"),
        );
        tray_and_multi_window_identifiers.push(
            equality_rule(ApplicationIdentifier::Exe, "firefox.exe"),
        );
        tray_and_multi_window_identifiers.push(
            equality_rule(ApplicationIdentifier::Exe, "chrome.exe"),
        );
        tray_and_multi_window_identifiers.push(
            equality_rule(ApplicationIdentifier::Exe, "idea64.exe"),
        );
        tray_and_multi_window_identifiers.push(
            equality_rule(ApplicationIdentifier::Exe, "ApplicationFrameHost.exe"),
        );
        tray_and_multi_window_identifiers.push(
            equality_rule(ApplicationIdentifier::Exe, "steam.exe"),
        );
        let mut object_name_change_on_launch: Vec<MatchingRule> = Vec::new();
        object_name_change_on_launch.push(
            equality_rule(ApplicationIdentifier::Exe, "firefox.exe"),
        );
        object_name_change_on_launch.push(
            equality_rule(ApplicationIdentifier::Exe, "idea64.exe"),
        );
        let mut wsl2_ui_processes: Vec<String> = Vec::new();
        wsl2_ui_processes.push("X410.exe".to_owned());
        wsl2_ui_processes.push("vcxsrv.exe".to_owned());
        RuleSet {
            permaignore_classes,
            ignore_identifiers,
            manage_identifiers: Vec::new(),
            floating_applications,
            session_floating_applications: Vec::new(),
            pinned_floating_applications: Vec::new(),
            layered_whitelist,
            no_titlebar: Vec::new(),
            slow_application_identifiers,
            tray_and_multi_window_identifiers,
            object_name_change_on_launch,
            transparency_blacklist: Vec::new(),
            wsl2_ui_processes,
            regex_identifiers: RegexIdentifiers::new(),
            minimum_width: 0,
            minimum_height: 0,
            slow_application_compensation_time: 20,
        }
    }
}

} // verus!
