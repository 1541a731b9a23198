//! Rules that pick windows by title, executable, class or path.

use vstd::prelude::*;

use crate::text;
use crate::text::RegexIdentifiers;

verus! {

/// What a rule looks at.
#[derive(Clone, Copy, Debug, PartialEq, Eq, Structural)]
pub enum ApplicationIdentifier {
    Exe,
    Class,
    Title,
    Path,
}

/// How a rule compares what it looks at with its identifier.
#[derive(Clone, Copy, Debug, PartialEq, Eq, Structural)]
pub enum MatchingStrategy {
    Legacy,
    Equals,
    StartsWith,
    EndsWith,
    Contains,
    Regex,
    DoesNotEndWith,
    DoesNotStartWith,
    DoesNotEqual,
    DoesNotContain,
}

#[derive(Debug)]
pub struct IdWithIdentifier {
    pub kind: ApplicationIdentifier,
    pub id: String,
    pub matching_strategy: Option<MatchingStrategy>,
}

impl Clone for IdWithIdentifier {
    fn clone(&self) -> (r: Self)
        ensures
            r == *self,
    {
        IdWithIdentifier {
            kind: self.kind,
            id: self.id.clone(),
            matching_strategy: self.matching_strategy,
        }
    }
}

impl IdWithIdentifier {
    /// Whether two identifiers say the same.
    pub open spec fn same_as(self, other: IdWithIdentifier) -> bool {
        &&& self.kind == other.kind
        &&& self.id@ == other.id@
        &&& self.matching_strategy == other.matching_strategy
    }

    pub fn is_same(&self, other: &IdWithIdentifier) -> (r: bool)
        ensures
            r == self.same_as(*other),
    {
        let same_strategy = match (self.matching_strategy, other.matching_strategy) {
            (None, None) => true,
            (Some(a), Some(b)) => a == b,
            _ => false,
        };
        self.kind == other.kind && same_strategy && text::equal(
            self.id.as_str(),
            other.id.as_str(),
        )
    }
}

/// One identifier, or several that must all match.
#[derive(Debug)]
pub enum MatchingRule {
    Simple(IdWithIdentifier),
    Composite(Vec<IdWithIdentifier>),
}

/// The identifiers of a rule, for contracts.
pub enum RuleView {
    Simple(IdWithIdentifier),
    Composite(Seq<IdWithIdentifier>),
}

impl View for MatchingRule {
    type V = RuleView;

    open spec fn view(&self) -> RuleView {
        match self {
            MatchingRule::Simple(identifier) => RuleView::Simple(*identifier),
            MatchingRule::Composite(identifiers) => RuleView::Composite(identifiers@),
        }
    }
}

impl RuleView {
    pub open spec fn same_as(self, other: RuleView) -> bool {
        match (self, other) {
            (RuleView::Simple(a), RuleView::Simple(b)) => a.same_as(b),
            (RuleView::Composite(a), RuleView::Composite(b)) => {
                &&& a.len() == b.len()
                &&& forall|i: int| 0 <= i < a.len() ==> (#[trigger] a[i]).same_as(b[i])
            },
            _ => false,
        }
    }
}

impl Clone for MatchingRule {
    fn clone(&self) -> (r: Self)
        ensures
            r@ == self@,
    {
        match self {
            MatchingRule::Simple(identifier) => MatchingRule::Simple(identifier.clone()),
            MatchingRule::Composite(identifiers) => {
                let mut copy: Vec<IdWithIdentifier> = Vec::new();
                let mut i: usize = 0;
                while i < identifiers.len()
                    invariant
                        i <= identifiers@.len(),
                        copy@ == identifiers@.take(i as int),
                    decreases identifiers@.len() - i,
                {
                    copy.push(identifiers[i].clone());
                    i = i + 1;
                    assert(copy@ =~= identifiers@.take(i as int));
                }
                assert(identifiers@.take(i as int) =~= identifiers@);
                MatchingRule::Composite(copy)
            },
        }
    }
}

impl MatchingRule {
    /// Whether two rules say the same.
    pub fn is_same(&self, other: &MatchingRule) -> (r: bool)
        ensures
            r == self@.same_as(other@),
    {
        match (self, other) {
            (MatchingRule::Simple(a), MatchingRule::Simple(b)) => a.is_same(b),
            (MatchingRule::Composite(a), MatchingRule::Composite(b)) => {
                if a.len() != b.len() {
                    return false;
                }
                let mut i: usize = 0;
                while i < a.len()
                    invariant
                        i <= a@.len(),
                        a@.len() == b@.len(),
                        self@ == RuleView::Composite(a@),
                        other@ == RuleView::Composite(b@),
                        forall|k: int| 0 <= k < i ==> (#[trigger] a@[k]).same_as(b@[k]),
                    decreases a@.len() - i,
                {
                    if !a[i].is_same(&b[i]) {
                        assert(!a@[i as int].same_as(b@[i as int]));
                        return false;
                    }
                    i = i + 1;
                }
                true
            },
            _ => false,
        }
    }

    /// A rule of one identifier.
    pub fn simple(
        kind: ApplicationIdentifier,
        id: String,
        matching_strategy: MatchingStrategy,
    ) -> (r: Self)
        ensures
            r@ == simple_rule(kind, id, matching_strategy),
    {
        MatchingRule::Simple(
            IdWithIdentifier { kind, id, matching_strategy: Some(matching_strategy) },
        )
    }
}

pub open spec fn simple_rule(
    kind: ApplicationIdentifier,
    id: String,
    matching_strategy: MatchingStrategy,
) -> RuleView {
    RuleView::Simple(IdWithIdentifier { kind, id, matching_strategy: Some(matching_strategy) })
}

/// The four texts by which rules know a window.
pub struct WindowTexts {
    pub title: Seq<char>,
    pub exe: Seq<char>,
    pub class: Seq<char>,
    pub path: Seq<char>,
}

impl WindowTexts {
    /// The text that an identifier of this kind looks at.
    pub open spec fn text_of(self, kind: ApplicationIdentifier) -> Seq<char> {
        match kind {
            ApplicationIdentifier::Title => self.title,
            ApplicationIdentifier::Exe => self.exe,
            ApplicationIdentifier::Class => self.class,
            ApplicationIdentifier::Path => self.path,
        }
    }
}

/// Whether an identifier matches a window.
///
/// Without a strategy, and under the legacy one, titles and classes match by prefix or
/// suffix and executables and paths by equality. A regular expression matches where one
/// is kept under the identifier's text and it matches the window's.
pub open spec fn identifier_matches(
    identifier: IdWithIdentifier,
    window: WindowTexts,
    regexes: Map<Seq<char>, Set<Seq<char>>>,
) -> bool {
    let text = window.text_of(identifier.kind);
    let id = identifier.id@;
    match identifier.matching_strategy {
        None | Some(MatchingStrategy::Legacy) => match identifier.kind {
            ApplicationIdentifier::Title | ApplicationIdentifier::Class => id.is_prefix_of(text)
                || id.is_suffix_of(text),
            ApplicationIdentifier::Exe | ApplicationIdentifier::Path => text == id,
        },
        Some(MatchingStrategy::Equals) => text == id,
        Some(MatchingStrategy::DoesNotEqual) => text != id,
        Some(MatchingStrategy::StartsWith) => id.is_prefix_of(text),
        Some(MatchingStrategy::DoesNotStartWith) => !id.is_prefix_of(text),
        Some(MatchingStrategy::EndsWith) => id.is_suffix_of(text),
        Some(MatchingStrategy::DoesNotEndWith) => !id.is_suffix_of(text),
        Some(MatchingStrategy::Contains) => text::occurs_in(id, text),
        Some(MatchingStrategy::DoesNotContain) => !text::occurs_in(id, text),
        Some(MatchingStrategy::Regex) => regexes.dom().contains(id) && regexes[id].contains(text),
    }
}

/// Whether a rule matches a window: its identifier does, or all of its identifiers do.
pub open spec fn rule_matches(
    rule: RuleView,
    window: WindowTexts,
    regexes: Map<Seq<char>, Set<Seq<char>>>,
) -> bool {
    match rule {
        RuleView::Simple(identifier) => identifier_matches(identifier, window, regexes),
        RuleView::Composite(identifiers) => all_match(identifiers, window, regexes),
    }
}

/// Whether every identifier of a list matches a window.
pub open spec fn all_match(
    identifiers: Seq<IdWithIdentifier>,
    window: WindowTexts,
    regexes: Map<Seq<char>, Set<Seq<char>>>,
) -> bool {
    forall|i: int|
        0 <= i < identifiers.len() ==> identifier_matches(
            #[trigger] identifiers[i],
            window,
            regexes,
        )
}

/// The last of the rules that matches a window.
#[verifier::opaque]
pub open spec fn last_match(
    rules: Seq<MatchingRule>,
    window: WindowTexts,
    regexes: Map<Seq<char>, Set<Seq<char>>>,
) -> Option<RuleView>
    decreases rules.len(),
{
    if rules.len() == 0 {
        None
    } else if rule_matches(rules.last()@, window, regexes) {
        Some(rules.last()@)
    } else {
        last_match(rules.drop_last(), window, regexes)
    }
}

/// The rule, of a list, that takes effect on a window: the last one that matches.
pub fn should_act(
    title: &str,
    exe_name: &str,
    class: &str,
    path: &str,
    identifiers: &Vec<MatchingRule>,
    regex_identifiers: &RegexIdentifiers,
) -> (r: Option<MatchingRule>)
    requires
        regex_identifiers.wf(),
    ensures
        ({
            let window = WindowTexts { title: title@, exe: exe_name@, class: class@, path: path@ };
            match r {
                Some(rule) => last_match(identifiers@, window, regex_identifiers@) == Some(rule@),
                None => last_match(identifiers@, window, regex_identifiers@) is None,
            }
        }),
{
    let ghost window = WindowTexts { title: title@, exe: exe_name@, class: class@, path: path@ };
    let mut matching_rule: Option<MatchingRule> = None;
    let mut i: usize = 0;
    proof {
        reveal(last_match);
    }
    while i < identifiers.len()
        invariant
            regex_identifiers.wf(),
            window == (WindowTexts { title: title@, exe: exe_name@, class: class@, path: path@ }),
            i <= identifiers@.len(),
            match matching_rule {
                Some(rule) => last_match(
                    identifiers@.take(i as int),
                    window,
                    regex_identifiers@,
                ) == Some(rule@),
                None => last_match(
                    identifiers@.take(i as int),
                    window,
                    regex_identifiers@,
                ) is None,
            },
        decreases identifiers@.len() - i,
    {
        let rule = &identifiers[i];
        let matched = rule_applies(rule, title, exe_name, class, path, regex_identifiers);
        proof {
            reveal(last_match);
            assert(identifiers@.take(i + 1).drop_last() =~= identifiers@.take(i as int));
            assert(identifiers@.take(i + 1).last() == *rule);
        }
        if matched {
            matching_rule = Some(rule.clone());
        }
        i = i + 1;
    }
    assert(identifiers@.take(i as int) =~= identifiers@);
    matching_rule
}

/// Whether one rule matches a window.
fn rule_applies(
    rule: &MatchingRule,
    title: &str,
    exe_name: &str,
    class: &str,
    path: &str,
    regex_identifiers: &RegexIdentifiers,
) -> (r: bool)
    requires
        regex_identifiers.wf(),
    ensures
        r == rule_matches(
            rule@,
            (WindowTexts { title: title@, exe: exe_name@, class: class@, path: path@ }),
            regex_identifiers@,
        ),
{
    match rule {
        MatchingRule::Simple(identifier) => should_act_individual(
            title,
            exe_name,
            class,
            path,
            identifier,
            regex_identifiers,
        ),
        MatchingRule::Composite(identifiers) => {
            let ghost window = WindowTexts {
                title: title@,
                exe: exe_name@,
                class: class@,
                path: path@,
            };
            let mut i: usize = 0;
            while i < identifiers.len()
                invariant
                    regex_identifiers.wf(),
                    rule@ == RuleView::Composite(identifiers@),
                    window == (WindowTexts {
                        title: title@,
                        exe: exe_name@,
                        class: class@,
                        path: path@,
                    }),
                    i <= identifiers@.len(),
                    forall|k: int|
                        0 <= k < i ==> identifier_matches(
                            #[trigger] identifiers@[k],
                            window,
                            regex_identifiers@,
                        ),
                decreases identifiers@.len() - i,
            {
                if !should_act_individual(
                    title,
                    exe_name,
                    class,
                    path,
                    &identifiers[i],
                    regex_identifiers,
                ) {
                    assert(!identifier_matches(
                        identifiers@[i as int],
                        window,
                        regex_identifiers@,
                    ));
                    assert(!all_match(identifiers@, window, regex_identifiers@));
                    return false;
                }
                i = i + 1;
            }
            true
        },
    }
}

/// Whether one identifier matches a window.
pub fn should_act_individual(
    title: &str,
    exe_name: &str,
    class: &str,
    path: &str,
    identifier: &IdWithIdentifier,
    regex_identifiers: &RegexIdentifiers,
) -> (r: bool)
    requires
        regex_identifiers.wf(),
    ensures
        r == identifier_matches(
            *identifier,
            (WindowTexts { title: title@, exe: exe_name@, class: class@, path: path@ }),
            regex_identifiers@,
        ),
{
    let subject = match identifier.kind {
        ApplicationIdentifier::Title => title,
        ApplicationIdentifier::Exe => exe_name,
        ApplicationIdentifier::Class => class,
        ApplicationIdentifier::Path => path,
    };
    let id = identifier.id.as_str();
    match identifier.matching_strategy {
        None | Some(MatchingStrategy::Legacy) => match identifier.kind {
            ApplicationIdentifier::Title | ApplicationIdentifier::Class => text::starts_with(
                subject,
                id,
            ) || text::ends_with(subject, id),
            ApplicationIdentifier::Exe | ApplicationIdentifier::Path => text::equal(subject, id),
        },
        Some(MatchingStrategy::Equals) => text::equal(subject, id),
        Some(MatchingStrategy::DoesNotEqual) => !text::equal(subject, id),
        Some(MatchingStrategy::StartsWith) => text::starts_with(subject, id),
        Some(MatchingStrategy::DoesNotStartWith) => !text::starts_with(subject, id),
        Some(MatchingStrategy::EndsWith) => text::ends_with(subject, id),
        Some(MatchingStrategy::DoesNotEndWith) => !text::ends_with(subject, id),
        Some(MatchingStrategy::Contains) => text::contains(subject, id),
        Some(MatchingStrategy::DoesNotContain) => !text::contains(subject, id),
        Some(MatchingStrategy::Regex) => match regex_identifiers.get(id) {
            Some(re) => text::is_match(re, subject),
            None => false,
        },
    }
}

/// A negative strategy matches exactly the windows that its positive strategy does not.
pub proof fn negative_strategies_are_complements(
    kind: ApplicationIdentifier,
    id: String,
    window: WindowTexts,
    regexes: Map<Seq<char>, Set<Seq<char>>>,
)
    ensures
        ({
            let matches = |strategy: MatchingStrategy|
                identifier_matches(
                    IdWithIdentifier { kind, id, matching_strategy: Some(strategy) },
                    window,
                    regexes,
                );
            &&& matches(MatchingStrategy::DoesNotEqual) == !matches(MatchingStrategy::Equals)
            &&& matches(MatchingStrategy::DoesNotStartWith) == !matches(
                MatchingStrategy::StartsWith,
            )
            &&& matches(MatchingStrategy::DoesNotEndWith) == !matches(MatchingStrategy::EndsWith)
            &&& matches(MatchingStrategy::DoesNotContain) == !matches(MatchingStrategy::Contains)
        }),
{
}

/// A list of rules takes effect on a window exactly when one of its rules matches, and
/// a rule that is added at the end wins over all rules before it.
pub proof fn later_rules_win(
    rules: Seq<MatchingRule>,
    added: MatchingRule,
    window: WindowTexts,
    regexes: Map<Seq<char>, Set<Seq<char>>>,
)
    ensures
        last_match(rules, window, regexes) is Some == (exists|i: int|
            0 <= i < rules.len() && rule_matches(#[trigger] rules[i]@, window, regexes)),
        last_match(rules.push(added), window, regexes) == if rule_matches(
            added@,
            window,
            regexes,
        ) {
            Some(added@)
        } else {
            last_match(rules, window, regexes)
        },
    decreases rules.len(),
{
    reveal(last_match);
    assert(rules.push(added).drop_last() =~= rules);
    if rules.len() > 0 {
        later_rules_win(rules.drop_last(), added, window, regexes);
        let before = rules.drop_last();
        assert(forall|i: int| 0 <= i < before.len() ==> before[i] == rules[i]);
        if last_match(before, window, regexes) is Some {
            let i = choose|i: int|
                0 <= i < before.len() && rule_matches(#[trigger] before[i]@, window, regexes);
            assert(rule_matches(rules[i]@, window, regexes));
        }
        if rule_matches(rules.last()@, window, regexes) {
            assert(rule_matches(rules[rules.len() - 1]@, window, regexes));
        }
        if exists|i: int|
            0 <= i < rules.len() && rule_matches(#[trigger] rules[i]@, window, regexes) {
            let i = choose|i: int|
                0 <= i < rules.len() && rule_matches(#[trigger] rules[i]@, window, regexes);
            if i < before.len() {
                assert(rule_matches(before[i]@, window, regexes));
            }
        }
    }
}

/// What it takes for an identifier to match a window by each of the strategies: the text of its
/// kind is its own, begins or ends with it, or has it somewhere, with something before and
/// something behind it.
pub proof fn strategies_mean_what_they_say(
    kind: ApplicationIdentifier,
    id: String,
    window: WindowTexts,
    regexes: Map<Seq<char>, Set<Seq<char>>>,
    before: Seq<char>,
    behind: Seq<char>,
)
    ensures
        ({
            let text = match kind {
                ApplicationIdentifier::Title => window.title,
                ApplicationIdentifier::Exe => window.exe,
                ApplicationIdentifier::Class => window.class,
                ApplicationIdentifier::Path => window.path,
            };
            let matches = |strategy: Option<MatchingStrategy>|
                identifier_matches(
                    IdWithIdentifier { kind, id, matching_strategy: strategy },
                    window,
                    regexes,
                );
            let is_name = kind is Title || kind is Class;
            &&& matches(Some(MatchingStrategy::Equals)) == (text == id@)
            &&& text == id@ + behind ==> matches(Some(MatchingStrategy::StartsWith))
            &&& matches(Some(MatchingStrategy::StartsWith)) ==> text == id@ + text.skip(
                id@.len() as int,
            )
            &&& text == before + id@ ==> matches(Some(MatchingStrategy::EndsWith))
            &&& matches(Some(MatchingStrategy::EndsWith)) ==> text == text.take(
                text.len() - id@.len(),
            ) + id@
            &&& text == before + id@ + behind ==> matches(Some(MatchingStrategy::Contains))
            &&& matches(Some(MatchingStrategy::Contains)) ==> text.len() >= id@.len()
            &&& matches(None) == matches(Some(MatchingStrategy::Legacy))
            &&& !is_name ==> matches(None) == (text == id@)
            &&& is_name ==> matches(None) == (matches(Some(MatchingStrategy::StartsWith))
                || matches(Some(MatchingStrategy::EndsWith)))
            &&& matches(Some(MatchingStrategy::Regex)) == (regexes.contains_key(id@)
                && regexes[id@].contains(text))
        }),
{
    let text = window.text_of(kind);
    if text == id@ + behind {
        assert(id@ =~= text.subrange(0, id@.len() as int));
    }
    if text == before + id@ {
        assert(id@ =~= text.subrange(text.len() - id@.len(), text.len() as int));
    }
    if text == before + id@ + behind {
        let at = before.len() as int;
        assert(text.subrange(at, at + id@.len()) =~= id@);
    }
    if id@.is_prefix_of(text) {
        assert(text =~= id@ + text.skip(id@.len() as int));
    }
    if id@.is_suffix_of(text) {
        assert(text =~= text.take(text.len() - id@.len()) + id@);
    }
}

} // verus!
