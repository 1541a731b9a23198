//! The part of the settings window that helps to find out how windows are seen.

use vstd::prelude::*;

use crate::desktop::WindowFacts;
use crate::eligibility::RuleDebug;
use crate::gui::state::GuiView;
use crate::gui::state::KomorebiGui;
use crate::text;

verus! {

/// Whether a window is listed.
pub open spec fn is_listed(window: WindowFacts) -> bool {
    window.is_window && !window.is_minimized && window.is_visible && window.title is Some
        && window.exe is Some
}

/// The windows that are listed, in order.
pub open spec fn listed(windows: Seq<WindowFacts>) -> Seq<isize> {
    windows.filter(|window: WindowFacts| is_listed(window)).map_values(
        |window: WindowFacts| window.hwnd,
    )
}

/// Choose the windows that are listed.
pub fn list_windows(windows: &Vec<WindowFacts>) -> (r: Vec<isize>)
    ensures
        r@ == listed(windows@),
{
    let mut hwnds: Vec<isize> = Vec::new();
    let mut i: usize = 0;
    while i < windows.len()
        invariant
            i <= windows@.len(),
            hwnds@ == listed(windows@.take(i as int)),
        decreases windows@.len() - i,
    {
        let window = &windows[i];
        let ghost before = windows@.take(i as int);
        if window.is_window && !window.is_minimized && window.is_visible
            && window.title.is_some() && window.exe.is_some() {
            hwnds.push(window.hwnd);
        }
        i = i + 1;
        proof {
            reveal(Seq::filter);
            assert(windows@.take(i as int).drop_last() =~= before);
            assert(hwnds@ =~= listed(windows@.take(i as int)));
        }
    }
    assert(windows@.take(i as int) =~= windows@);
    hwnds
}

/// How many windows there are, and how many of them have no title by now.
pub fn count_windows(windows: &Vec<WindowFacts>) -> (r: (usize, usize))
    ensures
        r.0 == windows@.len(),
        r.1 == windows@.filter(|window: WindowFacts| window.title is None).len(),
{
    let mut invalid: usize = 0;
    let mut i: usize = 0;
    while i < windows.len()
        invariant
            i <= windows@.len(),
            invalid <= i,
            invalid == windows@.take(i as int).filter(
                |window: WindowFacts| window.title is None,
            ).len(),
        decreases windows@.len() - i,
    {
        let ghost before = windows@.take(i as int);
        if windows[i].title.is_none() {
            invalid = invalid + 1;
        }
        i = i + 1;
        proof {
            reveal(Seq::filter);
            assert(windows@.take(i as int).drop_last() =~= before);
        }
    }
    assert(windows@.take(i as int) =~= windows@);
    (windows.len(), invalid)
}

/// By which text a window is chosen.
pub open spec fn window_label(window: WindowFacts) -> Seq<char> {
    window.title->0@ + " ("@ + window.exe->0@ + ")"@
}

/// The text by which a window is chosen. A window without a title or a process has none.
pub fn label_of(window: &WindowFacts) -> (r: Option<String>)
    ensures
        match r {
            Some(label) => window.title is Some && window.exe is Some && label@ == window_label(
                *window,
            ),
            None => window.title is None || window.exe is None,
        },
{
    match (&window.title, &window.exe) {
        (Some(title), Some(exe)) => {
            let mut label = title.clone();
            label.append(" (");
            label.append(exe.as_str());
            label.append(")");
            Some(label)
        },
        _ => None,
    }
}

/// What stands in the chooser: the label of the chosen window, or a request to choose one.
pub fn chosen_label(window: &WindowFacts) -> (r: String)
    ensures
        r@ == (if window.title is Some && window.exe is Some {
            window_label(*window)
        } else {
            "Select a Window"@
        }),
{
    match label_of(window) {
        Some(label) => label,
        None => "Select a Window".to_owned(),
    }
}

/// A text, or the empty one.
pub open spec fn or_empty(text: Option<String>) -> Seq<char> {
    match text {
        Some(text) => text@,
        None => Seq::empty(),
    }
}

/// Whether one of the texts of a window is among these.
pub open spec fn has_text_among(window: WindowFacts, texts: Set<Seq<char>>) -> bool {
    texts.contains(window.title->0@) || texts.contains(window.exe->0@) || texts.contains(
        or_empty(window.class),
    ) || texts.contains(or_empty(window.path))
}

/// The line that is shown for a window with a matching text.
pub open spec fn match_line(window: WindowFacts, texts: Set<Seq<char>>) -> Option<Seq<char>> {
    if window.title is Some && window.exe is Some && has_text_among(window, texts) {
        Some(
            window.title->0@ + " | exe: "@ + window.exe->0@ + " | cls: "@ + or_empty(window.class),
        )
    } else {
        None
    }
}

fn text_or_empty(text: &Option<String>) -> (r: String)
    ensures
        r@ == or_empty(*text),
{
    match text {
        Some(text) => text.clone(),
        None => String::new(),
    }
}

/// What the regular expression says of a window.
fn line_for(re: &regex::Regex, window: &WindowFacts) -> (r: Option<String>)
    ensures
        match r {
            Some(line) => match_line(*window, text::matched_texts(*re)) == Some(line@),
            None => match_line(*window, text::matched_texts(*re)) is None,
        },
{
    match (&window.title, &window.exe) {
        (Some(title), Some(exe)) => {
            let class = text_or_empty(&window.class);
            let path = text_or_empty(&window.path);
            if text::is_match(re, title.as_str()) || text::is_match(re, exe.as_str())
                || text::is_match(re, class.as_str()) || text::is_match(re, path.as_str()) {
                let mut line = title.clone();
                line.append(" | exe: ");
                line.append(exe.as_str());
                line.append(" | cls: ");
                line.append(class.as_str());
                Some(line)
            } else {
                None
            }
        },
        _ => None,
    }
}

/// The lines that are shown for windows, in order.
pub open spec fn match_lines(windows: Seq<WindowFacts>, texts: Set<Seq<char>>) -> Seq<Seq<char>>
    decreases windows.len(),
{
    if windows.len() == 0 {
        Seq::empty()
    } else {
        match match_line(windows.last(), texts) {
            Some(line) => match_lines(windows.drop_last(), texts).push(line),
            None => match_lines(windows.drop_last(), texts),
        }
    }
}

/// The texts of lines.
pub open spec fn texts_of(lines: Seq<String>) -> Seq<Seq<char>> {
    lines.map_values(|line: String| line@)
}

/// The hint that stands in the place of the pattern's matches.
pub open spec fn hint(gui: GuiView) -> bool {
    gui.regex_texts is None && gui.regex_pattern.len() == 0
}

impl GuiView {
    /// The window once a pattern has been edited. What the pattern matches is known where
    /// it compiles; an error is shown where it does not.
    pub open spec fn with_pattern(
        self,
        pattern: Seq<char>,
        outcome: Option<Result<Set<Seq<char>>, Seq<char>>>,
    ) -> GuiView {
        GuiView {
            regex_pattern: pattern,
            regex_texts: match outcome {
                Some(Ok(texts)) => Some(texts),
                _ => None,
            },
            regex_error: match outcome {
                Some(Err(error)) => Some(error),
                _ => None,
            },
            ..self
        }
    }
}

impl KomorebiGui {
    /// Take what compiling a pattern has given. The empty pattern is not compiled.
    pub fn pattern_compiled(
        &mut self,
        pattern: String,
        outcome: Option<Result<regex::Regex, String>>,
    )
        ensures
            final(self)@ == old(self)@.with_pattern(
                pattern@,
                match outcome {
                    Some(Ok(re)) => Some(Ok(text::matched_texts(re))),
                    Some(Err(error)) => Some(Err(error@)),
                    None => None,
                },
            ),
    {
        self.regex_pattern = pattern;
        match outcome {
            Some(Ok(re)) => {
                self.regex_compiled = Some(re);
                self.regex_error = None;
            },
            Some(Err(error)) => {
                self.regex_compiled = None;
                self.regex_error = Some(error);
            },
            None => {
                self.regex_compiled = None;
                self.regex_error = None;
            },
        }
    }

    /// Edit the pattern against which the windows are held.
    pub fn edit_pattern(&mut self, pattern: String)
        ensures
            pattern@.len() == 0 ==> final(self)@ == old(self)@.with_pattern(pattern@, None),
            pattern@.len() > 0 ==> {
                ||| final(self)@ == old(self)@.with_pattern(
                    pattern@,
                    Some(Ok(text::texts_of_pattern(pattern@))),
                )
                ||| exists|error: Seq<char>|
                    final(self)@ == #[trigger] old(self)@.with_pattern(
                        pattern@,
                        Some(Err(error)),
                    )
            },
    {
        if text::equal(pattern.as_str(), "") {
            proof {
                reveal_strlit("");
            }
            self.pattern_compiled(pattern, None);
        } else {
            proof {
                reveal_strlit("");
                if pattern@.len() == 0 {
                    assert(pattern@ =~= ""@);
                }
            }
            let outcome = text::compile(pattern.as_str());
            let ghost said = outcome;
            self.pattern_compiled(pattern, Some(outcome));
            proof {
                if let Err(error) = said {
                    assert(self@ == old(self)@.with_pattern(pattern@, Some(Err(error@))));
                }
            }
        }
    }

    /// The lines for the windows that match the pattern. Nothing is shown without a
    /// pattern that compiles.
    pub fn matching_windows(&self, windows: &Vec<WindowFacts>) -> (r: Vec<String>)
        ensures
            texts_of(r@) == (match self@.regex_texts {
                Some(texts) => match_lines(windows@, texts),
                None => Seq::empty(),
            }),
    {
        let mut lines: Vec<String> = Vec::new();
        match &self.regex_compiled {
            Some(re) => {
                let ghost texts = text::matched_texts(*re);
                let mut i: usize = 0;
                while i < windows.len()
                    invariant
                        i <= windows@.len(),
                        texts == text::matched_texts(*re),
                        texts_of(lines@) == match_lines(windows@.take(i as int), texts),
                    decreases windows@.len() - i,
                {
                    let ghost before = windows@.take(i as int);
                    let ghost so_far = lines@;
                    match line_for(re, &windows[i]) {
                        Some(line) => {
                            lines.push(line);
                            assert(texts_of(lines@) =~= texts_of(so_far).push(line@));
                        },
                        None => {},
                    }
                    i = i + 1;
                    assert(windows@.take(i as int).drop_last() =~= before);
                }
                assert(windows@.take(i as int) =~= windows@);
            },
            None => {
                assert(texts_of(lines@) =~= Seq::empty());
            },
        }
        lines
    }

    /// Whether a hint stands in the place of the matches.
    pub fn shows_hint(&self) -> (r: bool)
        ensures
            r == hint(self@),
    {
        proof {
            reveal_strlit("");
            if self.regex_pattern@.len() == 0 {
                assert(self.regex_pattern@ =~= ""@);
            }
        }
        self.regex_compiled.is_none() && text::equal(self.regex_pattern.as_str(), "")
    }

    /// Take the list of windows anew.
    pub fn refresh_debug_windows(&mut self, windows: &Vec<WindowFacts>)
        ensures
            final(self)@ == (GuiView { debug_windows: listed(windows@), ..old(self)@ }),
    {
        self.debug_windows = list_windows(windows);
    }

    /// Show how the chosen window fares against the rules.
    pub fn show_rules(&mut self, rule: RuleDebug)
        ensures
            final(self)@ == (GuiView { debug_rule: Some(rule@), ..old(self)@ }),
    {
        self.debug_rule = Some(rule);
    }
}

/// A pattern shows matches or an error, and never both.
pub proof fn patterns_match_or_fail(
    gui: GuiView,
    pattern: Seq<char>,
    outcome: Option<Result<Set<Seq<char>>, Seq<char>>>,
)
    ensures
        ({
            let edited = gui.with_pattern(pattern, outcome);
            &&& edited.regex_texts is Some <==> (outcome matches Some(Ok(_)))
            &&& edited.regex_error is Some <==> (outcome matches Some(Err(_)))
        }),
{
}

} // verus!
