//! Which wallpaper a monitor shows, and which colours follow from it.

use std::collections::HashMap;

use vstd::prelude::*;

use crate::text;

verus! {

/// Whether the colours of a theme are dark or light.
#[derive(Clone, Copy, Debug, PartialEq, Eq, Structural)]
pub enum ThemeVariant {
    Dark,
    Light,
}

/// One of the colours of a palette, by its number.
#[derive(Clone, Copy, Debug, PartialEq, Eq, Structural)]
pub struct Base16Value {
    pub index: u8,
}

/// The colours of a wallpaper, kept by what generates them under a handle.
#[derive(Clone, Copy, Debug, PartialEq, Eq, Structural)]
pub struct Palette {
    pub handle: u64,
}

/// Which colours of the palette of a wallpaper are used where.
#[derive(Clone, Copy, Debug, PartialEq, Eq, Structural)]
pub struct WallpaperTheme {
    pub theme_variant: Option<ThemeVariant>,
    pub single_border: Option<Base16Value>,
    pub stack_border: Option<Base16Value>,
    pub monocle_border: Option<Base16Value>,
    pub floating_border: Option<Base16Value>,
    pub pinned_border: Option<Base16Value>,
    pub unfocused_border: Option<Base16Value>,
    pub unfocused_locked_border: Option<Base16Value>,
    pub stackbar_focused_text: Option<Base16Value>,
    pub stackbar_unfocused_text: Option<Base16Value>,
    pub stackbar_background: Option<Base16Value>,
    pub bar_accent: Option<Base16Value>,
}

#[derive(Debug)]
pub struct Wallpaper {
    pub path: String,
    /// Whether colours follow from the wallpaper. They do where nothing is said.
    pub generate_theme: Option<bool>,
    pub theme_options: Option<WallpaperTheme>,
}

impl Clone for Wallpaper {
    fn clone(&self) -> (r: Self)
        ensures
            r == *self,
    {
        Wallpaper {
            path: self.path.clone(),
            generate_theme: self.generate_theme,
            theme_options: self.theme_options,
        }
    }
}

/// The wallpaper that a monitor is to show.
#[derive(Debug)]
pub struct WallpaperRequest {
    pub hmonitor: isize,
    pub wallpaper: Wallpaper,
}

/// The colours that follow from a wallpaper.
#[derive(Clone, Copy, Debug, PartialEq, Eq, Structural)]
pub struct CustomTheme {
    pub colours: Palette,
    pub single_border: Option<Base16Value>,
    pub stack_border: Option<Base16Value>,
    pub monocle_border: Option<Base16Value>,
    pub floating_border: Option<Base16Value>,
    pub pinned_border: Option<Base16Value>,
    pub unfocused_border: Option<Base16Value>,
    pub unfocused_locked_border: Option<Base16Value>,
    pub stackbar_focused_text: Option<Base16Value>,
    pub stackbar_unfocused_text: Option<Base16Value>,
    pub stackbar_background: Option<Base16Value>,
    pub bar_accent: Option<Base16Value>,
}

/// A theme without any colour chosen.
pub open spec fn unthemed(colours: Palette) -> CustomTheme {
    CustomTheme {
        colours,
        single_border: None,
        stack_border: None,
        monocle_border: None,
        floating_border: None,
        pinned_border: None,
        unfocused_border: None,
        unfocused_locked_border: None,
        stackbar_focused_text: None,
        stackbar_unfocused_text: None,
        stackbar_background: None,
        bar_accent: None,
    }
}

/// The theme of a palette with the colours that a wallpaper chooses.
pub open spec fn theme_of(options: Option<WallpaperTheme>, colours: Palette) -> CustomTheme {
    match options {
        Some(options) => CustomTheme {
            colours,
            single_border: options.single_border,
            stack_border: options.stack_border,
            monocle_border: options.monocle_border,
            floating_border: options.floating_border,
            pinned_border: options.pinned_border,
            unfocused_border: options.unfocused_border,
            unfocused_locked_border: options.unfocused_locked_border,
            stackbar_focused_text: options.stackbar_focused_text,
            stackbar_unfocused_text: options.stackbar_unfocused_text,
            stackbar_background: options.stackbar_background,
            bar_accent: options.bar_accent,
        },
        None => unthemed(colours),
    }
}

/// The theme of a wallpaper.
pub fn build_theme(wallpaper: &Wallpaper, palette: Palette) -> (r: CustomTheme)
    ensures
        r == theme_of(wallpaper.theme_options, palette),
{
    match wallpaper.theme_options {
        Some(options) => CustomTheme {
            colours: palette,
            single_border: options.single_border,
            stack_border: options.stack_border,
            monocle_border: options.monocle_border,
            floating_border: options.floating_border,
            pinned_border: options.pinned_border,
            unfocused_border: options.unfocused_border,
            unfocused_locked_border: options.unfocused_locked_border,
            stackbar_focused_text: options.stackbar_focused_text,
            stackbar_unfocused_text: options.stackbar_unfocused_text,
            stackbar_background: options.stackbar_background,
            bar_accent: options.bar_accent,
        },
        None => CustomTheme {
            colours: palette,
            single_border: None,
            stack_border: None,
            monocle_border: None,
            floating_border: None,
            pinned_border: None,
            unfocused_border: None,
            unfocused_locked_border: None,
            stackbar_focused_text: None,
            stackbar_unfocused_text: None,
            stackbar_background: None,
            bar_accent: None,
        },
    }
}

/// The variant of the theme of a wallpaper, dark where nothing is said.
pub open spec fn variant_of(wallpaper: Wallpaper) -> ThemeVariant {
    match wallpaper.theme_options {
        Some(options) => match options.theme_variant {
            Some(variant) => variant,
            None => ThemeVariant::Dark,
        },
        None => ThemeVariant::Dark,
    }
}

pub fn theme_variant(wallpaper: &Wallpaper) -> (r: ThemeVariant)
    ensures
        r == variant_of(*wallpaper),
{
    match wallpaper.theme_options {
        Some(options) => match options.theme_variant {
            Some(variant) => variant,
            None => ThemeVariant::Dark,
        },
        None => ThemeVariant::Dark,
    }
}

/// The name of the file in which the palette of a wallpaper is kept: the name of the
/// wallpaper's file, or `tmp` where it has none, and the variant.
pub fn palette_cache_path(file_name: Option<&str>, variant: ThemeVariant) -> (r: String)
    ensures
        r@ == (match file_name {
            Some(name) => name@,
            None => "tmp"@,
        }) + ".base16."@ + (match variant {
            ThemeVariant::Dark => "dark"@,
            ThemeVariant::Light => "light"@,
        }) + ".json"@,
{
    let mut path: String = match file_name {
        Some(name) => name.to_owned(),
        None => "tmp".to_owned(),
    };
    path.append(".base16.");
    match variant {
        ThemeVariant::Dark => {
            path.append("dark");
        },
        ThemeVariant::Light => {
            path.append("light");
        },
    }
    path.append(".json");
    path
}

impl Wallpaper {
    /// Whether two wallpapers are the same, with the same colours.
    pub open spec fn same_as(self, other: Wallpaper) -> bool {
        &&& self.path@ == other.path@
        &&& self.generate_theme == other.generate_theme
        &&& self.theme_options == other.theme_options
    }

    pub fn is_same(&self, other: &Wallpaper) -> (r: bool)
        ensures
            r == self.same_as(*other),
    {
        let same_generation = match (self.generate_theme, other.generate_theme) {
            (Some(a), Some(b)) => a == b,
            (None, None) => true,
            _ => false,
        };
        let same_options = match (self.theme_options, other.theme_options) {
            (Some(a), Some(b)) => same_theme(a, b),
            (None, None) => true,
            _ => false,
        };
        same_generation && same_options && text::equal(self.path.as_str(), other.path.as_str())
    }

    /// Whether colours follow from the wallpaper.
    pub open spec fn generates(self) -> bool {
        self.generate_theme != Some(false)
    }
}

fn same_colour(a: Option<Base16Value>, b: Option<Base16Value>) -> (r: bool)
    ensures
        r == (a == b),
{
    match (a, b) {
        (Some(a), Some(b)) => a == b,
        (None, None) => true,
        _ => false,
    }
}

fn same_theme(a: WallpaperTheme, b: WallpaperTheme) -> (r: bool)
    ensures
        r == (a == b),
{
    let same_variant = match (a.theme_variant, b.theme_variant) {
        (Some(a), Some(b)) => a == b,
        (None, None) => true,
        _ => false,
    };
    same_variant && same_colour(a.single_border, b.single_border) && same_colour(
        a.stack_border,
        b.stack_border,
    ) && same_colour(a.monocle_border, b.monocle_border) && same_colour(
        a.floating_border,
        b.floating_border,
    ) && same_colour(a.pinned_border, b.pinned_border) && same_colour(
        a.unfocused_border,
        b.unfocused_border,
    ) && same_colour(a.unfocused_locked_border, b.unfocused_locked_border) && same_colour(
        a.stackbar_focused_text,
        b.stackbar_focused_text,
    ) && same_colour(a.stackbar_unfocused_text, b.stackbar_unfocused_text) && same_colour(
        a.stackbar_background,
        b.stackbar_background,
    ) && same_colour(a.bar_accent, b.bar_accent)
}

/// The wallpaper that each monitor was asked last to show.
pub open spec fn latest(requests: Seq<WallpaperRequest>) -> Map<isize, Wallpaper>
    decreases requests.len(),
{
    if requests.len() == 0 {
        Map::empty()
    } else {
        latest(requests.drop_last()).insert(requests.last().hmonitor, requests.last().wallpaper)
    }
}

/// Fold requests into the last one of each monitor.
pub fn coalesce(requests: &Vec<WallpaperRequest>) -> (r: HashMap<isize, Wallpaper>)
    ensures
        r@ == latest(requests@),
{
    broadcast use vstd::std_specs::hash::group_hash_axioms;

    let mut batch: HashMap<isize, Wallpaper> = HashMap::new();
    let mut i: usize = 0;
    assert(requests@.take(0) =~= Seq::empty());
    while i < requests.len()
        invariant
            i <= requests@.len(),
            batch@ == latest(requests@.take(i as int)),
        decreases requests@.len() - i,
    {
        assert(requests@.take(i + 1).drop_last() =~= requests@.take(i as int));
        let _ = batch.insert(requests[i].hmonitor, requests[i].wallpaper.clone());
        i = i + 1;
    }
    assert(requests@.take(i as int) =~= requests@);
    batch
}

/// What has been applied: the path of the wallpaper that each monitor shows, and the
/// wallpaper from which the colours were taken last.
pub struct WallpaperWorker {
    pub applied: HashMap<isize, String>,
    pub last_themed: Option<Wallpaper>,
}

/// What has been applied, for contracts.
#[verifier::ext_equal]
pub struct WallpaperWorkerView {
    pub applied: Map<isize, String>,
    pub last_themed: Option<Wallpaper>,
}

impl View for WallpaperWorker {
    type V = WallpaperWorkerView;

    open spec fn view(&self) -> WallpaperWorkerView {
        WallpaperWorkerView { applied: self.applied@, last_themed: self.last_themed }
    }
}

/// A wallpaper on its way to a monitor.
#[derive(Debug)]
pub struct WallpaperTask {
    pub hmonitor: isize,
    pub wallpaper: Wallpaper,
    /// The canonical path of the wallpaper, where it has one.
    pub canonical: Option<String>,
}

/// What has happened to a wallpaper on its way to a monitor.
#[derive(Debug)]
pub enum WallpaperEvent {
    /// It is its turn.
    Begun,
    /// The canonical path of what the monitor shows was looked for.
    Found(Option<String>),
    /// The monitor was given the wallpaper, which it took or not.
    Shown(bool),
    /// The colours of the wallpaper were looked for.
    Painted(Option<Palette>),
}

/// What is to be done next for a wallpaper.
#[derive(Clone, Copy, Debug, PartialEq, Eq, Structural)]
pub enum WallpaperAction {
    /// Find out what the monitor shows.
    Look,
    /// Give the wallpaper to the monitor.
    Show,
    /// Get the colours of the wallpaper.
    Paint(ThemeVariant),
    /// Apply the theme. Nothing is left to do then.
    Theme(CustomTheme),
    /// Nothing is left to do.
    Finish,
}

impl WallpaperTask {
    /// The path by which the wallpaper is known: the canonical one, or that as it is
    /// written where there is none.
    pub open spec fn known_path(self) -> Seq<char> {
        match self.canonical {
            Some(canonical) => canonical@,
            None => self.wallpaper.path@,
        }
    }
}

impl WallpaperWorkerView {
    /// Whether a monitor shows another wallpaper than one at a path, as far as is known.
    pub open spec fn differs(self, hmonitor: isize, path: Seq<char>) -> bool {
        !(self.applied.contains_key(hmonitor) && self.applied[hmonitor]@ == path)
    }

    /// The worker once a monitor shows the wallpaper at a path, where there is one.
    pub open spec fn showing(self, hmonitor: isize, path: Option<String>) -> WallpaperWorkerView {
        match path {
            Some(path) => WallpaperWorkerView {
                applied: self.applied.insert(hmonitor, path),
                ..self
            },
            None => self,
        }
    }

    /// Whether colours are taken from a wallpaper: where they follow from it, and it has
    /// changed or is not the one from which they were taken last.
    pub open spec fn themes(self, wallpaper: Wallpaper, changed: bool) -> bool {
        wallpaper.generates() && (changed || !(self.last_themed matches Some(last)
            && last.same_as(wallpaper)))
    }

    /// What comes once the wallpaper is shown, as far as that was possible.
    pub open spec fn painting(self, task: WallpaperTask, changed: bool) -> WallpaperAction {
        if self.themes(task.wallpaper, changed) {
            WallpaperAction::Paint(variant_of(task.wallpaper))
        } else {
            WallpaperAction::Finish
        }
    }

    /// What comes once it is known what the monitor shows, as far as that was possible.
    pub open spec fn showing_next(self, task: WallpaperTask) -> WallpaperAction {
        if self.differs(task.hmonitor, task.known_path()) {
            WallpaperAction::Show
        } else {
            self.painting(task, false)
        }
    }

    /// The worker once something has happened to a wallpaper. A wallpaper is noted once it
    /// is shown, and once its colours are taken.
    pub open spec fn noting(self, task: WallpaperTask, event: WallpaperEvent) -> WallpaperWorkerView {
        match event {
            WallpaperEvent::Begun => self,
            WallpaperEvent::Found(current) => self.showing(task.hmonitor, current),
            WallpaperEvent::Shown(shown) => if shown {
                self.showing(task.hmonitor, task.canonical)
            } else {
                self
            },
            WallpaperEvent::Painted(palette) => if palette is Some {
                WallpaperWorkerView { last_themed: Some(task.wallpaper), ..self }
            } else {
                self
            },
        }
    }

    /// What is to be done next for a wallpaper, once something has happened to it and has
    /// been noted.
    pub open spec fn next_action(self, task: WallpaperTask, event: WallpaperEvent) -> WallpaperAction {
        match event {
            WallpaperEvent::Begun => if self.applied.contains_key(task.hmonitor) {
                self.showing_next(task)
            } else {
                WallpaperAction::Look
            },
            WallpaperEvent::Found(_) => self.showing_next(task),
            WallpaperEvent::Shown(_) => self.painting(task, true),
            WallpaperEvent::Painted(palette) => match palette {
                Some(palette) => WallpaperAction::Theme(
                    theme_of(task.wallpaper.theme_options, palette),
                ),
                None => WallpaperAction::Finish,
            },
        }
    }
}

impl WallpaperWorker {
    pub fn new() -> (r: Self)
        ensures
            r@ == (WallpaperWorkerView { applied: Map::empty(), last_themed: None }),
    {
        broadcast use vstd::std_specs::hash::group_hash_axioms;

        WallpaperWorker { applied: HashMap::new(), last_themed: None }
    }

    /// Add a request after those that wait.
    pub fn enqueue(requests: &mut Vec<WallpaperRequest>, request: WallpaperRequest)
        ensures
            final(requests)@ == old(requests)@.push(request),
            latest(final(requests)@) == latest(old(requests)@).insert(
                request.hmonitor,
                request.wallpaper,
            ),
    {
        requests.push(request);
        assert(requests@.drop_last() =~= old(requests)@);
    }

    /// Note what has happened to a wallpaper on its way to a monitor, and decide what is to
    /// be done next for it.
    ///
    /// A monitor is asked for what it shows where that is not known yet. It is given the
    /// wallpaper where it shows another one. Colours are taken from a wallpaper that was
    /// given to a monitor, or from which none were taken last.
    pub fn apply(&mut self, task: &WallpaperTask, event: WallpaperEvent) -> (r: WallpaperAction)
        ensures
            final(self)@ == old(self)@.noting(*task, event),
            r == final(self)@.next_action(*task, event),
    {
        broadcast use vstd::std_specs::hash::group_hash_axioms;

        match event {
            WallpaperEvent::Begun => if self.applied.contains_key(&task.hmonitor) {
                self.after_looking(task)
            } else {
                WallpaperAction::Look
            },
            WallpaperEvent::Found(current) => {
                match current {
                    Some(current) => {
                        let _ = self.applied.insert(task.hmonitor, current);
                    },
                    None => {},
                }
                self.after_looking(task)
            },
            WallpaperEvent::Shown(shown) => {
                if shown {
                    match &task.canonical {
                        Some(canonical) => {
                            let _ = self.applied.insert(task.hmonitor, canonical.clone());
                        },
                        None => {},
                    }
                }
                self.after_showing(task, true)
            },
            WallpaperEvent::Painted(palette) => match palette {
                Some(palette) => {
                    let theme = build_theme(&task.wallpaper, palette);
                    self.last_themed = Some(task.wallpaper.clone());
                    WallpaperAction::Theme(theme)
                },
                None => WallpaperAction::Finish,
            },
        }
    }

    fn after_looking(&self, task: &WallpaperTask) -> (r: WallpaperAction)
        ensures
            r == self@.showing_next(*task),
    {
        broadcast use vstd::std_specs::hash::group_hash_axioms;

        let path = match &task.canonical {
            Some(canonical) => canonical.as_str(),
            None => task.wallpaper.path.as_str(),
        };
        let shows = match self.applied.get(&task.hmonitor) {
            Some(applied) => text::equal(applied.as_str(), path),
            None => false,
        };
        if shows {
            self.after_showing(task, false)
        } else {
            WallpaperAction::Show
        }
    }

    fn after_showing(&self, task: &WallpaperTask, changed: bool) -> (r: WallpaperAction)
        ensures
            r == self@.painting(*task, changed),
    {
        let generates = match task.wallpaper.generate_theme {
            Some(generate) => generate,
            None => true,
        };
        let themed = match &self.last_themed {
            Some(last) => last.is_same(&task.wallpaper),
            None => false,
        };
        if generates && (changed || !themed) {
            WallpaperAction::Paint(theme_variant(&task.wallpaper))
        } else {
            WallpaperAction::Finish
        }
    }
}

/// Of requests for the same monitor the last one counts.
pub proof fn the_last_request_wins(requests: Seq<WallpaperRequest>, request: WallpaperRequest)
    ensures
        latest(requests.push(request)).contains_key(request.hmonitor),
        latest(requests.push(request))[request.hmonitor] == request.wallpaper,
        forall|other: isize|
            other != request.hmonitor && latest(requests).contains_key(other) ==> #[trigger] latest(
                requests.push(request),
            )[other] == latest(requests)[other],
{
    assert(requests.push(request).drop_last() =~= requests);
}

/// A wallpaper that a monitor has taken, or was found to show, is not given to it again.
/// One from which the colours were taken last gives none again while it stays. One that
/// the monitor did not take is given to it again.
pub proof fn shown_wallpapers_are_not_applied_again(
    worker: WallpaperWorkerView,
    task: WallpaperTask,
    palette: Palette,
)
    ensures
        task.canonical is Some ==> ({
            let shown = worker.noting(task, WallpaperEvent::Shown(true));
            let found = worker.noting(task, WallpaperEvent::Found(task.canonical));
            let painted = shown.noting(task, WallpaperEvent::Painted(Some(palette)));
            &&& shown.next_action(task, WallpaperEvent::Begun) != WallpaperAction::Show
            &&& found.next_action(task, WallpaperEvent::Found(task.canonical))
                != WallpaperAction::Show
            &&& painted.next_action(task, WallpaperEvent::Begun) == WallpaperAction::Finish
        }),
        ({
            let refused = worker.noting(task, WallpaperEvent::Shown(false));
            refused == worker && (worker.applied.contains_key(task.hmonitor) && worker.differs(
                task.hmonitor,
                task.known_path(),
            ) ==> refused.next_action(task, WallpaperEvent::Begun) == WallpaperAction::Show)
        }),
{
}

} // verus!
