//! Windows: what they look like, and what can be done with them.

use vstd::prelude::*;

use crate::animation::settings::AnimationPrefix;
use crate::animation::settings::AnimationSettings;
use crate::desktop::Desktop;
use crate::desktop::DesktopView;
use crate::desktop::WindowFacts;
use crate::error::Error;
use crate::geometry::Rect;
use crate::plan::Call;
use crate::plan::Plan;
use crate::plan::StepView;
use crate::styles;
use crate::styles::ExtendedWindowStyle;
use crate::styles::WindowStyle;
use crate::text;

verus! {

/// A window, by its handle.
#[derive(Clone, Copy, Debug, PartialEq, Eq, Structural)]
pub struct Window {
    pub hwnd: isize,
}

impl View for Window {
    type V = Window;

    open spec fn view(&self) -> Window {
        *self
    }
}

impl From<isize> for Window {
    fn from(value: isize) -> (r: Self) {
        Window { hwnd: value }
    }
}

impl vstd::std_specs::convert::FromSpecImpl<isize> for Window {
    open spec fn obeys_from_spec() -> bool {
        true
    }

    open spec fn from_spec(value: isize) -> Self {
        Window { hwnd: value }
    }
}

impl Default for Window {
    fn default() -> (r: Self)
        ensures
            r.hwnd == 0,
    {
        Window { hwnd: 0 }
    }
}

/// The texts by which a window is shown to a user.
#[derive(Debug)]
pub struct WindowDetails {
    pub title: String,
    pub exe: String,
    pub class: String,
}

impl WindowDetails {
    /// The details of a window, where the window system gives all three.
    pub fn try_from(value: Window, desktop: &Desktop) -> (r: Result<Self, Error>)
        ensures
            ({
                let facts = desktop@.at(value.hwnd);
                match r {
                    Ok(details) => facts.title == Some(details.title) && facts.exe == Some(
                        details.exe,
                    ) && facts.class == Some(details.class),
                    Err(error) => error == Error::WindowSystem && (facts.title is None
                        || facts.exe is None || facts.class is None),
                }
            }),
    {
        match (value.title(desktop), value.exe(desktop), value.class(desktop)) {
            (Ok(title), Ok(exe), Ok(class)) => Ok(WindowDetails { title, exe, class }),
            _ => Err(Error::WindowSystem),
        }
    }
}

/// Aspect ratio for temporarily floating windows.
#[derive(Clone, Copy, Debug, PartialEq, Eq, Structural)]
pub enum AspectRatio {
    Predefined(PredefinedAspectRatio),
    /// Width and height.
    Custom(i32, i32),
}

#[derive(Clone, Copy, Debug, PartialEq, Eq, Structural)]
pub enum PredefinedAspectRatio {
    /// 21:9
    Ultrawide,
    /// 16:9
    Widescreen,
    /// 4:3
    Standard,
}

impl Default for PredefinedAspectRatio {
    fn default() -> (r: Self)
        ensures
            r == PredefinedAspectRatio::Standard,
    {
        PredefinedAspectRatio::Standard
    }
}

impl Default for AspectRatio {
    fn default() -> (r: Self)
        ensures
            r == AspectRatio::Predefined(PredefinedAspectRatio::Standard),
    {
        AspectRatio::Predefined(PredefinedAspectRatio::Standard)
    }
}

impl AspectRatio {
    pub open spec fn ratio(self) -> (i32, i32) {
        match self {
            AspectRatio::Predefined(PredefinedAspectRatio::Ultrawide) => (21, 9),
            AspectRatio::Predefined(PredefinedAspectRatio::Widescreen) => (16, 9),
            AspectRatio::Predefined(PredefinedAspectRatio::Standard) => (4, 3),
            AspectRatio::Custom(width, height) => (width, height),
        }
    }

    pub fn width_and_height(self) -> (r: (i32, i32))
        ensures
            r == self.ratio(),
    {
        match self {
            AspectRatio::Predefined(predefined) => match predefined {
                PredefinedAspectRatio::Ultrawide => (21, 9),
                PredefinedAspectRatio::Widescreen => (16, 9),
                PredefinedAspectRatio::Standard => (4, 3),
            },
            AspectRatio::Custom(width, height) => (width, height),
        }
    }
}

/// How far, in pixels, an edge may miss the edge of a monitor that it covers.
pub const FULLSCREEN_EDGE_TOLERANCE: i32 = 8;

/// How far, in pixels, an edge may miss the edge of a work area that it covers.
pub const FULLSCREEN_WORK_AREA_EDGE_TOLERANCE: i32 = 8;

/// Whether `window` reaches every edge of `target`, up to `tolerance`. Both rectangles
/// are in absolute screen coordinates.
pub open spec fn covers_edges(window: Rect, target: Rect, tolerance: int) -> bool {
    &&& window.left <= target.left + tolerance
    &&& window.top <= target.top + tolerance
    &&& window.right >= target.right - tolerance
    &&& window.bottom >= target.bottom - tolerance
}

pub fn rect_covers_monitor_rect(window_rect: &Rect, monitor_rect: &Rect, tolerance: i32) -> (r:
    bool)
    ensures
        r == covers_edges(*window_rect, *monitor_rect, tolerance as int),
{
    let tolerance: i64 = tolerance as i64;
    window_rect.left as i64 <= monitor_rect.left as i64 + tolerance && window_rect.top as i64
        <= monitor_rect.top as i64 + tolerance && window_rect.right as i64
        >= monitor_rect.right as i64 - tolerance && window_rect.bottom as i64
        >= monitor_rect.bottom as i64 - tolerance
}

/// The length of the part that two intervals share.
pub open spec fn overlap(a_from: int, a_to: int, b_from: int, b_to: int) -> int {
    let from = if a_from > b_from {
        a_from
    } else {
        b_from
    };
    let to = if a_to < b_to {
        a_to
    } else {
        b_to
    };
    if to > from {
        to - from
    } else {
        0
    }
}

/// The length of an interval, at least one.
pub open spec fn extent(from: int, to: int) -> int {
    if to - from > 1 {
        to - from
    } else {
        1
    }
}

fn overlap_length(a_from: i32, a_to: i32, b_from: i32, b_to: i32) -> (r: u64)
    ensures
        r == overlap(a_from as int, a_to as int, b_from as int, b_to as int),
        r <= 0xffff_ffff,
{
    let from: i64 = if a_from > b_from {
        a_from as i64
    } else {
        b_from as i64
    };
    let to: i64 = if a_to < b_to {
        a_to as i64
    } else {
        b_to as i64
    };
    if to > from {
        (to - from) as u64
    } else {
        0
    }
}

fn extent_length(from: i32, to: i32) -> (r: u64)
    ensures
        r == extent(from as int, to as int),
        1 <= r <= 0xffff_ffff,
{
    let length: i64 = to as i64 - from as i64;
    if length > 1 {
        length as u64
    } else {
        1
    }
}

/// The area of `target` that `window` covers, and the whole area of `target`.
pub fn covered_and_total_area(window_rect: &Rect, target_rect: &Rect) -> (r: (u64, u64))
    ensures
        r.0 == overlap(
            window_rect.left as int,
            window_rect.right as int,
            target_rect.left as int,
            target_rect.right as int,
        ) * overlap(
            window_rect.top as int,
            window_rect.bottom as int,
            target_rect.top as int,
            target_rect.bottom as int,
        ),
        r.1 == extent(target_rect.left as int, target_rect.right as int) * extent(
            target_rect.top as int,
            target_rect.bottom as int,
        ),
        r.1 >= 1,
{
    let width: u64 = overlap_length(
        window_rect.left,
        window_rect.right,
        target_rect.left,
        target_rect.right,
    );
    let height: u64 = overlap_length(
        window_rect.top,
        window_rect.bottom,
        target_rect.top,
        target_rect.bottom,
    );
    let total_width: u64 = extent_length(target_rect.left, target_rect.right);
    let total_height: u64 = extent_length(target_rect.top, target_rect.bottom);
    assert(0 <= width * height <= 0xffff_ffff * 0xffff_ffff) by (nonlinear_arith)
        requires
            0 <= width <= 0xffff_ffff,
            0 <= height <= 0xffff_ffff,
    ;
    assert(1 <= total_width * total_height <= 0xffff_ffff * 0xffff_ffff) by (nonlinear_arith)
        requires
            1 <= total_width <= 0xffff_ffff,
            1 <= total_height <= 0xffff_ffff,
    ;
    (width * height, total_width * total_height)
}

/// Whether `window` covers `target`: it reaches every edge up to `tolerance`, or it
/// covers enough of the area.
pub fn rect_covers_target_rect(
    window_rect: &Rect,
    target_rect: &Rect,
    tolerance: i32,
    covers_enough_area: bool,
) -> (r: bool)
    ensures
        r == (covers_edges(*window_rect, *target_rect, tolerance as int) || covers_enough_area),
{
    rect_covers_monitor_rect(window_rect, target_rect, tolerance) || covers_enough_area
}

/// How far floating windows stay from the edges of the work area.
pub const FLOATING_WINDOW_RESIZE_MARGIN: i32 = 10;

/// The margin that is kept on both sides of a window of length `size` in an area of
/// length `available`.
pub open spec fn safe_margin(available: int, size: int) -> int {
    if size < available {
        let half = (available - size) / 2;
        if half < FLOATING_WINDOW_RESIZE_MARGIN {
            half
        } else {
            FLOATING_WINDOW_RESIZE_MARGIN as int
        }
    } else {
        0
    }
}

fn margin(available: i32, size: i32) -> (r: i32)
    ensures
        r == safe_margin(available as int, size as int),
        0 <= r <= FLOATING_WINDOW_RESIZE_MARGIN,
        size < available ==> available - 2 * r >= size,
{
    if size < available {
        let half: u64 = ((available as i64 - size as i64) as u64) / 2;
        if half < 10 {
            half as i32
        } else {
            10
        }
    } else {
        0
    }
}

/// Division that rounds towards zero.
pub open spec fn quotient(a: int, b: int) -> int {
    if a < 0 && b < 0 {
        (-a) / (-b)
    } else if a < 0 {
        -((-a) / b)
    } else if b < 0 {
        -(a / (-b))
    } else {
        a / b
    }
}

fn divide(a: i64, b: i64) -> (r: i64)
    requires
        b != 0,
        -0x4000_0000_0000_0000 <= a <= 0x4000_0000_0000_0000,
        -0x4000_0000_0000_0000 <= b <= 0x4000_0000_0000_0000,
    ensures
        r == quotient(a as int, b as int),
        -0x4000_0000_0000_0000 <= r <= 0x4000_0000_0000_0000,
{
    let n: u64 = if a < 0 {
        (-a) as u64
    } else {
        a as u64
    };
    let m: u64 = if b < 0 {
        (-b) as u64
    } else {
        b as u64
    };
    let q: u64 = n / m;
    assert(q <= n) by (nonlinear_arith)
        requires
            q == n / m,
            m >= 1,
    ;
    if (a < 0) != (b < 0) {
        -(q as i64)
    } else {
        q as i64
    }
}

/// The rectangle with the given numbers, where they fit.
pub open spec fn rect_of(left: int, top: int, right: int, bottom: int) -> Option<Rect> {
    if i32::MIN <= left <= i32::MAX && i32::MIN <= top <= i32::MAX && i32::MIN <= right <= i32::MAX
        && i32::MIN <= bottom <= i32::MAX {
        Some(
            Rect {
                left: left as i32,
                top: top as i32,
                right: right as i32,
                bottom: bottom as i32,
            },
        )
    } else {
        None
    }
}

fn make_rect(left: i64, top: i64, right: i64, bottom: i64) -> (r: Option<Rect>)
    ensures
        r == rect_of(left as int, top as int, right as int, bottom as int),
{
    let low: i64 = i32::MIN as i64;
    let high: i64 = i32::MAX as i64;
    if low <= left && left <= high && low <= top && top <= high && low <= right && right <= high
        && low <= bottom && bottom <= high {
        Some(
            Rect {
                left: left as i32,
                top: top as i32,
                right: right as i32,
                bottom: bottom as i32,
            },
        )
    } else {
        None
    }
}

/// What of a work area is left once the margins around a window of the given size are
/// taken off.
pub open spec fn safe_area(work_area: Rect, width: int, height: int) -> Option<Rect> {
    let horizontal = safe_margin(work_area.right as int, width);
    let vertical = safe_margin(work_area.bottom as int, height);
    rect_of(
        work_area.left + horizontal,
        work_area.top + vertical,
        work_area.right - 2 * horizontal,
        work_area.bottom - 2 * vertical,
    )
}

/// The width and the height that a window gets when it is centred.
pub open spec fn centred_size(
    work_area: Rect,
    resize: bool,
    aspect_ratio: AspectRatio,
    current: Option<Rect>,
) -> Option<(int, int)> {
    if resize {
        let height = quotient(work_area.bottom as int, 2);
        Some(
            (
                quotient(height * aspect_ratio.ratio().0, aspect_ratio.ratio().1 as int),
                height,
            ),
        )
    } else {
        match current {
            Some(rect) => Some((rect.right as int, rect.bottom as int)),
            None => None,
        }
    }
}

/// The rectangle of a window of the given size in the middle of a work area.
pub open spec fn centred(work_area: Rect, width: int, height: int) -> Option<Rect> {
    if !(i32::MIN <= width <= i32::MAX && i32::MIN <= height <= i32::MAX) {
        None
    } else {
        match safe_area(work_area, width, height) {
            Some(area) => rect_of(
                area.left + quotient(area.right - width, 2),
                area.top + quotient(area.bottom - height, 2),
                width,
                height,
            ),
            None => None,
        }
    }
}

/// How windows are hidden when their workspace is not shown.
#[derive(Clone, Copy, Debug, PartialEq, Eq, Structural)]
pub enum HidingBehaviour {
    Hide,
    Minimize,
    Cloak,
}

/// The windows that the window manager itself has hidden, and how it hides them.
#[derive(Debug)]
pub struct Hiding {
    pub hidden_hwnds: Vec<isize>,
    pub behaviour: HidingBehaviour,
}

/// The hidden windows, for contracts.
pub struct HidingView {
    pub hidden: Seq<isize>,
    pub behaviour: HidingBehaviour,
}

impl View for Hiding {
    type V = HidingView;

    open spec fn view(&self) -> HidingView {
        HidingView { hidden: self.hidden_hwnds@, behaviour: self.behaviour }
    }
}

impl HidingView {
    /// Remember that a window is hidden.
    pub open spec fn with(self, hwnd: isize) -> HidingView {
        if self.hidden.contains(hwnd) {
            self
        } else {
            HidingView { hidden: self.hidden.push(hwnd), ..self }
        }
    }

    /// Forget that a window is hidden.
    pub open spec fn without(self, hwnd: isize) -> HidingView {
        HidingView { hidden: self.hidden.remove_value(hwnd), ..self }
    }

    /// The calls that hide a window, and its border where that is asked for.
    pub open spec fn hide_steps(self, hwnd: isize, hide_border: bool) -> Seq<StepView> {
        let call = match self.behaviour {
            HidingBehaviour::Hide => Call::HideWindow(hwnd),
            HidingBehaviour::Minimize => Call::MinimizeWindow(hwnd),
            HidingBehaviour::Cloak => Call::CloakWindow(hwnd),
        };
        if hide_border {
            seq![StepView::Do(call), StepView::Do(Call::HideBorder(hwnd))]
        } else {
            seq![StepView::Do(call)]
        }
    }

    /// The calls that show a window again, and its border where that is asked for.
    pub open spec fn restore_steps(self, hwnd: isize, restore_border: bool) -> Seq<StepView> {
        let call = match self.behaviour {
            HidingBehaviour::Hide | HidingBehaviour::Minimize => Call::RestoreWindowSync(hwnd),
            HidingBehaviour::Cloak => Call::UncloakWindow(hwnd),
        };
        if restore_border {
            seq![StepView::Do(call), StepView::Do(Call::ShowBorder(hwnd))]
        } else {
            seq![StepView::Do(call)]
        }
    }
}

/// What is on the screen: the windows that are hidden, what the window system answers,
/// and what it has been asked to do.
pub struct Screen {
    pub hiding: Hiding,
    pub desktop: Desktop,
    pub plan: Plan,
}

/// What is on the screen, for contracts.
pub struct ScreenView {
    pub hiding: HidingView,
    pub desktop: DesktopView,
    pub steps: Seq<StepView>,
}

impl View for Screen {
    type V = ScreenView;

    open spec fn view(&self) -> ScreenView {
        ScreenView { hiding: self.hiding@, desktop: self.desktop@, steps: self.plan@ }
    }
}

impl ScreenView {
    /// Take some more steps.
    pub open spec fn followed_by(self, steps: Seq<StepView>) -> ScreenView {
        ScreenView { steps: self.steps + steps, ..self }
    }

    /// Take one more step.
    pub open spec fn taking(self, step: StepView) -> ScreenView {
        ScreenView { steps: self.steps.push(step), ..self }
    }

    /// Hide a window and its border.
    pub open spec fn hiding_window(self, window: Window) -> ScreenView {
        ScreenView {
            hiding: self.hiding.with(window.hwnd),
            desktop: self.desktop.with_shown(window.hwnd, false),
            steps: self.steps + self.hiding.hide_steps(window.hwnd, true),
        }
    }

    /// Show a window and its border again.
    pub open spec fn showing(self, window: Window) -> ScreenView {
        ScreenView {
            hiding: self.hiding.without(window.hwnd),
            desktop: self.desktop.with_shown(window.hwnd, true),
            steps: self.steps + self.hiding.restore_steps(window.hwnd, true),
        }
    }

    /// Show some windows again, in order.
    pub open spec fn showing_all(self, windows: Seq<Window>) -> ScreenView
        decreases windows.len(),
    {
        if windows.len() == 0 {
            self
        } else {
            self.showing_all(windows.drop_last()).showing(windows.last())
        }
    }
}

/// The position of the first occurrence of a handle.
pub fn position_of(hwnds: &Vec<isize>, hwnd: isize) -> (r: Option<usize>)
    ensures
        match r {
            Some(i) => i < hwnds@.len() && hwnds@[i as int] == hwnd && forall|k: int|
                0 <= k < i ==> hwnds@[k] != hwnd,
            None => !hwnds@.contains(hwnd),
        },
        r is Some == hwnds@.contains(hwnd),
{
    let mut i: usize = 0;
    while i < hwnds.len()
        invariant
            i <= hwnds@.len(),
            forall|k: int| 0 <= k < i ==> hwnds@[k] != hwnd,
        decreases hwnds@.len() - i,
    {
        if hwnds[i] == hwnd {
            return Some(i);
        }
        i = i + 1;
    }
    None
}

impl Hiding {
    pub fn is_hidden(&self, hwnd: isize) -> (r: bool)
        ensures
            r == self@.hidden.contains(hwnd),
    {
        position_of(&self.hidden_hwnds, hwnd).is_some()
    }

    fn add(&mut self, hwnd: isize)
        ensures
            final(self)@ == old(self)@.with(hwnd),
    {
        if !self.is_hidden(hwnd) {
            self.hidden_hwnds.push(hwnd);
        }
    }

    fn forget(&mut self, hwnd: isize)
        ensures
            final(self)@ == old(self)@.without(hwnd),
    {
        proof {
            self.hidden_hwnds@.index_of_first_ensures(hwnd);
        }
        match position_of(&self.hidden_hwnds, hwnd) {
            Some(i) => {
                let _ = self.hidden_hwnds.remove(i);
            },
            None => {},
        }
    }
}

/// The style bits, where the window system's number is one.
pub open spec fn style_bits(raw: Option<isize>) -> Option<u32> {
    match raw {
        Some(bits) => if 0 <= bits <= u32::MAX {
            Some(bits as u32)
        } else {
            None
        },
        None => None,
    }
}

/// The styles among the bits that the window system knows of a window.
pub open spec fn window_style(raw: Option<isize>) -> Option<u32> {
    match style_bits(raw) {
        Some(bits) => Some(bits & styles::WINDOW_STYLES),
        None => None,
    }
}

/// The extended styles among the bits that the window system knows of a window.
pub open spec fn extended_style(raw: Option<isize>) -> Option<u32> {
    match style_bits(raw) {
        Some(bits) => Some(bits & styles::EXTENDED_WINDOW_STYLES),
        None => None,
    }
}

/// Why the styles of a window are not known.
pub open spec fn style_error(raw: Option<isize>) -> Error {
    if raw is Some {
        Error::OutOfRange
    } else {
        Error::WindowSystem
    }
}

fn bits_of(raw: Option<isize>) -> (r: Result<u32, Error>)
    ensures
        match r {
            Ok(bits) => style_bits(raw) == Some(bits),
            Err(error) => style_bits(raw) is None && error == style_error(raw),
        },
{
    match raw {
        Some(bits) => {
            let wide: i64 = bits as i64;
            if 0 <= wide && wide <= 0xffff_ffff {
                Ok(bits as u32)
            } else {
                Err(Error::OutOfRange)
            }
        },
        None => Err(Error::WindowSystem),
    }
}

/// Whether style bits fit the number that the window system takes.
pub open spec fn style_fits(bits: u32) -> bool {
    bits <= isize::MAX
}

/// A call on a window, followed by the same call on the window's border.
pub open spec fn with_border(call: spec_fn(isize) -> Call, hwnd: isize, d: DesktopView) -> Seq<
    StepView,
> {
    match d.at(hwnd).border {
        Some(border) => seq![StepView::Do(call(hwnd)), StepView::Do(call(border))],
        None => seq![StepView::Do(call(hwnd))],
    }
}

/// A regular application window: a caption and a window edge, and neither a dialog frame
/// nor a tool window.
pub open spec fn looks_normal(facts: WindowFacts) -> bool {
    match (window_style(facts.style), extended_style(facts.ex_style)) {
        (Some(style), Some(ex_style)) => {
            &&& styles::has_bits(style, styles::CAPTION)
            &&& styles::has_bits(ex_style, styles::WINDOWEDGE)
            &&& !styles::has_bits(ex_style, styles::DLGMODALFRAME)
            &&& !styles::has_bits(ex_style, styles::TOOLWINDOW)
        },
        _ => false,
    }
}

/// A desktop widget: a layered tool window without a caption or window edge.
pub open spec fn looks_like_widget(facts: WindowFacts) -> bool {
    match (window_style(facts.style), extended_style(facts.ex_style)) {
        (Some(style), Some(ex_style)) => {
            &&& !styles::has_bits(style, styles::CAPTION)
            &&& styles::has_bits(ex_style, styles::LAYERED)
            &&& styles::has_bits(ex_style, styles::TOOLWINDOW)
            &&& !styles::has_bits(ex_style, styles::WINDOWEDGE)
        },
        _ => false,
    }
}

/// A window in the topmost band.
pub open spec fn is_topmost(facts: WindowFacts) -> bool {
    extended_style(facts.ex_style) matches Some(ex_style) && styles::has_bits(
        ex_style,
        styles::TOPMOST,
    )
}

/// The rectangle of a window in absolute screen coordinates.
pub open spec fn absolute_rect(facts: WindowFacts) -> Option<Rect> {
    match facts.rect {
        Some(rect) => rect_of(
            rect.left as int,
            rect.top as int,
            rect.left + rect.right,
            rect.top + rect.bottom,
        ),
        None => None,
    }
}

/// A window that covers its whole monitor, up to a few pixels.
pub open spec fn covers_monitor(facts: WindowFacts) -> bool {
    match (facts.monitor_rect, absolute_rect(facts)) {
        (Some(monitor), Some(window)) => covers_edges(
            window,
            monitor,
            FULLSCREEN_EDGE_TOLERANCE as int,
        ),
        _ => false,
    }
}

/// A window that covers its monitor or the work area of its monitor, by its edges or by
/// its area.
pub open spec fn covers_monitor_or_work(facts: WindowFacts) -> bool {
    match (facts.monitor_rect, facts.work_rect, absolute_rect(facts)) {
        (Some(monitor), Some(work), Some(window)) => {
            ||| covers_edges(window, monitor, FULLSCREEN_EDGE_TOLERANCE as int)
            ||| facts.covers_monitor_area
            ||| covers_edges(window, work, FULLSCREEN_WORK_AREA_EDGE_TOLERANCE as int)
            ||| facts.covers_work_area
        },
        _ => false,
    }
}

/// The steps that bring a window to a rectangle: none where it is there already, an
/// animation where movement is animated.
pub open spec fn position_steps(
    hwnd: isize,
    current: Rect,
    layout: Rect,
    top: bool,
    animations: AnimationSettings,
) -> Seq<StepView> {
    if current == layout {
        Seq::empty()
    } else if animations.enables(AnimationPrefix::Movement) {
        seq![
            StepView::Do(
                Call::AnimateMovement {
                    hwnd,
                    start: current,
                    target: layout,
                    top,
                    duration_ms: animations.duration_of(AnimationPrefix::Movement),
                    style: animations.style_of(AnimationPrefix::Movement),
                },
            ),
        ]
    } else {
        seq![StepView::Do(Call::PositionWindow { hwnd, rect: layout, top })]
    }
}

/// The steps that activate a window, and move the cursor to it where the mouse follows
/// the focus. The window that has the foreground is not activated again.
pub open spec fn focus_steps(hwnd: isize, mouse_follows_focus: bool, d: DesktopView) -> Seq<
    StepView,
> {
    let activate = if d.foreground == Some(hwnd) {
        Seq::<StepView>::empty()
    } else {
        seq![StepView::Do(Call::RaiseAndFocusWindow(hwnd))]
    };
    if mouse_follows_focus {
        activate.push(StepView::Do(Call::CenterCursorOnWindow(hwnd)))
    } else {
        activate
    }
}

/// What moving a window to the middle of a work area asks of the window system.
pub open spec fn centring(
    hwnd: isize,
    work_area: Rect,
    resize: bool,
    aspect_ratio: AspectRatio,
    animations: AnimationSettings,
    d: DesktopView,
) -> Result<Seq<StepView>, Error> {
    let current = d.at(hwnd).rect;
    let size = centred_size(work_area, resize, aspect_ratio, current);
    let target = match size {
        Some((width, height)) => centred(work_area, width, height),
        None => None,
    };
    if resize && aspect_ratio.ratio().1 == 0 {
        Err(Error::NoAspectRatio)
    } else {
        match (current, target) {
            (Some(current), Some(target)) => Ok(
                position_steps(hwnd, current, target, true, animations),
            ),
            _ => if size is Some && target is None {
                Err(Error::OutOfRange)
            } else {
                Err(Error::WindowSystem)
            },
        }
    }
}

impl Window {
    pub fn floating_resize_safe_area(
        work_area: &Rect,
        window_width: i32,
        window_height: i32,
    ) -> (r: Rect)
        requires
            safe_area(*work_area, window_width as int, window_height as int) is Some,
        ensures
            safe_area(*work_area, window_width as int, window_height as int) == Some(r),
    {
        let horizontal_margin: i32 = margin(work_area.right, window_width);
        let vertical_margin: i32 = margin(work_area.bottom, window_height);
        Rect {
            left: work_area.left + horizontal_margin,
            top: work_area.top + vertical_margin,
            right: work_area.right - horizontal_margin * 2,
            bottom: work_area.bottom - vertical_margin * 2,
        }
    }

    /// Whether the safe area of a work area is a rectangle that the window system takes.
    pub fn has_floating_resize_safe_area(
        work_area: &Rect,
        window_width: i32,
        window_height: i32,
    ) -> (r: bool)
        ensures
            r == (safe_area(*work_area, window_width as int, window_height as int) is Some),
    {
        let horizontal_margin: i32 = margin(work_area.right, window_width);
        let vertical_margin: i32 = margin(work_area.bottom, window_height);
        work_area.left as i64 + horizontal_margin as i64 <= i32::MAX as i64 && work_area.top as i64
            + vertical_margin as i64 <= i32::MAX as i64
    }

    /// Put a window that has moved to another area where it now belongs. A window that
    /// fills the area is maximized there again, once it has arrived.
    pub fn place_in_area(
        &self,
        new_rect: &Rect,
        target_area: &Rect,
        movements_in_progress: usize,
        animations: &AnimationSettings,
        desktop: &Desktop,
        plan: &mut Plan,
    ) -> (r: Result<(), Error>)
        ensures
            ({
                let current = desktop@.at(self.hwnd).rect;
                let fills = *new_rect == *target_area;
                let unmaximize = if fills {
                    seq![StepView::Do(Call::UnmaximizeWindow(self.hwnd))]
                } else {
                    Seq::<StepView>::empty()
                };
                let maximize = if !fills {
                    Seq::<StepView>::empty()
                } else if animations.enables(AnimationPrefix::Movement) {
                    seq![
                        StepView::Do(
                            Call::MaximizeWindowAfterMovement(self.hwnd, movements_in_progress),
                        ),
                    ]
                } else {
                    seq![StepView::Do(Call::MaximizeWindow(self.hwnd))]
                };
                match r {
                    Ok(()) => current is Some && final(plan)@ == old(plan)@ + unmaximize
                        + position_steps(
                        self.hwnd,
                        current->0,
                        *new_rect,
                        true,
                        *animations,
                    ) + maximize,
                    Err(error) => current is None && error == Error::WindowSystem && final(plan)@
                        == old(plan)@ + unmaximize,
                }
            }),
    {
        let ghost before = plan@;
        if *new_rect == *target_area {
            plan.call(Call::UnmaximizeWindow(self.hwnd));
            assert(plan@ =~= before + seq![StepView::Do(Call::UnmaximizeWindow(self.hwnd))]);
            let ghost unmaximized = plan@;
            match self.set_position(new_rect, true, animations, desktop, plan) {
                Ok(()) => {},
                Err(error) => {
                    return Err(error);
                },
            }
            if animations.is_enabled(AnimationPrefix::Movement) {
                plan.call(Call::MaximizeWindowAfterMovement(self.hwnd, movements_in_progress));
            } else {
                plan.call(Call::MaximizeWindow(self.hwnd));
            }
            let ghost positioned = unmaximized + position_steps(
                self.hwnd,
                desktop@.at(self.hwnd).rect->0,
                *new_rect,
                true,
                *animations,
            );
            assert(plan@ =~= positioned + seq![plan@.last()]);
            Ok(())
        } else {
            match self.set_position(new_rect, true, animations, desktop, plan) {
                Ok(()) => {
                    assert(plan@ =~= before + Seq::<StepView>::empty() + position_steps(
                        self.hwnd,
                        desktop@.at(self.hwnd).rect->0,
                        *new_rect,
                        true,
                        *animations,
                    ) + Seq::<StepView>::empty());
                    Ok(())
                },
                Err(error) => {
                    assert(plan@ =~= before + Seq::<StepView>::empty());
                    Err(error)
                },
            }
        }
    }

    /// Move a window to the middle of a work area, resized to half of its height where
    /// that is asked for.
    pub fn center(
        &mut self,
        work_area: &Rect,
        resize: bool,
        aspect_ratio: AspectRatio,
        animations: &AnimationSettings,
        desktop: &Desktop,
        plan: &mut Plan,
    ) -> (r: Result<(), Error>)
        ensures
            *final(self) == *old(self),
            match centring(
                old(self).hwnd,
                *work_area,
                resize,
                aspect_ratio,
                *animations,
                desktop@,
            ) {
                Ok(steps) => r is Ok && final(plan)@ == old(plan)@ + steps,
                Err(error) => r == Err::<(), Error>(error) && final(plan)@ == old(plan)@,
            },
    {
        let current = desktop.rect(self.hwnd);
        let width: i64;
        let height: i64;
        if resize {
            let (aspect_ratio_width, aspect_ratio_height) = aspect_ratio.width_and_height();
            if aspect_ratio_height == 0 {
                return Err(Error::NoAspectRatio);
            }
            height = divide(work_area.bottom as i64, 2);
            assert(-0x4000_0000 <= height <= 0x4000_0000) by (nonlinear_arith)
                requires
                    height == quotient(work_area.bottom as int, 2),
                    -0x8000_0000 <= work_area.bottom <= 0x7fff_ffff,
            ;
            let product: i64 = {
                assert(-0x2000_0000_0000_0000 <= height * aspect_ratio_width
                    <= 0x2000_0000_0000_0000) by (nonlinear_arith)
                    requires
                        -0x4000_0000 <= height <= 0x4000_0000,
                        -0x8000_0000 <= aspect_ratio_width <= 0x7fff_ffff,
                ;
                height * (aspect_ratio_width as i64)
            };
            width = divide(product, aspect_ratio_height as i64);
        } else {
            match current {
                Some(rect) => {
                    width = rect.right as i64;
                    height = rect.bottom as i64;
                },
                None => {
                    return Err(Error::WindowSystem);
                },
            }
        }
        let low: i64 = i32::MIN as i64;
        let high: i64 = i32::MAX as i64;
        if width < low || width > high || height < low || height > high {
            return Err(Error::OutOfRange);
        }
        if !Self::has_floating_resize_safe_area(work_area, width as i32, height as i32) {
            return Err(Error::OutOfRange);
        }
        let area = Self::floating_resize_safe_area(work_area, width as i32, height as i32);
        let x: i64 = area.left as i64 + divide(area.right as i64 - width, 2);
        let y: i64 = area.top as i64 + divide(area.bottom as i64 - height, 2);
        match make_rect(x, y, width, height) {
            Some(target) => self.set_position(&target, true, animations, desktop, plan),
            None => Err(Error::OutOfRange),
        }
    }

    /// Move a window to a rectangle, animated where movement is animated.
    pub fn set_position(
        &self,
        layout: &Rect,
        top: bool,
        animations: &AnimationSettings,
        desktop: &Desktop,
        plan: &mut Plan,
    ) -> (r: Result<(), Error>)
        ensures
            match desktop@.at(self.hwnd).rect {
                Some(current) => r is Ok && final(plan)@ == old(plan)@ + position_steps(
                    self.hwnd,
                    current,
                    *layout,
                    top,
                    *animations,
                ),
                None => r == Err::<(), Error>(Error::WindowSystem) && final(plan)@ == old(plan)@,
            },
    {
        let ghost before = plan@;
        match desktop.rect(self.hwnd) {
            Some(window_rect) => {
                if window_rect == *layout {
                } else if animations.is_enabled(AnimationPrefix::Movement) {
                    plan.call(
                        Call::AnimateMovement {
                            hwnd: self.hwnd,
                            start: window_rect,
                            target: *layout,
                            top,
                            duration_ms: animations.duration(AnimationPrefix::Movement),
                            style: animations.curve(AnimationPrefix::Movement),
                        },
                    );
                } else {
                    plan.call(Call::PositionWindow { hwnd: self.hwnd, rect: *layout, top });
                }
                assert(plan@ =~= before + position_steps(
                    self.hwnd,
                    window_rect,
                    *layout,
                    top,
                    *animations,
                ));
                Ok(())
            },
            None => Err(Error::WindowSystem),
        }
    }

    pub fn is_maximized(self, desktop: &Desktop) -> (r: bool)
        ensures
            r == desktop@.at(self.hwnd).is_maximized,
    {
        match desktop.facts(self.hwnd) {
            Some(facts) => facts.is_maximized,
            None => false,
        }
    }

    pub fn is_minimized(self, desktop: &Desktop) -> (r: bool)
        ensures
            r == desktop@.at(self.hwnd).is_minimized,
    {
        match desktop.facts(self.hwnd) {
            Some(facts) => facts.is_minimized,
            None => false,
        }
    }

    /// The same as [`Window::is_minimized`].
    pub fn is_miminized(self, desktop: &Desktop) -> (r: bool)
        ensures
            r == desktop@.at(self.hwnd).is_minimized,
    {
        self.is_minimized(desktop)
    }

    pub fn is_visible(self, desktop: &Desktop) -> (r: bool)
        ensures
            r == desktop@.at(self.hwnd).is_visible,
    {
        match desktop.facts(self.hwnd) {
            Some(facts) => facts.is_visible,
            None => false,
        }
    }

    /// Whether the window is rendered on screen: visible, not minimized and not cloaked.
    pub fn is_shown(self, desktop: &Desktop) -> (r: bool)
        ensures
            r == desktop@.at(self.hwnd).is_shown,
    {
        desktop.is_shown(self.hwnd)
    }

    pub fn hide_with_border(self, hide_border: bool, screen: &mut Screen)
        ensures
            final(screen)@ == (ScreenView {
                hiding: old(screen)@.hiding.with(self.hwnd),
                desktop: old(screen)@.desktop.with_shown(self.hwnd, false),
                steps: old(screen)@.steps + old(screen)@.hiding.hide_steps(self.hwnd, hide_border),
            }),
    {
        screen.hiding.add(self.hwnd);
        match screen.hiding.behaviour {
            HidingBehaviour::Hide => {
                screen.plan.call(Call::HideWindow(self.hwnd));
            },
            HidingBehaviour::Minimize => {
                screen.plan.call(Call::MinimizeWindow(self.hwnd));
            },
            HidingBehaviour::Cloak => {
                screen.plan.call(Call::CloakWindow(self.hwnd));
            },
        }
        if hide_border {
            screen.plan.call(Call::HideBorder(self.hwnd));
        }
        screen.desktop.mark_shown(self.hwnd, false);
        assert(screen@.steps =~= old(screen)@.steps + old(screen)@.hiding.hide_steps(
            self.hwnd,
            hide_border,
        ));
    }

    /// Hide the window and its border.
    pub fn hide_window(self, screen: &mut Screen)
        ensures
            final(screen)@ == old(screen)@.hiding_window(self),
    {
        self.hide_with_border(true, screen);
    }

    pub fn restore_with_border(self, restore_border: bool, screen: &mut Screen)
        ensures
            final(screen)@ == (ScreenView {
                hiding: old(screen)@.hiding.without(self.hwnd),
                desktop: old(screen)@.desktop.with_shown(self.hwnd, true),
                steps: old(screen)@.steps + old(screen)@.hiding.restore_steps(
                    self.hwnd,
                    restore_border,
                ),
            }),
    {
        screen.hiding.forget(self.hwnd);
        match screen.hiding.behaviour {
            HidingBehaviour::Hide | HidingBehaviour::Minimize => {
                screen.plan.call(Call::RestoreWindowSync(self.hwnd));
            },
            HidingBehaviour::Cloak => {
                screen.plan.call(Call::UncloakWindow(self.hwnd));
            },
        }
        if restore_border {
            screen.plan.call(Call::ShowBorder(self.hwnd));
        }
        screen.desktop.mark_shown(self.hwnd, true);
        assert(screen@.steps =~= old(screen)@.steps + old(screen)@.hiding.restore_steps(
            self.hwnd,
            restore_border,
        ));
    }

    /// Show the window and its border again.
    pub fn restore(self, screen: &mut Screen)
        ensures
            final(screen)@ == old(screen)@.showing(self),
    {
        self.restore_with_border(true, screen);
    }

    /// Minimize the window, unless it belongs to the bar.
    pub fn minimize(self, desktop: &Desktop, plan: &mut Plan)
        ensures
            ({
                let exe = match desktop@.at(self.hwnd).exe {
                    Some(exe) => exe@,
                    None => Seq::empty(),
                };
                final(plan)@ == if text::occurs_in("komorebi-bar"@, exe) {
                    old(plan)@
                } else {
                    old(plan)@.push(StepView::Do(Call::MinimizeWindow(self.hwnd)))
                }
            }),
    {
        let exe = match self.exe(desktop) {
            Ok(exe) => exe,
            Err(_) => String::new(),
        };
        if !text::contains(exe.as_str(), "komorebi-bar") {
            plan.call(Call::MinimizeWindow(self.hwnd));
        }
    }

    pub fn close(self, plan: &mut Plan)
        ensures
            final(plan)@ == old(plan)@.push(StepView::Do(Call::CloseWindow(self.hwnd))),
    {
        plan.call(Call::CloseWindow(self.hwnd));
    }

    pub fn maximize(self, hiding: &mut Hiding, plan: &mut Plan)
        ensures
            final(hiding)@ == old(hiding)@.without(self.hwnd),
            final(plan)@ == old(plan)@.push(StepView::Do(Call::MaximizeWindow(self.hwnd))),
    {
        hiding.forget(self.hwnd);
        plan.call(Call::MaximizeWindow(self.hwnd));
    }

    pub fn unmaximize(self, hiding: &mut Hiding, plan: &mut Plan)
        ensures
            final(hiding)@ == old(hiding)@.without(self.hwnd),
            final(plan)@ == old(plan)@.push(StepView::Do(Call::UnmaximizeWindow(self.hwnd))),
    {
        hiding.forget(self.hwnd);
        plan.call(Call::UnmaximizeWindow(self.hwnd));
    }

    /// Activate the window, and move the cursor to it where the mouse follows the focus.
    pub fn focus(self, mouse_follows_focus: bool, desktop: &Desktop, plan: &mut Plan)
        ensures
            final(plan)@ == old(plan)@ + focus_steps(self.hwnd, mouse_follows_focus, desktop@),
    {
        let has_foreground = match desktop.foreground {
            Some(foreground) => foreground == self.hwnd,
            None => false,
        };
        if !has_foreground {
            plan.call(Call::RaiseAndFocusWindow(self.hwnd));
        }
        if mouse_follows_focus {
            plan.call(Call::CenterCursorOnWindow(self.hwnd));
        }
        assert(plan@ =~= old(plan)@ + focus_steps(self.hwnd, mouse_follows_focus, desktop@));
    }

    pub fn is_focused(self, desktop: &Desktop) -> (r: bool)
        ensures
            r == (match desktop@.foreground {
                Some(foreground) => foreground == self.hwnd,
                None => self.hwnd == 0,
            }),
    {
        match desktop.foreground {
            Some(foreground) => foreground == self.hwnd,
            None => self.hwnd == 0,
        }
    }

    /// Make the window transparent.
    ///
    /// Without an animation nothing is done to a window that is layered with the wanted
    /// alpha value already.
    pub fn transparent(
        self,
        alpha: u8,
        animations: &AnimationSettings,
        desktop: &Desktop,
        plan: &mut Plan,
    ) -> (r: Result<(), Error>)
        ensures
            ({
                let facts = desktop@.at(self.hwnd);
                let start = match facts.alpha {
                    Some(start) => start,
                    None => 255u8,
                };
                if animations.enables(AnimationPrefix::Transparency) {
                    r is Ok && final(plan)@ == old(plan)@.push(
                        StepView::Do(
                            (Call::AnimateTransparency {
                                hwnd: self.hwnd,
                                is_opaque: false,
                                from_alpha: start,
                                to_alpha: alpha,
                                duration_ms: animations.duration_of(AnimationPrefix::Transparency),
                                style: animations.style_of(AnimationPrefix::Transparency),
                            }),
                        ),
                    )
                } else {
                    match extended_style(facts.ex_style) {
                        Some(bits) => if styles::has_bits(bits, styles::LAYERED) && facts.alpha
                            == Some(alpha) {
                            r is Ok && final(plan)@ == old(plan)@
                        } else if style_fits(bits | styles::LAYERED) {
                            r is Ok && final(plan)@ == old(plan)@ + seq![
                                StepView::Do(
                                    Call::UpdateExStyle(self.hwnd, bits | styles::LAYERED),
                                ),
                                StepView::Do(Call::SetTransparent(self.hwnd, alpha)),
                            ]
                        } else {
                            r == Err::<(), Error>(Error::OutOfRange) && final(plan)@ == old(plan)@
                        },
                        None => r == Err::<(), Error>(style_error(facts.ex_style)) && final(plan)@
                            == old(plan)@,
                    }
                }
            }),
    {
        let ghost before = plan@;
        let current = match desktop.facts(self.hwnd) {
            Some(facts) => facts.alpha,
            None => None,
        };
        if animations.is_enabled(AnimationPrefix::Transparency) {
            plan.call(
                Call::AnimateTransparency {
                    hwnd: self.hwnd,
                    is_opaque: false,
                    from_alpha: match current {
                        Some(start) => start,
                        None => 255,
                    },
                    to_alpha: alpha,
                    duration_ms: animations.duration(AnimationPrefix::Transparency),
                    style: animations.curve(AnimationPrefix::Transparency),
                },
            );
            Ok(())
        } else {
            let mut ex_style = match self.ex_style(desktop) {
                Ok(ex_style) => ex_style,
                Err(error) => {
                    return Err(error);
                },
            };
            let unchanged = match current {
                Some(current) => current == alpha,
                None => false,
            };
            if ex_style.contains(styles::LAYERED) && unchanged {
                return Ok(());
            }
            ex_style.insert(styles::LAYERED);
            match self.update_ex_style(&ex_style, plan) {
                Ok(()) => {
                    plan.call(Call::SetTransparent(self.hwnd, alpha));
                    assert(plan@ =~= before + seq![
                        StepView::Do(Call::UpdateExStyle(self.hwnd, ex_style.bits)),
                        StepView::Do(Call::SetTransparent(self.hwnd, alpha)),
                    ]);
                    Ok(())
                },
                Err(error) => Err(error),
            }
        }
    }

    /// Make the window opaque.
    ///
    /// Without an animation nothing is done to a window that is not layered.
    pub fn opaque(
        self,
        alpha: u8,
        animations: &AnimationSettings,
        desktop: &Desktop,
        plan: &mut Plan,
    ) -> (r: Result<(), Error>)
        ensures
            ({
                let facts = desktop@.at(self.hwnd);
                let start = match facts.alpha {
                    Some(start) => start,
                    None => alpha,
                };
                if animations.enables(AnimationPrefix::Transparency) {
                    r is Ok && final(plan)@ == old(plan)@.push(
                        StepView::Do(
                            (Call::AnimateTransparency {
                                hwnd: self.hwnd,
                                is_opaque: true,
                                from_alpha: start,
                                to_alpha: 255,
                                duration_ms: animations.duration_of(AnimationPrefix::Transparency),
                                style: animations.style_of(AnimationPrefix::Transparency),
                            }),
                        ),
                    )
                } else {
                    match extended_style(facts.ex_style) {
                        Some(bits) => if !styles::has_bits(bits, styles::LAYERED) {
                            r is Ok && final(plan)@ == old(plan)@
                        } else if style_fits(bits & !styles::LAYERED) {
                            r is Ok && final(plan)@ == old(plan)@.push(
                                StepView::Do(
                                    Call::UpdateExStyle(self.hwnd, bits & !styles::LAYERED),
                                ),
                            )
                        } else {
                            r == Err::<(), Error>(Error::OutOfRange) && final(plan)@ == old(plan)@
                        },
                        None => r == Err::<(), Error>(style_error(facts.ex_style)) && final(plan)@
                            == old(plan)@,
                    }
                }
            }),
    {
        if animations.is_enabled(AnimationPrefix::Transparency) {
            let current = match desktop.facts(self.hwnd) {
                Some(facts) => facts.alpha,
                None => None,
            };
            plan.call(
                Call::AnimateTransparency {
                    hwnd: self.hwnd,
                    is_opaque: true,
                    from_alpha: match current {
                        Some(start) => start,
                        None => alpha,
                    },
                    to_alpha: 255,
                    duration_ms: animations.duration(AnimationPrefix::Transparency),
                    style: animations.curve(AnimationPrefix::Transparency),
                },
            );
            Ok(())
        } else {
            let mut ex_style = match self.ex_style(desktop) {
                Ok(ex_style) => ex_style,
                Err(error) => {
                    return Err(error);
                },
            };
            if !ex_style.contains(styles::LAYERED) {
                return Ok(());
            }
            ex_style.remove(styles::LAYERED);
            self.update_ex_style(&ex_style, plan)
        }
    }

    pub fn set_accent(self, colour: u32, plan: &mut Plan)
        ensures
            final(plan)@ == old(plan)@.push(
                StepView::Do(Call::SetWindowAccent(self.hwnd, Some(colour))),
            ),
    {
        plan.call(Call::SetWindowAccent(self.hwnd, Some(colour)));
    }

    pub fn remove_accent(self, plan: &mut Plan)
        ensures
            final(plan)@ == old(plan)@.push(StepView::Do(Call::SetWindowAccent(self.hwnd, None))),
    {
        plan.call(Call::SetWindowAccent(self.hwnd, None));
    }

    pub fn update_style(self, style: &WindowStyle, plan: &mut Plan) -> (r: Result<(), Error>)
        ensures
            style_fits(style.bits) ==> r is Ok && final(plan)@ == old(plan)@.push(
                StepView::Do(Call::UpdateStyle(self.hwnd, style.bits)),
            ),
            !style_fits(style.bits) ==> r == Err::<(), Error>(Error::OutOfRange) && final(plan)@
                == old(plan)@,
    {
        if style.bits as u64 <= isize::MAX as u64 {
            plan.call(Call::UpdateStyle(self.hwnd, style.bits));
            Ok(())
        } else {
            Err(Error::OutOfRange)
        }
    }

    pub fn update_ex_style(self, style: &ExtendedWindowStyle, plan: &mut Plan) -> (r: Result<
        (),
        Error,
    >)
        ensures
            style_fits(style.bits) ==> r is Ok && final(plan)@ == old(plan)@.push(
                StepView::Do(Call::UpdateExStyle(self.hwnd, style.bits)),
            ),
            !style_fits(style.bits) ==> r == Err::<(), Error>(Error::OutOfRange) && final(plan)@
                == old(plan)@,
    {
        if style.bits as u64 <= isize::MAX as u64 {
            plan.call(Call::UpdateExStyle(self.hwnd, style.bits));
            Ok(())
        } else {
            Err(Error::OutOfRange)
        }
    }

    pub fn style(self, desktop: &Desktop) -> (r: Result<WindowStyle, Error>)
        ensures
            match r {
                Ok(style) => window_style(desktop@.at(self.hwnd).style) == Some(style.bits),
                Err(error) => window_style(desktop@.at(self.hwnd).style) is None && error
                    == style_error(desktop@.at(self.hwnd).style),
            },
    {
        let raw = match desktop.facts(self.hwnd) {
            Some(facts) => facts.style,
            None => None,
        };
        match bits_of(raw) {
            Ok(bits) => Ok(WindowStyle::from_bits_truncate(bits)),
            Err(error) => Err(error),
        }
    }

    pub fn ex_style(self, desktop: &Desktop) -> (r: Result<ExtendedWindowStyle, Error>)
        ensures
            match r {
                Ok(style) => extended_style(desktop@.at(self.hwnd).ex_style) == Some(style.bits),
                Err(error) => extended_style(desktop@.at(self.hwnd).ex_style) is None && error
                    == style_error(desktop@.at(self.hwnd).ex_style),
            },
    {
        let raw = match desktop.facts(self.hwnd) {
            Some(facts) => facts.ex_style,
            None => None,
        };
        match bits_of(raw) {
            Ok(bits) => Ok(ExtendedWindowStyle::from_bits_truncate(bits)),
            Err(error) => Err(error),
        }
    }

    pub fn title(self, desktop: &Desktop) -> (r: Result<String, Error>)
        ensures
            match r {
                Ok(title) => desktop@.at(self.hwnd).title == Some(title),
                Err(error) => desktop@.at(self.hwnd).title is None && error == Error::WindowSystem,
            },
    {
        match desktop.facts(self.hwnd) {
            Some(facts) => match &facts.title {
                Some(title) => Ok(title.clone()),
                None => Err(Error::WindowSystem),
            },
            None => Err(Error::WindowSystem),
        }
    }

    /// The full path of the executable that the window belongs to.
    pub fn path(self, desktop: &Desktop) -> (r: Result<String, Error>)
        ensures
            match r {
                Ok(path) => desktop@.at(self.hwnd).path == Some(path),
                Err(error) => desktop@.at(self.hwnd).path is None && error == Error::WindowSystem,
            },
    {
        match desktop.facts(self.hwnd) {
            Some(facts) => match &facts.path {
                Some(path) => Ok(path.clone()),
                None => Err(Error::WindowSystem),
            },
            None => Err(Error::WindowSystem),
        }
    }

    /// The name of the executable that the window belongs to.
    pub fn exe(self, desktop: &Desktop) -> (r: Result<String, Error>)
        ensures
            match r {
                Ok(exe) => desktop@.at(self.hwnd).exe == Some(exe),
                Err(error) => desktop@.at(self.hwnd).exe is None && error == Error::WindowSystem,
            },
    {
        match desktop.facts(self.hwnd) {
            Some(facts) => match &facts.exe {
                Some(exe) => Ok(exe.clone()),
                None => Err(Error::WindowSystem),
            },
            None => Err(Error::WindowSystem),
        }
    }

    pub fn process_id(self, desktop: &Desktop) -> (r: u32)
        ensures
            r == desktop@.at(self.hwnd).process_id,
    {
        desktop.process_id(self.hwnd)
    }

    pub fn class(self, desktop: &Desktop) -> (r: Result<String, Error>)
        ensures
            match r {
                Ok(class) => desktop@.at(self.hwnd).class == Some(class),
                Err(error) => desktop@.at(self.hwnd).class is None && error == Error::WindowSystem,
            },
    {
        match desktop.facts(self.hwnd) {
            Some(facts) => match &facts.class {
                Some(class) => Ok(class.clone()),
                None => Err(Error::WindowSystem),
            },
            None => Err(Error::WindowSystem),
        }
    }

    pub fn is_cloaked(self, desktop: &Desktop) -> (r: Result<bool, Error>)
        ensures
            match r {
                Ok(is_cloaked) => desktop@.at(self.hwnd).is_cloaked == Some(is_cloaked),
                Err(error) => desktop@.at(self.hwnd).is_cloaked is None && error
                    == Error::WindowSystem,
            },
    {
        match desktop.facts(self.hwnd) {
            Some(facts) => match facts.is_cloaked {
                Some(is_cloaked) => Ok(is_cloaked),
                None => Err(Error::WindowSystem),
            },
            None => Err(Error::WindowSystem),
        }
    }

    pub fn is_window(self, desktop: &Desktop) -> (r: bool)
        ensures
            r == desktop@.at(self.hwnd).is_window,
    {
        desktop.is_window(self.hwnd)
    }

    pub fn remove_title_bar(self, desktop: &Desktop, plan: &mut Plan) -> (r: Result<(), Error>)
        ensures
            match window_style(desktop@.at(self.hwnd).style) {
                Some(bits) => {
                    let bare = (bits & !styles::CAPTION) & !styles::THICKFRAME;
                    if style_fits(bare) {
                        r is Ok && final(plan)@ == old(plan)@.push(
                            StepView::Do(Call::UpdateStyle(self.hwnd, bare)),
                        )
                    } else {
                        r == Err::<(), Error>(Error::OutOfRange) && final(plan)@ == old(plan)@
                    }
                },
                None => r == Err::<(), Error>(style_error(desktop@.at(self.hwnd).style))
                    && final(plan)@ == old(plan)@,
            },
    {
        match self.style(desktop) {
            Ok(style) => {
                let mut bare = style;
                bare.remove(styles::CAPTION);
                bare.remove(styles::THICKFRAME);
                self.update_style(&bare, plan)
            },
            Err(error) => Err(error),
        }
    }

    pub fn add_title_bar(self, desktop: &Desktop, plan: &mut Plan) -> (r: Result<(), Error>)
        ensures
            match window_style(desktop@.at(self.hwnd).style) {
                Some(bits) => {
                    let framed = (bits | styles::CAPTION) | styles::THICKFRAME;
                    if style_fits(framed) {
                        r is Ok && final(plan)@ == old(plan)@.push(
                            StepView::Do(Call::UpdateStyle(self.hwnd, framed)),
                        )
                    } else {
                        r == Err::<(), Error>(Error::OutOfRange) && final(plan)@ == old(plan)@
                    }
                },
                None => r == Err::<(), Error>(style_error(desktop@.at(self.hwnd).style))
                    && final(plan)@ == old(plan)@,
            },
    {
        match self.style(desktop) {
            Ok(style) => {
                let mut framed = style;
                framed.insert(styles::CAPTION);
                framed.insert(styles::THICKFRAME);
                self.update_style(&framed, plan)
            },
            Err(error) => Err(error),
        }
    }

    /// Raise the window and its border to the top of the Z order, without activating it.
    pub fn raise(self, desktop: &Desktop, plan: &mut Plan)
        ensures
            final(plan)@ == old(plan)@ + with_border(
                |hwnd: isize| Call::RaiseWindow(hwnd),
                self.hwnd,
                desktop@,
            ),
    {
        plan.call(Call::RaiseWindow(self.hwnd));
        match desktop.border(self.hwnd) {
            Some(border) => {
                plan.call(Call::RaiseWindow(border));
            },
            None => {},
        }
        assert(plan@ =~= old(plan)@ + with_border(
            |hwnd: isize| Call::RaiseWindow(hwnd),
            self.hwnd,
            desktop@,
        ));
    }

    /// Raise the window and its border like [`Window::raise`], and wait until it is done.
    pub fn raise_sync(self, desktop: &Desktop, plan: &mut Plan)
        ensures
            final(plan)@ == old(plan)@ + with_border(
                |hwnd: isize| Call::RaiseWindowSync(hwnd),
                self.hwnd,
                desktop@,
            ),
    {
        plan.call(Call::RaiseWindowSync(self.hwnd));
        match desktop.border(self.hwnd) {
            Some(border) => {
                plan.call(Call::RaiseWindowSync(border));
            },
            None => {},
        }
        assert(plan@ =~= old(plan)@ + with_border(
            |hwnd: isize| Call::RaiseWindowSync(hwnd),
            self.hwnd,
            desktop@,
        ));
    }

    /// Raise the window and its border above the active window, without activating it.
    pub fn raise_above_active(self, desktop: &Desktop, plan: &mut Plan)
        ensures
            final(plan)@ == old(plan)@ + with_border(
                |hwnd: isize| Call::RaiseWindowAboveActive(hwnd),
                self.hwnd,
                desktop@,
            ),
    {
        plan.call(Call::RaiseWindowAboveActive(self.hwnd));
        match desktop.border(self.hwnd) {
            Some(border) => {
                plan.call(Call::RaiseWindowAboveActive(border));
            },
            None => {},
        }
        assert(plan@ =~= old(plan)@ + with_border(
            |hwnd: isize| Call::RaiseWindowAboveActive(hwnd),
            self.hwnd,
            desktop@,
        ));
    }

    /// Put the window and its border into the topmost band, without activating it.
    pub fn make_topmost(self, desktop: &Desktop, plan: &mut Plan)
        ensures
            final(plan)@ == old(plan)@ + with_border(
                |hwnd: isize| Call::MakeTopmostWindow(hwnd),
                self.hwnd,
                desktop@,
            ),
    {
        plan.call(Call::MakeTopmostWindow(self.hwnd));
        match desktop.border(self.hwnd) {
            Some(border) => {
                plan.call(Call::MakeTopmostWindow(border));
            },
            None => {},
        }
        assert(plan@ =~= old(plan)@ + with_border(
            |hwnd: isize| Call::MakeTopmostWindow(hwnd),
            self.hwnd,
            desktop@,
        ));
    }

    /// Lower the window and its border to the bottom of the Z order, without activating
    /// it.
    pub fn lower(self, desktop: &Desktop, plan: &mut Plan)
        ensures
            final(plan)@ == old(plan)@ + with_border(
                |hwnd: isize| Call::LowerWindow(hwnd),
                self.hwnd,
                desktop@,
            ),
    {
        plan.call(Call::LowerWindow(self.hwnd));
        match desktop.border(self.hwnd) {
            Some(border) => {
                plan.call(Call::LowerWindow(border));
            },
            None => {},
        }
        assert(plan@ =~= old(plan)@ + with_border(
            |hwnd: isize| Call::LowerWindow(hwnd),
            self.hwnd,
            desktop@,
        ));
    }

    /// Lower the window and its border like [`Window::lower`], and wait until it is done.
    pub fn lower_sync(self, desktop: &Desktop, plan: &mut Plan)
        ensures
            final(plan)@ == old(plan)@ + with_border(
                |hwnd: isize| Call::LowerWindowSync(hwnd),
                self.hwnd,
                desktop@,
            ),
    {
        plan.call(Call::LowerWindowSync(self.hwnd));
        match desktop.border(self.hwnd) {
            Some(border) => {
                plan.call(Call::LowerWindowSync(border));
            },
            None => {},
        }
        assert(plan@ =~= old(plan)@ + with_border(
            |hwnd: isize| Call::LowerWindowSync(hwnd),
            self.hwnd,
            desktop@,
        ));
    }

    /// Whether the window looks like a regular application window.
    pub fn is_normal_application_window(self, desktop: &Desktop) -> (r: bool)
        ensures
            r == looks_normal(desktop@.at(self.hwnd)),
    {
        match (self.style(desktop), self.ex_style(desktop)) {
            (Ok(style), Ok(ex_style)) => style.contains(styles::CAPTION) && ex_style.contains(
                styles::WINDOWEDGE,
            ) && !ex_style.contains(styles::DLGMODALFRAME) && !ex_style.contains(
                styles::TOOLWINDOW,
            ),
            _ => false,
        }
    }

    /// Whether the window looks like a desktop widget.
    pub fn is_widget_window(self, desktop: &Desktop) -> (r: bool)
        ensures
            r == looks_like_widget(desktop@.at(self.hwnd)),
    {
        match (self.style(desktop), self.ex_style(desktop)) {
            (Ok(style), Ok(ex_style)) => !style.contains(styles::CAPTION) && ex_style.contains(
                styles::LAYERED,
            ) && ex_style.contains(styles::TOOLWINDOW) && !ex_style.contains(styles::WINDOWEDGE),
            _ => false,
        }
    }

    /// Whether the window is in the topmost band.
    pub fn is_always_on_top(self, desktop: &Desktop) -> (r: bool)
        ensures
            r == is_topmost(desktop@.at(self.hwnd)),
    {
        match self.ex_style(desktop) {
            Ok(ex_style) => ex_style.contains(styles::TOPMOST),
            Err(_) => false,
        }
    }

    /// Whether the window covers the whole monitor on which it is displayed.
    pub fn is_fullscreen(self, desktop: &Desktop) -> (r: bool)
        ensures
            r == covers_monitor(desktop@.at(self.hwnd)),
    {
        match (self.monitor_rect(desktop), self.absolute_window_rect(desktop)) {
            (Some(monitor_rect), Some(window_rect)) => rect_covers_monitor_rect(
                &window_rect,
                &monitor_rect,
                FULLSCREEN_EDGE_TOLERANCE,
            ),
            _ => false,
        }
    }

    /// Whether the window covers its monitor or the work area of its monitor closely
    /// enough to hide what is below.
    pub fn covers_monitor_or_work_area(self, desktop: &Desktop) -> (r: bool)
        ensures
            r == covers_monitor_or_work(desktop@.at(self.hwnd)),
    {
        let facts = match desktop.facts(self.hwnd) {
            Some(facts) => facts,
            None => {
                return false;
            },
        };
        match (facts.monitor_rect, facts.work_rect, self.absolute_window_rect(desktop)) {
            (Some(monitor_rect), Some(work_rect), Some(window_rect)) => rect_covers_target_rect(
                &window_rect,
                &monitor_rect,
                FULLSCREEN_EDGE_TOLERANCE,
                facts.covers_monitor_area,
            ) || rect_covers_target_rect(
                &window_rect,
                &work_rect,
                FULLSCREEN_WORK_AREA_EDGE_TOLERANCE,
                facts.covers_work_area,
            ),
            _ => false,
        }
    }

    fn monitor_rect(self, desktop: &Desktop) -> (r: Option<Rect>)
        ensures
            r == desktop@.at(self.hwnd).monitor_rect,
    {
        match desktop.facts(self.hwnd) {
            Some(facts) => facts.monitor_rect,
            None => None,
        }
    }

    fn absolute_window_rect(self, desktop: &Desktop) -> (r: Option<Rect>)
        ensures
            r == absolute_rect(desktop@.at(self.hwnd)),
    {
        match desktop.rect(self.hwnd) {
            Some(rect) => make_rect(
                rect.left as i64,
                rect.top as i64,
                rect.left as i64 + rect.right as i64,
                rect.top as i64 + rect.bottom as i64,
            ),
            None => None,
        }
    }

    /// Whether the window is fullscreen by its own doing: it covers its monitor and does
    /// not look like a regular application window.
    pub fn is_self_fullscreen(self, desktop: &Desktop) -> (r: bool)
        ensures
            r == (covers_monitor(desktop@.at(self.hwnd)) && !looks_normal(
                desktop@.at(self.hwnd),
            )),
    {
        self.is_fullscreen(desktop) && !self.is_normal_application_window(desktop)
    }
}

/// Showing a window that was hidden leaves no trace of the hiding, as far as the list of
/// hidden windows goes.
pub proof fn showing_undoes_hiding(hiding: HidingView, hwnd: isize)
    requires
        !hiding.hidden.contains(hwnd),
    ensures
        hiding.with(hwnd).hidden.contains(hwnd),
        hiding.with(hwnd).without(hwnd) == hiding,
{
    let all = hiding.hidden.push(hwnd);
    let last = hiding.hidden.len() as int;
    assert(all[last] == hwnd);
    all.index_of_first_ensures(hwnd);
    let at = all.index_of_first(hwnd)->0;
    if at < last {
        assert(hiding.hidden[at] == hwnd);
    }
    assert(all.remove(last) =~= hiding.hidden);
}

/// The window that has the foreground is never activated again.
pub proof fn focused_windows_are_not_activated(
    hwnd: isize,
    mouse_follows_focus: bool,
    d: DesktopView,
)
    requires
        d.foreground == Some(hwnd),
    ensures
        focus_steps(hwnd, mouse_follows_focus, d) == if mouse_follows_focus {
            seq![StepView::Do(Call::CenterCursorOnWindow(hwnd))]
        } else {
            Seq::<StepView>::empty()
        },
{
    assert(focus_steps(hwnd, mouse_follows_focus, d) =~= if mouse_follows_focus {
        seq![StepView::Do(Call::CenterCursorOnWindow(hwnd))]
    } else {
        Seq::<StepView>::empty()
    });
}

} // verus!
