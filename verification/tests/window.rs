use komorebi::apply_worker::ApplyOp;
use komorebi::apply_worker::ApplyWorker;
use komorebi::apply_worker::CapturedWindow;
use komorebi::desktop::Desktop;
use komorebi::desktop::WindowFacts;
use komorebi::error::Error;
use komorebi::geometry::Rect;
use komorebi::plan::Call;
use komorebi::plan::Plan;
use komorebi::plan::Step;
use komorebi::window::covered_and_total_area;
use komorebi::window::rect_covers_monitor_rect;
use komorebi::window::rect_covers_target_rect;
use komorebi::window::AspectRatio;
use komorebi::window::Hiding;
use komorebi::window::HidingBehaviour;
use komorebi::window::PredefinedAspectRatio;
use komorebi::window::Screen;
use komorebi::window::Window;
use komorebi::window::WindowDetails;
use komorebi::window::FULLSCREEN_EDGE_TOLERANCE;
use komorebi::window::FULLSCREEN_WORK_AREA_EDGE_TOLERANCE;

const FULLSCREEN_COVERAGE_RATIO: f32 = 0.97;

fn rect(left: i32, top: i32, right: i32, bottom: i32) -> Rect {
    Rect { left, top, right, bottom }
}

fn covers(window: &Rect, target: &Rect, tolerance: i32) -> bool {
    let (covered, total) = covered_and_total_area(window, target);
    let covers_enough = covered as f32 / total as f32 >= FULLSCREEN_COVERAGE_RATIO;
    rect_covers_target_rect(window, target, tolerance, covers_enough)
}

fn facts(hwnd: isize) -> WindowFacts {
    WindowFacts {
        hwnd,
        is_window: true,
        process_id: 1,
        is_visible: true,
        is_shown: true,
        is_maximized: false,
        is_minimized: false,
        is_cloaked: Some(false),
        is_responding: true,
        rect: Some(rect(10, 20, 300, 200)),
        title: Some("title".to_string()),
        exe: Some("app.exe".to_string()),
        class: Some("class".to_string()),
        path: Some("C:\\app.exe".to_string()),
        style: Some(0x00C0_0000),
        ex_style: Some(0x0000_0100),
        alpha: None,
        monitor: 0,
        monitor_rect: Some(rect(0, 0, 1920, 1080)),
        work_rect: Some(rect(0, 0, 1920, 1040)),
        covers_monitor_area: false,
        covers_work_area: false,
        border: None,
    }
}

fn desktop(windows: Vec<WindowFacts>) -> Desktop {
    Desktop { windows, foreground: None, cursor_window: None, unmanaged: None, now_ms: 0 }
}

fn screen(windows: Vec<WindowFacts>, behaviour: HidingBehaviour) -> Screen {
    Screen {
        hiding: Hiding { hidden_hwnds: vec![], behaviour },
        desktop: desktop(windows),
        plan: Plan::new(),
    }
}

#[test]
fn test_rect_covers_monitor_rect_when_window_matches_monitor() {
    let monitor = rect(0, 0, 1920, 1080);

    assert!(rect_covers_monitor_rect(&monitor, &monitor, 0));
    assert!(rect_covers_monitor_rect(&rect(0, 0, 1920, 1080), &monitor, FULLSCREEN_EDGE_TOLERANCE));
    assert!(rect_covers_monitor_rect(&rect(0, 0, 1916, 1080), &monitor, 8));
}

#[test]
fn test_rect_covers_monitor_rect_when_window_does_not_match() {
    let monitor = rect(0, 0, 1920, 1080);

    assert!(!rect_covers_monitor_rect(&rect(10, 10, 1910, 1070), &monitor, 8));
    assert!(!rect_covers_monitor_rect(&rect(0, 0, 1920, 500), &monitor, 8));
    assert!(!rect_covers_monitor_rect(&rect(0, 0, 1920, 1050), &monitor, 8));
}

#[test]
fn test_rect_covers_monitor_rect_on_secondary_monitor() {
    let monitor = rect(1280, 0, 3840, 1440);

    assert!(rect_covers_monitor_rect(&rect(1280, 0, 3840, 1440), &monitor, 8));
    assert!(rect_covers_monitor_rect(&rect(1280, 0, 3832, 1440), &monitor, 8));
    assert!(!rect_covers_monitor_rect(&rect(1280, 0, 3830, 1440), &monitor, 8));
}

#[test]
fn test_rect_covers_target_rect_by_area_fallback() {
    let monitor = rect(0, 0, 2560, 1440);

    assert!(covers(&rect(0, 0, 2560, 1410), &monitor, FULLSCREEN_EDGE_TOLERANCE));
    assert!(covers(&rect(0, 0, 5120, 1440), &monitor, FULLSCREEN_EDGE_TOLERANCE));
    assert!(!covers(&rect(0, 0, 617, 142), &monitor, FULLSCREEN_EDGE_TOLERANCE));
}

#[test]
fn test_rect_covers_target_rect_by_work_area() {
    let work_area = rect(0, 0, 2560, 1410);

    assert!(covers(&rect(0, 0, 2560, 1410), &work_area, FULLSCREEN_WORK_AREA_EDGE_TOLERANCE));
    assert!(covers(&rect(0, 0, 2554, 1404), &work_area, FULLSCREEN_WORK_AREA_EDGE_TOLERANCE));
    assert!(!covers(&rect(0, 0, 617, 142), &work_area, FULLSCREEN_WORK_AREA_EDGE_TOLERANCE));
}

#[test]
fn areas_of_overlaps_are_exact() {
    assert_eq!(covered_and_total_area(&rect(0, 0, 10, 10), &rect(5, 5, 15, 15)), (25, 100));
    assert_eq!(covered_and_total_area(&rect(0, 0, 10, 10), &rect(20, 20, 30, 30)), (0, 100));
    assert_eq!(covered_and_total_area(&rect(0, 0, 10, 10), &rect(5, 5, 5, 5)).1, 1);
}

#[test]
fn test_captured_window_rejects_invalid_hwnd() {
    let desktop = desktop(vec![]);
    let captured = CapturedWindow::from_window(Window { hwnd: 0xbeef }, &desktop);
    assert!(!captured.is_still_owned(&desktop));
}

#[test]
fn captured_windows_are_owned_by_their_process() {
    let before = desktop(vec![facts(1)]);
    let captured = CapturedWindow::from_window(Window { hwnd: 1 }, &before);
    assert_eq!(captured.hwnd(), 1);
    assert!(captured.is_still_owned(&before));
    let mut recycled = facts(1);
    recycled.process_id = 2;
    assert!(!captured.is_still_owned(&desktop(vec![recycled])));
}

#[test]
fn operations_skip_windows_that_are_gone() {
    let before = desktop(vec![facts(1)]);
    let mut plan = Plan::new();
    ApplyWorker::raise(&vec![Window { hwnd: 1 }], &before, &mut plan);
    let op = match plan.steps.pop() {
        Some(Step::Apply(op)) => op,
        _ => panic!("the operation was not queued"),
    };
    assert!(matches!(op, ApplyOp::Raise(_)));
    let mut calls = Plan::new();
    ApplyWorker::apply(&op, 0, &before, &mut calls);
    assert!(!calls.steps.is_empty());
    let mut skipped = Plan::new();
    ApplyWorker::apply(&op, 0, &desktop(vec![]), &mut skipped);
    assert!(skipped.steps.is_empty());
}

#[test]
fn windows_tell_what_the_window_system_says() {
    let desktop = desktop(vec![facts(1)]);
    let window = Window { hwnd: 1 };
    assert_eq!(window.title(&desktop), Ok("title".to_string()));
    assert_eq!(window.exe(&desktop), Ok("app.exe".to_string()));
    assert_eq!(window.class(&desktop), Ok("class".to_string()));
    assert_eq!(window.path(&desktop), Ok("C:\\app.exe".to_string()));
    assert_eq!(window.is_cloaked(&desktop), Ok(false));
    assert_eq!(window.process_id(&desktop), 1);
    assert!(window.is_window(&desktop));
    assert!(window.is_visible(&desktop));
    assert!(!window.is_maximized(&desktop));

    let unknown = Window { hwnd: 2 };
    assert_eq!(unknown.title(&desktop), Err(Error::WindowSystem));
    assert!(!unknown.is_window(&desktop));
}

#[test]
fn hiding_is_remembered_and_undone() {
    let mut screen = screen(vec![facts(1)], HidingBehaviour::Cloak);
    let window = Window { hwnd: 1 };
    window.hide_window(&mut screen);
    assert_eq!(screen.hiding.hidden_hwnds, vec![1]);
    assert!(!window.is_shown(&screen.desktop));
    window.restore(&mut screen);
    assert!(screen.hiding.hidden_hwnds.is_empty());
    assert!(window.is_shown(&screen.desktop));
}

#[test]
fn focusing_raises_the_window() {
    let mut plan = Plan::new();
    let desktop = desktop(vec![facts(1)]);
    Window { hwnd: 1 }.focus(false, &desktop, &mut plan);
    assert!(!plan.steps.is_empty());
}

#[test]
fn windows_without_a_caption_are_widgets() {
    let mut widget = facts(1);
    widget.style = Some(0);
    let desktop = desktop(vec![widget, facts(2)]);
    assert!(!Window { hwnd: 1 }.is_normal_application_window(&desktop));
    assert!(Window { hwnd: 2 }.is_normal_application_window(&desktop));
    assert!(!Window { hwnd: 2 }.is_widget_window(&desktop));
}

#[test]
fn aspect_ratios_have_their_numbers() {
    assert_eq!(
        AspectRatio::Predefined(PredefinedAspectRatio::Widescreen).width_and_height(),
        (16, 9)
    );
    assert_eq!(AspectRatio::Custom(3, 2).width_and_height(), (3, 2));
}

#[test]
fn title_bars_are_taken_off_and_put_back() {
    let desktop = desktop(vec![facts(1)]);
    let mut plan = Plan::new();
    assert_eq!(Window { hwnd: 1 }.remove_title_bar(&desktop, &mut plan), Ok(()));
    assert!(matches!(plan.steps[0], Step::Do(Call::UpdateStyle(1, _))));
    assert_eq!(
        Window { hwnd: 2 }.remove_title_bar(&desktop, &mut plan),
        Err(Error::WindowSystem)
    );
}

#[test]
fn title_bars_are_put_on() {
    let mut bare = facts(1);
    bare.style = Some(0x1000_0000);
    let mut plan = Plan::new();
    assert_eq!(Window { hwnd: 1 }.add_title_bar(&desktop(vec![bare]), &mut plan), Ok(()));
    assert!(matches!(plan.steps[0], Step::Do(Call::UpdateStyle(1, 0x10C4_0000))));
}

#[test]
fn styles_without_a_name_are_left_out() {
    let mut odd = facts(1);
    odd.style = Some(0x00C0_00FF);
    odd.ex_style = Some(0x7000_0102);
    let odd = desktop(vec![odd]);
    assert_eq!(Window { hwnd: 1 }.style(&odd).map(|style| style.bits), Ok(0x00C0_0000));
    assert_eq!(Window { hwnd: 1 }.ex_style(&odd).map(|style| style.bits), Ok(0x0000_0100));

    let mut negative = facts(1);
    negative.style = Some(-1);
    let negative = desktop(vec![negative]);
    assert_eq!(Window { hwnd: 1 }.style(&negative), Err(Error::OutOfRange));
}

#[test]
fn borders_are_lowered_with_their_window() {
    let mut bordered = facts(1);
    bordered.border = Some(9);
    let mut plan = Plan::new();
    Window { hwnd: 1 }.lower_sync(&desktop(vec![bordered]), &mut plan);
    assert!(matches!(plan.steps[0], Step::Do(Call::LowerWindowSync(1))));
    assert!(matches!(plan.steps[1], Step::Do(Call::LowerWindowSync(9))));
}

#[test]
fn accents_come_and_go() {
    let mut plan = Plan::new();
    Window { hwnd: 1 }.set_accent(0x00FF_0000, &mut plan);
    Window { hwnd: 1 }.remove_accent(&mut plan);
    assert!(matches!(plan.steps[0], Step::Do(Call::SetWindowAccent(1, Some(0x00FF_0000)))));
    assert!(matches!(plan.steps[1], Step::Do(Call::SetWindowAccent(1, None))));
}

#[test]
fn details_need_all_texts() {
    let known = desktop(vec![facts(1)]);
    let details = WindowDetails::try_from(Window { hwnd: 1 }, &known).unwrap();
    assert_eq!(details.title, "title");
    assert_eq!(details.exe, "app.exe");
    assert_eq!(details.class, "class");
    let mut unnamed = facts(1);
    unnamed.exe = None;
    let unnamed = desktop(vec![unnamed]);
    assert!(matches!(
        WindowDetails::try_from(Window { hwnd: 1 }, &unnamed),
        Err(Error::WindowSystem)
    ));
}

#[test]
fn fullscreen_windows_without_a_frame_are_so_by_themselves() {
    let mut game = facts(1);
    game.rect = Some(rect(0, 0, 1920, 1080));
    game.monitor_rect = Some(rect(0, 0, 1920, 1080));
    game.style = Some(0x9000_0000);
    game.ex_style = Some(0);
    game.covers_monitor_area = true;
    assert!(Window { hwnd: 1 }.is_self_fullscreen(&desktop(vec![game])));
    assert!(!Window { hwnd: 1 }.is_self_fullscreen(&desktop(vec![facts(1)])));
}

#[test]
fn windows_are_queued_below_others() {
    let before = desktop(vec![facts(1), facts(2)]);
    let mut plan = Plan::new();
    ApplyWorker::raise_below(Window { hwnd: 1 }, Window { hwnd: 2 }, &before, &mut plan);
    ApplyWorker::raise_and_focus_hwnd(1, true, false, &before, &mut plan);
    ApplyWorker::lower_batch(&vec![Window { hwnd: 2 }], &before, &mut plan);
    ApplyWorker::raise_batch(&vec![], &before, &mut plan);
    assert_eq!(plan.steps.len(), 3);
    match &plan.steps[0] {
        Step::Apply(ApplyOp::RaiseBelow { window, target }) => {
            assert_eq!(window.hwnd(), 1);
            assert_eq!(target.hwnd(), 2);
        },
        _ => panic!("the window was not queued"),
    }
    assert!(matches!(
        &plan.steps[1],
        Step::Apply(ApplyOp::RaiseAndFocus { center_cursor: true, authoritative: false, .. })
    ));
    match &plan.steps[2] {
        Step::Apply(ApplyOp::LowerBatch(windows)) => assert_eq!(windows[0].hwnd(), 2),
        _ => panic!("the windows were not queued"),
    }
}

#[test]
fn widgets_have_neither_a_caption_nor_an_edge() {
    let mut meter = facts(1);
    meter.style = Some(0x9000_0000);
    meter.ex_style = Some(0x0008_0080);
    let mut edged = facts(2);
    edged.style = Some(0x9000_0000);
    edged.ex_style = Some(0x0008_0180);
    let mut captioned = facts(3);
    captioned.ex_style = Some(0x0008_0080);
    let windows = desktop(vec![meter, edged, captioned]);
    assert!(Window { hwnd: 1 }.is_widget_window(&windows));
    assert!(!Window { hwnd: 2 }.is_widget_window(&windows));
    assert!(!Window { hwnd: 3 }.is_widget_window(&windows));
    assert!(!Window { hwnd: 4 }.is_widget_window(&windows));
}
