use komorebi::animation::engine::AnimationEngine;
use komorebi::animation::engine::FrameOutcome;
use komorebi::animation::engine::WaitOutcome;
use komorebi::animation::engine::MAX_MOVEMENT_WAITS;
use komorebi::animation::engine::MAX_WAIT_MS;
use komorebi::animation::manager::AnimationManager;
use komorebi::animation::movement::MovementRenderDispatcher;
use komorebi::animation::settings::AnimationPrefix;
use komorebi::animation::settings::AnimationStyle;
use komorebi::animation::transparency::TransparencyRenderDispatcher;
use komorebi::desktop::Desktop;
use komorebi::desktop::WindowFacts;
use komorebi::error::Error;
use komorebi::focus_manager::handle_notification;
use komorebi::focus_manager::send_notification;
use komorebi::focus_manager::Notification;
use komorebi::geometry::Rect;
use komorebi::plan::Call;
use komorebi::plan::Plan;
use komorebi::plan::Signal;
use komorebi::plan::Step;

const KEY: &str = "movement:1";

fn rect(left: i32, top: i32, right: i32, bottom: i32) -> Rect {
    Rect { left, top, right, bottom }
}

fn facts(hwnd: isize) -> WindowFacts {
    WindowFacts {
        hwnd,
        is_window: true,
        process_id: 1,
        is_visible: true,
        is_shown: true,
        is_maximized: false,
        is_minimized: false,
        is_cloaked: Some(false),
        is_responding: true,
        rect: None,
        title: None,
        exe: None,
        class: None,
        path: None,
        style: Some(0),
        ex_style: Some(0),
        alpha: None,
        monitor: 0,
        monitor_rect: None,
        work_rect: None,
        covers_monitor_area: false,
        covers_work_area: false,
        border: None,
    }
}

fn desktop(windows: Vec<WindowFacts>, foreground: Option<isize>) -> Desktop {
    Desktop { windows, foreground, cursor_window: None, unmanaged: None, now_ms: 0 }
}

#[test]
fn newer_claims_supersede_older_ones() {
    let mut manager = AnimationManager::new();
    let first = manager.request(KEY);
    let second = manager.request(KEY);
    assert!(second > first);
    assert_eq!(manager.latest_claim(KEY), Some(second));
    assert!(!manager.try_start(KEY, first, 0));
    assert!(manager.try_start(KEY, second, 0));
    assert!(manager.is_owner(KEY, second));
    assert!(manager.is_current(KEY, second));
    assert_eq!(manager.observe(KEY, first), (false, true));
}

#[test]
fn claims_wait_for_the_owner() {
    let mut manager = AnimationManager::new();
    let first = manager.request(KEY);
    assert!(manager.try_start(KEY, first, 0));
    let second = manager.request(KEY);
    assert!(!manager.try_start(KEY, second, 10));
    manager.complete(KEY, first);
    assert!(manager.try_start(KEY, second, 20));
}

#[test]
fn stale_owners_lose_the_slot() {
    let mut manager = AnimationManager::new();
    let first = manager.request(KEY);
    assert!(manager.try_start(KEY, first, 0));
    let _ = manager.request(KEY);
    assert!(!manager.takeover_if_stale(KEY, 500, 100));
    assert!(manager.takeover_if_stale(KEY, 500, 501));
    assert!(!manager.is_owner(KEY, first));
}

#[test]
fn ending_animations_keep_the_slot() {
    let mut manager = AnimationManager::new();
    let first = manager.request(KEY);
    assert!(manager.try_start(KEY, first, 0));
    assert!(manager.mark_post_render(KEY, first));
    let _ = manager.request(KEY);
    assert!(!manager.takeover_if_stale(KEY, 500, 10_000));
    assert!(manager.is_owner(KEY, first));
}

#[test]
fn animations_in_progress_are_counted_by_kind() {
    let mut manager = AnimationManager::new();
    let movement = manager.request("movement:1");
    let transparency = manager.request("transparency:1");
    assert!(manager.try_start("movement:1", movement, 0));
    assert!(manager.try_start("transparency:1", transparency, 0));
    assert_eq!(manager.count_in_progress(AnimationPrefix::Movement), 1);
    assert_eq!(manager.count_in_progress(AnimationPrefix::Transparency), 1);
    assert_eq!(manager.count(), 2);
    manager.complete("movement:1", movement);
    assert_eq!(manager.count_in_progress(AnimationPrefix::Movement), 0);
}

#[test]
fn waiting_starts_gives_up_or_goes_on() {
    let mut manager = AnimationManager::new();
    let first = manager.request(KEY);
    assert_eq!(AnimationEngine::wait(&mut manager, KEY, first, 500, 0), WaitOutcome::Started);
    let second = manager.request(KEY);
    assert_eq!(AnimationEngine::wait(&mut manager, KEY, first, 500, 10), WaitOutcome::Superseded);
    assert_eq!(AnimationEngine::wait(&mut manager, KEY, second, 500, 10), WaitOutcome::Pending);
    assert_eq!(AnimationEngine::next_frame(&manager, KEY, first), FrameOutcome::CleanUp);
    assert_eq!(AnimationEngine::wait(&mut manager, KEY, second, 500, 600), WaitOutcome::Started);
    assert_eq!(AnimationEngine::next_frame(&manager, KEY, first), FrameOutcome::Abandon);
    assert_eq!(AnimationEngine::next_frame(&manager, KEY, second), FrameOutcome::Render);
}

#[test]
fn frames_have_their_time() {
    assert_eq!(AnimationEngine::frame_time(60), 16);
    assert_eq!(AnimationEngine::wait_after_frame(16, 10), 6);
    assert_eq!(AnimationEngine::wait_after_frame(16, 20), 0);
    assert!(AnimationEngine::has_next_frame(10, 250));
    assert!(!AnimationEngine::has_next_frame(250, 250));
    assert!(AnimationEngine::keeps_waiting(1, 0));
    assert!(!AnimationEngine::keeps_waiting(0, 0));
    assert!(!AnimationEngine::keeps_waiting(1, MAX_WAIT_MS));
}

#[test]
fn movements_without_a_ghost_move_the_window() {
    let start = rect(0, 0, 100, 100);
    let target = rect(50, 0, 100, 100);
    let style = AnimationStyle { curve: 0 };
    let mut movement = MovementRenderDispatcher::new(1, start, target, false, style);
    let mut plan = Plan::new();
    assert!(movement.pre_render(false, None, &mut plan).is_none());
    let mut frames = Plan::new();
    assert_eq!(movement.render(rect(25, 0, 100, 100), &mut frames), None);
    assert!(!frames.steps.is_empty());
    let mut end = Plan::new();
    let ghost = movement.post_render(true, &mut end);
    assert!(!ghost.disposes);
    assert!(!end.steps.is_empty());
}

#[test]
fn superseded_movements_leave_the_window_alone() {
    let style = AnimationStyle { curve: 0 };
    let mut movement =
        MovementRenderDispatcher::new(1, rect(0, 0, 10, 10), rect(5, 0, 10, 10), false, style);
    assert!(!movement.on_superseded());
}

#[test]
fn the_cursor_follows_when_movements_are_over() {
    let style = AnimationStyle { curve: 0 };
    let target = rect(50, 0, 100, 100);
    let movement = MovementRenderDispatcher::new(1, rect(0, 0, 100, 100), target, false, style);
    let mut plan = Plan::new();
    movement.finalise_managers(target, 0, Some(1), &mut plan);
    assert!(matches!(
        plan.steps[0],
        Step::Send(Signal::FollowFocus(1, Some(Rect { left: 50, top: 0, right: 100, bottom: 100 })))
    ));
    let mut busy = Plan::new();
    movement.finalise_managers(target, 1, Some(1), &mut busy);
    assert!(busy.steps.is_empty());
}

#[test]
fn fading_windows_are_layered() {
    let style = AnimationStyle { curve: 0 };
    let fade = TransparencyRenderDispatcher::new(1, false, 255, 200, style);
    let seen = desktop(vec![facts(1)], None);
    let mut plan = Plan::new();
    assert_eq!(fade.pre_render(&seen, &mut plan), Ok(()));
    assert!(matches!(plan.steps[0], Step::Do(Call::UpdateExStyle(1, 0x0008_0000))));
    fade.render(220, &mut plan);
    assert!(matches!(plan.steps[1], Step::Do(Call::SetTransparent(1, 220))));
    let mut failed = Plan::new();
    assert_eq!(
        fade.pre_render(&desktop(vec![], None), &mut failed),
        Err(Error::WindowSystem)
    );
}

#[test]
fn the_cursor_follows_the_foreground() {
    let target = rect(0, 0, 10, 10);
    let notification = Notification { hwnd: 1, rect: Some(target) };
    let seen = desktop(vec![facts(1)], Some(1));
    let mut plan = Plan::new();
    handle_notification(notification, true, &seen, &mut plan);
    assert!(matches!(plan.steps[0], Step::Try(Call::CenterCursorInRect(_), None)));

    let mut quiet = Plan::new();
    handle_notification(notification, false, &seen, &mut quiet);
    handle_notification(notification, true, &desktop(vec![facts(1)], Some(2)), &mut quiet);
    handle_notification(notification, true, &desktop(vec![], Some(1)), &mut quiet);
    handle_notification(Notification { hwnd: 1, rect: None }, true, &seen, &mut quiet);
    assert!(quiet.steps.is_empty());

    send_notification(1, None, &mut quiet);
    assert!(matches!(quiet.steps[0], Step::Send(Signal::FollowFocus(1, None))));
}

#[test]
fn tokens_of_a_key_are_never_given_out_twice() {
    let mut manager = AnimationManager::new();
    let first = manager.request(KEY);
    assert_eq!(first, 1);
    assert!(manager.try_start(KEY, first, 0));
    manager.complete(KEY, first);
    assert_eq!(manager.count(), 0);
    assert_eq!(manager.observe(KEY, first), (true, false));
    assert!(!manager.try_start(KEY, first, 1));

    let second = manager.request(KEY);
    assert!(second > first);
    assert!(!manager.observe(KEY, first).0);
    assert!(!manager.try_start(KEY, first, 2));
    assert!(!manager.is_current(KEY, first));
    assert!(manager.try_start(KEY, second, 3));
    assert_eq!(manager.count(), 1);
    assert!(manager.can_request(KEY));
}

#[test]
fn idle_keys_are_forgotten_and_their_tokens_are_not() {
    let mut manager = AnimationManager::new();
    assert_eq!(manager.request(KEY), 1);
    assert_eq!(manager.request("movement:2"), 1);
    assert_eq!(manager.request(KEY), 2);
    assert!(manager.try_start(KEY, 2, 0));
    manager.complete(KEY, 2);
    assert_eq!(manager.count(), 1);
    assert_eq!(manager.latest_claim(KEY), None);
    assert_eq!(manager.latest_claim("movement:2"), Some(1));
    assert_eq!(manager.observe(KEY, 1), (true, false));
    assert_eq!(manager.observe(KEY, 7), (true, false));
    assert_eq!(manager.request(KEY), 3);
    assert_eq!(manager.request("movement:2"), 2);
    assert_eq!(manager.request("movement:3"), 3);
    assert_eq!(manager.count(), 3);
    assert!(manager.try_start("movement:2", 2, 0));
    manager.complete("movement:2", 2);
    assert_eq!(manager.request("movement:2"), 3);
}

#[test]
fn claims_leave_the_slot_as_it_is() {
    let mut manager = AnimationManager::new();
    let owner = manager.request(KEY);
    assert!(manager.try_start(KEY, owner, 0));
    let first = manager.request(KEY);
    let second = manager.request(KEY);
    assert_eq!(second, first + 1);
    assert_eq!(manager.observe(KEY, second), (true, true));
    assert_eq!(manager.observe(KEY, first), (false, true));
    assert!(manager.is_owner(KEY, owner));
}

#[test]
fn the_takeover_budget_follows_the_duration() {
    assert_eq!(AnimationEngine::takeover_budget(0), 1000);
    assert_eq!(AnimationEngine::takeover_budget(250), 1000);
    assert_eq!(AnimationEngine::takeover_budget(251), 1004);
    assert_eq!(AnimationEngine::takeover_budget(u64::MAX), u64::MAX);
}

#[test]
fn runners_that_lost_the_slot_do_not_end_their_successor() {
    let mut manager = AnimationManager::default();
    let first = manager.request(KEY);
    assert!(manager.try_start(KEY, first, 0));
    let second = manager.request(KEY);
    assert!(manager.takeover_if_stale(KEY, 500, 501));
    assert_eq!(manager.latest_claim(KEY), Some(second));
    assert!(manager.try_start(KEY, second, 510));
    manager.complete(KEY, first);
    manager.complete(KEY, 0);
    assert!(manager.is_current(KEY, second));
    manager.complete(KEY, second);
    let third = manager.request(KEY);
    assert!(third > second);
    assert!(!manager.is_owner(KEY, first));
    manager.complete(KEY, first);
    assert_eq!(manager.observe(KEY, third), (true, false));
}

#[test]
fn claims_that_were_superseded_before_the_end_keep_the_key() {
    let mut manager = AnimationManager::new();
    let first = manager.request(KEY);
    assert!(manager.try_start(KEY, first, 0));
    let second = manager.request(KEY);
    assert!(!manager.is_current(KEY, first));
    manager.complete(KEY, first);
    assert_eq!(manager.count(), 1);
    assert_eq!(manager.latest_claim(KEY), Some(second));
    assert_eq!(manager.count_in_progress(AnimationPrefix::Movement), 0);
}

#[test]
fn waiters_give_up_after_the_newest_claim_is_done() {
    let mut manager = AnimationManager::new();
    let first = manager.request(KEY);
    let second = manager.request(KEY);
    assert!(manager.try_start(KEY, second, 0));
    manager.complete(KEY, second);
    assert_eq!(AnimationEngine::wait(&mut manager, KEY, first, 500, 10), WaitOutcome::Superseded);
}

#[test]
fn movements_are_waited_for_only_so_long() {
    assert!(AnimationEngine::waits_for_movement(2, 1, 0));
    assert!(!AnimationEngine::waits_for_movement(1, 1, 0));
    assert!(!AnimationEngine::waits_for_movement(2, 1, MAX_MOVEMENT_WAITS));
}
