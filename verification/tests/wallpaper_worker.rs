use komorebi::wallpaper_worker::build_theme;
use komorebi::wallpaper_worker::coalesce;
use komorebi::wallpaper_worker::palette_cache_path;
use komorebi::wallpaper_worker::theme_variant;
use komorebi::wallpaper_worker::Base16Value;
use komorebi::wallpaper_worker::Palette;
use komorebi::wallpaper_worker::ThemeVariant;
use komorebi::wallpaper_worker::Wallpaper;
use komorebi::wallpaper_worker::WallpaperAction;
use komorebi::wallpaper_worker::WallpaperEvent;
use komorebi::wallpaper_worker::WallpaperRequest;
use komorebi::wallpaper_worker::WallpaperTask;
use komorebi::wallpaper_worker::WallpaperTheme;
use komorebi::wallpaper_worker::WallpaperWorker;

const PALETTE: Palette = Palette { handle: 3 };

fn options() -> WallpaperTheme {
    WallpaperTheme {
        theme_variant: Some(ThemeVariant::Light),
        single_border: Some(Base16Value { index: 5 }),
        stack_border: None,
        monocle_border: None,
        floating_border: None,
        pinned_border: None,
        unfocused_border: None,
        unfocused_locked_border: None,
        stackbar_focused_text: None,
        stackbar_unfocused_text: None,
        stackbar_background: None,
        bar_accent: None,
    }
}

fn wallpaper(path: &str) -> Wallpaper {
    Wallpaper {
        path: path.to_string(),
        generate_theme: None,
        theme_options: Some(options()),
    }
}

fn task(path: &str, canonical: Option<&str>) -> WallpaperTask {
    WallpaperTask {
        hmonitor: 1,
        wallpaper: wallpaper(path),
        canonical: canonical.map(str::to_string),
    }
}

#[test]
fn wallpapers_are_shown_and_give_their_colours() {
    let mut worker = WallpaperWorker::new();
    let task = task("sea.png", Some("/pictures/sea.png"));
    assert_eq!(worker.apply(&task, WallpaperEvent::Begun), WallpaperAction::Look);
    let found = WallpaperEvent::Found(Some("/pictures/hill.png".to_string()));
    assert_eq!(worker.apply(&task, found), WallpaperAction::Show);
    assert_eq!(
        worker.apply(&task, WallpaperEvent::Shown(true)),
        WallpaperAction::Paint(ThemeVariant::Light)
    );
    match worker.apply(&task, WallpaperEvent::Painted(Some(PALETTE))) {
        WallpaperAction::Theme(theme) => {
            assert_eq!(theme.colours, PALETTE);
            assert_eq!(theme.single_border, Some(Base16Value { index: 5 }));
            assert_eq!(theme.stack_border, None);
        },
        _ => panic!("there is no theme"),
    }
    assert_eq!(worker.applied[&1], "/pictures/sea.png");
    assert_eq!(worker.apply(&task, WallpaperEvent::Begun), WallpaperAction::Finish);
}

#[test]
fn wallpapers_that_are_shown_already_only_give_their_colours() {
    let mut worker = WallpaperWorker::new();
    let task = task("sea.png", Some("/pictures/sea.png"));
    let found = WallpaperEvent::Found(Some("/pictures/sea.png".to_string()));
    assert_eq!(worker.apply(&task, found), WallpaperAction::Paint(ThemeVariant::Light));
    assert_eq!(worker.apply(&task, WallpaperEvent::Painted(None)), WallpaperAction::Finish);
    assert!(worker.last_themed.is_none());
}

#[test]
fn wallpapers_that_are_not_taken_are_not_noted() {
    let mut worker = WallpaperWorker::new();
    let mut plain = task("sea.png", Some("/pictures/sea.png"));
    plain.wallpaper.generate_theme = Some(false);
    assert_eq!(worker.apply(&plain, WallpaperEvent::Found(None)), WallpaperAction::Show);
    assert_eq!(worker.apply(&plain, WallpaperEvent::Shown(false)), WallpaperAction::Finish);
    assert!(worker.applied.is_empty());
    let missing = task("gone.png", None);
    let _ = worker.apply(&missing, WallpaperEvent::Shown(true));
    assert!(worker.applied.is_empty());
}

#[test]
fn the_last_request_for_a_monitor_counts() {
    let mut requests = vec![];
    for (hmonitor, path) in [(1, "a.png"), (2, "b.png"), (1, "c.png")] {
        let request = WallpaperRequest { hmonitor, wallpaper: wallpaper(path) };
        WallpaperWorker::enqueue(&mut requests, request);
    }
    let batch = coalesce(&requests);
    assert_eq!(batch.len(), 2);
    assert_eq!(batch[&1].path, "c.png");
    assert_eq!(batch[&2].path, "b.png");
}

#[test]
fn palettes_are_kept_by_file_and_variant() {
    let mut plain = wallpaper("sea.png");
    assert_eq!(
        palette_cache_path(Some("sea.png"), theme_variant(&plain)),
        "sea.png.base16.light.json"
    );
    plain.theme_options = None;
    assert_eq!(palette_cache_path(None, theme_variant(&plain)), "tmp.base16.dark.json");
}

#[test]
fn themes_take_the_chosen_colours() {
    let sea = wallpaper("sea.png");
    assert!(sea.is_same(&wallpaper("sea.png")));
    assert!(!sea.is_same(&wallpaper("hill.png")));
    assert_eq!(build_theme(&sea, PALETTE).single_border, Some(Base16Value { index: 5 }));
}
