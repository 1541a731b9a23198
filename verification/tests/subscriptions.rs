use komorebi::socket_message::SocketMessage;
use komorebi::socket_message::SubscribeOptions;
use komorebi::startup::current_virtual_desktop;
use komorebi::startup::load_configuration;
use komorebi::startup::splash_server;
use komorebi::startup::ConfigurationFiles;
use komorebi::startup::ConfigurationRunner;
use komorebi::subscriptions::is_override_event;
use komorebi::subscriptions::is_stale_pipe;
use komorebi::subscriptions::Delivery;
use komorebi::subscriptions::Envelope;
use komorebi::subscriptions::NotificationEvent;
use komorebi::subscriptions::Subscriptions;
use komorebi::subscriptions::VirtualDesktopNotification;
use komorebi::window::Window;
use komorebi::window_manager_event::WinEvent;
use komorebi::window_manager_event::WindowManagerEvent;

fn filtering() -> Subscriptions {
    let mut subscriptions = Subscriptions::new();
    subscriptions.add_socket_with_options(
        &"bar".to_string(),
        SubscribeOptions { filter_state_changes: true },
    );
    subscriptions
}

#[test]
fn nobody_is_told_without_subscribers() {
    let subscriptions = Subscriptions::new();
    assert!(!subscriptions.has_subscribers());
    assert_eq!(
        subscriptions.notify_subscribers(&NotificationEvent::Monitor, true),
        Delivery::Skip
    );
}

#[test]
fn filters_keep_quiet_without_a_change() {
    let mut subscriptions = filtering();
    let event = NotificationEvent::Socket(SocketMessage::Retile);
    assert_eq!(subscriptions.notify_subscribers(&event, false), Delivery::Skip);
    assert_eq!(subscriptions.notify_subscribers(&event, true), Delivery::Coalesce);
    let theme = NotificationEvent::Socket(SocketMessage::Theme);
    assert_eq!(subscriptions.notify_subscribers(&theme, false), Delivery::Supersede);
    subscriptions.add_socket(&"log".to_string());
    assert_eq!(subscriptions.notify_subscribers(&event, false), Delivery::Queue);
    let quiet = Envelope { state_has_been_modified: false, is_override: false };
    assert_eq!(subscriptions.recipients(quiet), vec!["log"]);
    let loud = Envelope { state_has_been_modified: true, is_override: false };
    assert_eq!(subscriptions.recipients(loud), vec!["bar", "log"]);
    subscriptions.remove_socket(&"log".to_string());
    assert_eq!(subscriptions.recipients(loud), vec!["bar"]);
}

#[test]
fn pipes_are_subscribers_too() {
    let mut subscriptions = Subscriptions::new();
    subscriptions.add_pipe(&"pipe".to_string());
    assert!(subscriptions.has_subscribers());
    subscriptions.remove_pipe(&"pipe".to_string());
    assert!(!subscriptions.has_subscribers());
    assert!(is_stale_pipe(Some(2)));
    assert!(is_stale_pipe(Some(232)));
    assert!(!is_stale_pipe(Some(5)));
    assert!(!is_stale_pipe(None));
}

#[test]
fn some_events_are_always_told() {
    let window = Window { hwnd: 1 };
    let event = WinEvent { code: 0 };
    assert!(is_override_event(&NotificationEvent::WindowManager(WindowManagerEvent::Show(
        event, window
    ))));
    assert!(is_override_event(&NotificationEvent::WindowManager(WindowManagerEvent::TitleUpdate(
        event, window
    ))));
    assert!(!is_override_event(&NotificationEvent::WindowManager(
        WindowManagerEvent::FocusChange(event, window)
    )));
    assert!(!is_override_event(&NotificationEvent::VirtualDesktop(
        VirtualDesktopNotification::EnteredAssociatedVirtualDesktop
    )));
}

#[test]
fn the_shown_desktop_is_looked_up_in_two_places() {
    assert_eq!(current_virtual_desktop(Some(vec![1]), Some(vec![2])), Some(vec![1]));
    assert_eq!(current_virtual_desktop(None, Some(vec![2])), Some(vec![2]));
    assert_eq!(current_virtual_desktop(None, None), None);
}

#[test]
fn configurations_are_run_by_what_is_there() {
    let none = ConfigurationFiles {
        has_powershell_script: false,
        has_pwsh: false,
        has_autohotkey_script: false,
        has_autohotkey: false,
    };
    assert_eq!(load_configuration(none), None);
    assert_eq!(
        load_configuration(ConfigurationFiles { has_powershell_script: true, ..none }),
        Some(ConfigurationRunner::PowerShell)
    );
    assert_eq!(
        load_configuration(ConfigurationFiles {
            has_powershell_script: true,
            has_pwsh: true,
            ..none
        }),
        Some(ConfigurationRunner::Pwsh)
    );
    assert_eq!(
        load_configuration(ConfigurationFiles {
            has_autohotkey_script: true,
            has_autohotkey: true,
            ..none
        }),
        Some(ConfigurationRunner::AutoHotkey)
    );
    assert_eq!(
        load_configuration(ConfigurationFiles { has_autohotkey_script: true, ..none }),
        None
    );
}

#[test]
fn notices_are_shown_on_enrolled_devices() {
    let server = Some("server".to_string());
    assert_eq!(splash_server(false, Some(true), server.clone(), false), None);
    assert_eq!(splash_server(true, Some(false), server.clone(), false), None);
    assert_eq!(splash_server(true, None, server.clone(), false), Some(server.clone()));
    assert_eq!(splash_server(true, Some(true), server, true), Some(None));
}
