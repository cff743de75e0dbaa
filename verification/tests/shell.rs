use freelook::shell::{
    menu_layout, MenuEntry,
    hides_on_close, splash_action, tray_click_shows_main, tray_menu_action, tray_menu_entries,
    unread_icon_sources, FrameSaveThrottle, IconSource, SplashAction, TrayMenuAction,
};

#[test]
fn close_hides_main_and_settings() {
    assert!(hides_on_close("main"));
    assert!(hides_on_close("settings"));
    assert!(!hides_on_close("splash"));
    assert!(!hides_on_close("Main"));
}

#[test]
fn tray_menu() {
    assert_eq!(tray_menu_action("open"), TrayMenuAction::ShowMain);
    assert_eq!(tray_menu_action("refresh"), TrayMenuAction::Refresh);
    assert_eq!(tray_menu_action("settings"), TrayMenuAction::OpenSettings);
    assert_eq!(tray_menu_action("quit"), TrayMenuAction::Quit);
    assert_eq!(tray_menu_action("other"), TrayMenuAction::Ignore);
    let entries = tray_menu_entries();
    assert_eq!(entries.len(), 6);
    assert_eq!(entries[0], Some(("open", "Open")));
    assert_eq!(entries[2], None);
    assert_eq!(entries[5], Some(("quit", "Quit")));
}

#[test]
fn tray_click() {
    assert!(tray_click_shows_main(true, true));
    assert!(!tray_click_shows_main(true, false));
    assert!(!tray_click_shows_main(false, true));
}

#[test]
fn unread_icons() {
    assert_eq!(unread_icon_sources(true, true), vec![IconSource::Asset("outlook_macOS_unread.png")]);
    assert_eq!(unread_icon_sources(true, false), vec![IconSource::Asset("outlook_macOS.png")]);
    assert_eq!(unread_icon_sources(false, true), vec![IconSource::Asset("outlook_linux_unread.png")]);
    assert_eq!(
        unread_icon_sources(false, false),
        vec![IconSource::Bundled("icons/512x512.png"), IconSource::Asset("outlook_macOS.png")]
    );
}

#[test]
fn splash() {
    assert_eq!(splash_action(true), SplashAction::Close);
    assert_eq!(splash_action(false), SplashAction::ReportTimeout);
}

#[test]
fn frame_saves_are_spaced() {
    let mut t = FrameSaveThrottle::new();
    assert!(t.record_save(1000));
    assert!(!t.record_save(1200));
    assert!(!t.record_save(1499));
    assert!(t.record_save(1500));
    // A clock reading before the last save counts as no time passed.
    assert!(!t.record_save(100));
    t.reset();
    assert!(t.record_save(1501));
}

#[test]
fn native_menu_layout() {
    assert!(menu_layout(false).is_empty());
    let m = menu_layout(true);
    assert_eq!(m.len(), 2);
    assert_eq!(m[0].0, "Application");
    assert_eq!(m[0].1, vec![MenuEntry::About, MenuEntry::Separator, MenuEntry::Quit]);
    assert_eq!(m[1].0, "Edit");
    assert_eq!(
        m[1].1,
        vec![
            MenuEntry::Undo,
            MenuEntry::Redo,
            MenuEntry::Separator,
            MenuEntry::Cut,
            MenuEntry::Copy,
            MenuEntry::Paste,
            MenuEntry::Separator,
            MenuEntry::SelectAll
        ]
    );
}
