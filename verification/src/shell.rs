//! Decisions of the desktop shell around the mail view: the tray menu, the
//! tray icon, closing to the tray, the splash screen, and how often the window
//! frame is saved.

use vstd::prelude::*;
use crate::text::{to_chars, eq_lit};

verus! {

/// A window with this label hides (the app keeps running in the tray) when
/// its close button is pressed.
pub open spec fn spec_hides_on_close(label: Seq<char>) -> bool {
    label == "main"@ || label == "settings"@
}

/// Whether closing the window `label` hides it instead of closing it.
pub fn hides_on_close(label: &str) -> (r: bool)
    ensures
        r == spec_hides_on_close(label@),
{
    let l = to_chars(label);
    eq_lit(&l, "main") || eq_lit(&l, "settings")
}

/// What an entry of the tray menu does.
#[derive(PartialEq, Eq, Structural, Debug, Clone, Copy)]
pub enum TrayMenuAction {
    /// Show and focus the mail window.
    ShowMain,
    /// Reload the mail page.
    Refresh,
    /// Open the settings window.
    OpenSettings,
    /// Quit the app.
    Quit,
    /// Nothing.
    Ignore,
}

pub open spec fn spec_tray_menu_action(id: Seq<char>) -> TrayMenuAction {
    if id == "open"@ {
        TrayMenuAction::ShowMain
    } else if id == "refresh"@ {
        TrayMenuAction::Refresh
    } else if id == "settings"@ {
        TrayMenuAction::OpenSettings
    } else if id == "quit"@ {
        TrayMenuAction::Quit
    } else {
        TrayMenuAction::Ignore
    }
}

/// The action of the tray menu entry with identifier `id`.
pub fn tray_menu_action(id: &str) -> (r: TrayMenuAction)
    ensures
        r == spec_tray_menu_action(id@),
{
    let i = to_chars(id);
    if eq_lit(&i, "open") {
        TrayMenuAction::ShowMain
    } else if eq_lit(&i, "refresh") {
        TrayMenuAction::Refresh
    } else if eq_lit(&i, "settings") {
        TrayMenuAction::OpenSettings
    } else if eq_lit(&i, "quit") {
        TrayMenuAction::Quit
    } else {
        TrayMenuAction::Ignore
    }
}

/// The tray menu entries, by identifier and label, in order; `None` stands
/// for a separator.
pub fn tray_menu_entries() -> (r: Vec<Option<(&'static str, &'static str)>>)
    ensures
        r@.len() == 6,
        r@[0] == Some(("open", "Open")),
        r@[1] == Some(("refresh", "Refresh")),
        r@[2] is None,
        r@[3] == Some(("settings", "Settings")),
        r@[4] is None,
        r@[5] == Some(("quit", "Quit")),
{
    let mut r: Vec<Option<(&'static str, &'static str)>> = Vec::new();
    r.push(Some(("open", "Open")));
    r.push(Some(("refresh", "Refresh")));
    r.push(None);
    r.push(Some(("settings", "Settings")));
    r.push(None);
    r.push(Some(("quit", "Quit")));
    r
}

/// A click on the tray icon shows the mail window when it is the release of
/// the left button.
pub fn tray_click_shows_main(left_button: bool, button_released: bool) -> (r: bool)
    ensures
        r == (left_button && button_released),
{
    left_button && button_released
}

/// Where a tray icon image is looked up.
#[derive(PartialEq, Eq, Debug, Clone, Copy)]
pub enum IconSource {
    /// A file of the app's asset folder, found among the resource candidates.
    Asset(&'static str),
    /// A file resolved directly in the app's resource folder.
    Bundled(&'static str),
}

pub open spec fn spec_unread_icon_sources(is_macos: bool, has_unread: bool) -> Seq<IconSource> {
    if is_macos {
        if has_unread {
            seq![IconSource::Asset("outlook_macOS_unread.png")]
        } else {
            seq![IconSource::Asset("outlook_macOS.png")]
        }
    } else if has_unread {
        seq![IconSource::Asset("outlook_linux_unread.png")]
    } else {
        seq![IconSource::Bundled("icons/512x512.png"), IconSource::Asset("outlook_macOS.png")]
    }
}

/// The tray icon images to try, in order, when the unread state changes; the
/// first that loads is shown.
pub fn unread_icon_sources(is_macos: bool, has_unread: bool) -> (r: Vec<IconSource>)
    ensures
        r@ == spec_unread_icon_sources(is_macos, has_unread),
{
    let mut r: Vec<IconSource> = Vec::new();
    if is_macos {
        if has_unread {
            r.push(IconSource::Asset("outlook_macOS_unread.png"));
        } else {
            r.push(IconSource::Asset("outlook_macOS.png"));
        }
    } else if has_unread {
        r.push(IconSource::Asset("outlook_linux_unread.png"));
    } else {
        r.push(IconSource::Bundled("icons/512x512.png"));
        r.push(IconSource::Asset("outlook_macOS.png"));
    }
    r
}

/// What happens to the splash screen once the network probe has answered.
#[derive(PartialEq, Eq, Structural, Debug, Clone, Copy)]
pub enum SplashAction {
    /// The mail service is reachable: close the splash screen.
    Close,
    /// It is not: tell the splash screen to offer a reconnect.
    ReportTimeout,
}

/// The splash screen closes when the mail service answered, and offers a
/// reconnect when it did not.
pub fn splash_action(online: bool) -> (r: SplashAction)
    ensures
        r == (if online { SplashAction::Close } else { SplashAction::ReportTimeout }),
{
    if online {
        SplashAction::Close
    } else {
        SplashAction::ReportTimeout
    }
}

/// The least time between two saves of the window frame, in milliseconds.
pub open spec fn frame_save_interval_ms() -> nat {
    500
}

/// Limits how often the window frame is written to the settings.
pub struct FrameSaveThrottle {
    last_save_ms: Option<u128>,
}

impl View for FrameSaveThrottle {
    type V = Option<nat>;

    closed spec fn view(&self) -> Option<nat> {
        match self.last_save_ms {
            Some(t) => Some(t as nat),
            None => None,
        }
    }
}

/// A save at `now` goes ahead unless the last one was less than 500 ms
/// earlier; a clock reading before the last save counts as no time passed.
pub open spec fn save_allowed(last: Option<nat>, now: nat) -> bool {
    match last {
        Some(prev) => now >= prev + frame_save_interval_ms(),
        None => true,
    }
}

impl FrameSaveThrottle {
    /// No save recorded yet.
    pub fn new() -> (r: FrameSaveThrottle)
        ensures
            r@ is None,
    {
        FrameSaveThrottle { last_save_ms: None }
    }

    /// Asks to save the frame at time `now_ms` (milliseconds on a monotonic
    /// clock); records the save when it is allowed.
    pub fn record_save(&mut self, now_ms: u128) -> (r: bool)
        ensures
            r == save_allowed(old(self)@, now_ms as nat),
            final(self)@ == (if r { Some(now_ms as nat) } else { old(self)@ }),
    {
        match self.last_save_ms {
            Some(prev) => {
                let elapsed: u128 = if now_ms >= prev { now_ms - prev } else { 0 };
                if elapsed < 500 {
                    return false;
                }
            },
            None => {},
        }
        self.last_save_ms = Some(now_ms);
        true
    }

    /// Forgets the last save, so that the next save goes ahead.
    pub fn reset(&mut self)
        ensures
            final(self)@ is None,
    {
        self.last_save_ms = None;
    }
}

/// Two saves are at least 500 ms apart: after a save at `t`, no save is
/// allowed before `t + 500`.
pub proof fn lemma_saves_are_spaced(t: nat, later: nat)
    requires
        later < t + frame_save_interval_ms(),
    ensures
        !save_allowed(Some(t), later),
{
}

/// After a reset the next save always goes ahead.
pub proof fn lemma_reset_allows_save(now: nat)
    ensures
        save_allowed(None, now),
{
}

/// An entry of the native application menu.
#[derive(PartialEq, Eq, Structural, Debug, Clone, Copy)]
pub enum MenuEntry {
    About,
    Quit,
    Undo,
    Redo,
    Cut,
    Copy,
    Paste,
    SelectAll,
    Separator,
}

/// The submenus of the native menu: on macOS an "Application" menu (About
/// Freelook, Quit) and an "Edit" menu with the standard editing commands;
/// elsewhere the default, empty menu.
pub open spec fn spec_menu_layout(is_macos: bool) -> Seq<(Seq<char>, Seq<MenuEntry>)> {
    if is_macos {
        seq![
            ("Application"@, seq![MenuEntry::About, MenuEntry::Separator, MenuEntry::Quit]),
            ("Edit"@, seq![
                MenuEntry::Undo,
                MenuEntry::Redo,
                MenuEntry::Separator,
                MenuEntry::Cut,
                MenuEntry::Copy,
                MenuEntry::Paste,
                MenuEntry::Separator,
                MenuEntry::SelectAll,
            ]),
        ]
    } else {
        Seq::empty()
    }
}

pub open spec fn layout_view(v: Seq<(&'static str, Vec<MenuEntry>)>) -> Seq<(Seq<char>, Seq<MenuEntry>)> {
    v.map_values(|m: (&'static str, Vec<MenuEntry>)| (m.0@, m.1@))
}

/// The submenus of the native menu, by title, with their entries in order.
pub fn menu_layout(is_macos: bool) -> (r: Vec<(&'static str, Vec<MenuEntry>)>)
    ensures
        layout_view(r@) == spec_menu_layout(is_macos),
{
    let mut r: Vec<(&'static str, Vec<MenuEntry>)> = Vec::new();
    if is_macos {
        let mut app: Vec<MenuEntry> = Vec::new();
        app.push(MenuEntry::About);
        app.push(MenuEntry::Separator);
        app.push(MenuEntry::Quit);
        let mut edit: Vec<MenuEntry> = Vec::new();
        edit.push(MenuEntry::Undo);
        edit.push(MenuEntry::Redo);
        edit.push(MenuEntry::Separator);
        edit.push(MenuEntry::Cut);
        edit.push(MenuEntry::Copy);
        edit.push(MenuEntry::Paste);
        edit.push(MenuEntry::Separator);
        edit.push(MenuEntry::SelectAll);
        assert(app@ =~= seq![MenuEntry::About, MenuEntry::Separator, MenuEntry::Quit]);
        assert(edit@ =~= seq![
            MenuEntry::Undo,
            MenuEntry::Redo,
            MenuEntry::Separator,
            MenuEntry::Cut,
            MenuEntry::Copy,
            MenuEntry::Paste,
            MenuEntry::Separator,
            MenuEntry::SelectAll,
        ]);
        r.push(("Application", app));
        r.push(("Edit", edit));
        assert(layout_view(r@)[0] == spec_menu_layout(is_macos)[0]);
        assert(layout_view(r@)[1] == spec_menu_layout(is_macos)[1]);
        assert(layout_view(r@) =~= spec_menu_layout(is_macos));
    } else {
        assert(layout_view(r@) =~= spec_menu_layout(is_macos));
    }
    r
}

/// Closing to the tray, written out: the mail window ("main") and the
/// settings window hide when closed; every other window closes.
pub proof fn lemma_close_to_tray_written_out(label: Seq<char>)
    ensures
        spec_hides_on_close(label) <==> (label == "main"@ || label == "settings"@),
{
}

/// The tray menu, written out: "open" shows the mail window, "refresh"
/// reloads it, "settings" opens the settings, "quit" quits, anything else does
/// nothing.
pub proof fn lemma_tray_menu_written_out(id: Seq<char>)
    ensures
        id == "open"@ ==> spec_tray_menu_action(id) == TrayMenuAction::ShowMain,
        id == "refresh"@ ==> spec_tray_menu_action(id) == TrayMenuAction::Refresh,
        id == "settings"@ ==> spec_tray_menu_action(id) == TrayMenuAction::OpenSettings,
        id == "quit"@ ==> spec_tray_menu_action(id) == TrayMenuAction::Quit,
        id != "open"@ && id != "refresh"@ && id != "settings"@ && id != "quit"@
            ==> spec_tray_menu_action(id) == TrayMenuAction::Ignore,
{
    reveal_strlit("open");
    reveal_strlit("refresh");
    reveal_strlit("settings");
    reveal_strlit("quit");
    assert("open"@.len() != "refresh"@.len());
    assert("open"@.len() != "settings"@.len());
    assert("open"@[0] != "quit"@[0]);
    assert("refresh"@.len() != "settings"@.len());
    assert("refresh"@.len() != "quit"@.len());
    assert("settings"@.len() != "quit"@.len());
}

/// The unread indicator, written out: on macOS the unread or the plain Outlook
/// template icon; elsewhere the Linux unread icon, or else the app icon with
/// the plain Outlook icon as fallback.
pub proof fn lemma_unread_icons_written_out(is_macos: bool, has_unread: bool)
    ensures
        is_macos && has_unread ==> spec_unread_icon_sources(is_macos, has_unread) == seq![IconSource::Asset("outlook_macOS_unread.png")],
        is_macos && !has_unread ==> spec_unread_icon_sources(is_macos, has_unread) == seq![IconSource::Asset("outlook_macOS.png")],
        !is_macos && has_unread ==> spec_unread_icon_sources(is_macos, has_unread) == seq![IconSource::Asset("outlook_linux_unread.png")],
        !is_macos && !has_unread ==> spec_unread_icon_sources(is_macos, has_unread) == seq![
            IconSource::Bundled("icons/512x512.png"),
            IconSource::Asset("outlook_macOS.png"),
        ],
{
}

/// The frame-save limit, written out: with no save recorded a save goes
/// ahead; after a save at `t`, a save at `now` goes ahead exactly when `now`
/// is at least `t + 500` milliseconds.
pub proof fn lemma_frame_save_limit_written_out(t: nat, now: nat)
    ensures
        save_allowed(None, now),
        save_allowed(Some(t), now) <==> now >= t + 500,
{
}

} // verus!
