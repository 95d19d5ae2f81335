//! The tray icon: its menu and what each of its events does to the window.
use vstd::prelude::*;

verus! {

/// What the tray icon reports.
#[derive(Debug, Clone, Copy, PartialEq, Eq, Structural)]
pub enum TrayEvent {
    Show,
    Quit,
}

/// An entry of the tray menu.
#[derive(Debug, Clone, Copy)]
pub enum TrayMenuEntry {
    /// A labelled entry that reports an event.
    Item(&'static str, TrayEvent),
    Separator,
}

/// The tray menu: show NovaDream, a separator, quit.
pub fn tray_menu() -> (r: Vec<TrayMenuEntry>)
    ensures
        r@.len() == 3,
        r@[0] matches TrayMenuEntry::Item(l, e) && l@ == "Show NovaDream"@ && e == TrayEvent::Show,
        r@[1] is Separator,
        r@[2] matches TrayMenuEntry::Item(l, e) && l@ == "Quit"@ && e == TrayEvent::Quit,
{
    vec![TrayMenuEntry::Item("Show NovaDream", TrayEvent::Show), TrayMenuEntry::Separator,
        TrayMenuEntry::Item("Quit", TrayEvent::Quit)]
}

/// The event a click on the icon itself reports.
pub fn activate_event() -> (r: TrayEvent)
    ensures
        r == TrayEvent::Show,
{
    TrayEvent::Show
}

/// What the main window does.
#[derive(Debug, Clone, Copy, PartialEq, Eq, Structural)]
pub enum WindowAction {
    /// Bring the window up.
    Present,
    /// Close the window and quit the application.
    CloseAndQuit,
    /// Hide the window, keeping the application running.
    Hide,
    /// Let the window close.
    Close,
}

/// What a tray event does to the window.
pub fn on_tray_event(e: TrayEvent) -> (r: WindowAction)
    ensures
        r == (match e {
            TrayEvent::Show => WindowAction::Present,
            TrayEvent::Quit => WindowAction::CloseAndQuit,
        }),
{
    match e {
        TrayEvent::Show => WindowAction::Present,
        TrayEvent::Quit => WindowAction::CloseAndQuit,
    }
}

/// What closing the window does: it hides to the tray when the tray is shown
/// and closing to it is on, and closes otherwise.
pub fn on_close_request(show_tray: bool, close_to_tray: bool) -> (r: WindowAction)
    ensures
        r == (if show_tray && close_to_tray { WindowAction::Hide } else { WindowAction::Close }),
{
    if show_tray && close_to_tray { WindowAction::Hide } else { WindowAction::Close }
}

} // verus!
