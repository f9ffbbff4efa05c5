use vstd::prelude::*;

use crate::text::same_text;

verus! {

/// The id of the tray icon of the desktop client.
pub const TRAY_ID: &'static str = "main-tray";

/// What a tray interaction asks the desktop client to do.
#[derive(Debug, Clone, Copy, PartialEq, Eq, Structural)]
pub enum TrayAction {
    Nothing,
    ShowMainWindow,
    HideMainWindow,
    Quit,
}

/// How the client is connected to the server, as the tray shows it.
#[derive(Debug, Clone, Copy, PartialEq, Eq, Structural)]
pub enum ConnectionState {
    Offline,
    Connecting,
    Connected,
}

/// The status icon beside the connection label.
#[derive(Debug, Clone, Copy, PartialEq, Eq, Structural)]
pub enum StatusIcon {
    Unavailable,
    PartiallyAvailable,
    Available,
}

/// A mouse button on the tray icon.
#[derive(Debug, Clone, Copy, PartialEq, Eq, Structural)]
pub enum TrayMouseButton {
    Left,
    Right,
    Middle,
}

/// Whether a mouse button went down or up.
#[derive(Debug, Clone, Copy, PartialEq, Eq, Structural)]
pub enum TrayButtonState {
    Down,
    Up,
}

/// The tray icon events that the client tells apart.
#[derive(Debug, Clone, Copy, PartialEq, Eq, Structural)]
pub enum TrayIconEventKind {
    Click { button: TrayMouseButton, button_state: TrayButtonState },
    Other,
}

/// The label and icon of the connection item for `state`.
pub fn connection_indicator(state: ConnectionState) -> (r: (&'static str, StatusIcon))
    ensures
        state == ConnectionState::Offline ==> r.0@ == "Offline"@ && r.1 == StatusIcon::Unavailable,
        state == ConnectionState::Connecting ==> r.0@ == "Connecting..."@ && r.1 == StatusIcon::PartiallyAvailable,
        state == ConnectionState::Connected ==> r.0@ == "Connected"@ && r.1 == StatusIcon::Available,
{
    match state {
        ConnectionState::Offline => ("Offline", StatusIcon::Unavailable),
        ConnectionState::Connecting => ("Connecting...", StatusIcon::PartiallyAvailable),
        ConnectionState::Connected => ("Connected", StatusIcon::Available),
    }
}

/// The action of the tray menu item with id `id`.
pub fn menu_event_action(id: &str) -> (r: TrayAction)
    ensures
        id@ == "tray.open"@ ==> r == TrayAction::ShowMainWindow,
        id@ == "tray.close"@ ==> r == TrayAction::HideMainWindow,
        id@ == "tray.quit"@ ==> r == TrayAction::Quit,
        id@ != "tray.open"@ && id@ != "tray.close"@ && id@ != "tray.quit"@ ==> r == TrayAction::Nothing,
{
    proof {
        reveal_strlit("tray.open");
        reveal_strlit("tray.close");
        reveal_strlit("tray.quit");
        assert("tray.open"@.len() != "tray.close"@.len());
        assert("tray.quit"@.len() != "tray.close"@.len());
        assert("tray.open"@[5] != "tray.quit"@[5]);
    }
    if same_text(id, "tray.open") {
        TrayAction::ShowMainWindow
    } else if same_text(id, "tray.close") {
        TrayAction::HideMainWindow
    } else if same_text(id, "tray.quit") {
        TrayAction::Quit
    } else {
        TrayAction::Nothing
    }
}

/// The action of a tray icon event: releasing the left button shows the window.
pub fn tray_event_action(event: TrayIconEventKind) -> (r: TrayAction)
    ensures
        r == (if event == (TrayIconEventKind::Click { button: TrayMouseButton::Left, button_state: TrayButtonState::Up }) {
            TrayAction::ShowMainWindow
        } else {
            TrayAction::Nothing
        }),
{
    match event {
        TrayIconEventKind::Click { button: TrayMouseButton::Left, button_state: TrayButtonState::Up } => TrayAction::ShowMainWindow,
        _ => TrayAction::Nothing,
    }
}

} // verus!
