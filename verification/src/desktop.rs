use vstd::prelude::*;

use crate::text::same_text;

verus! {

/// What a tray menu choice asks the native desktop client to do.
#[derive(Debug, Clone, Copy, PartialEq, Eq, Structural)]
pub enum TrayAction {
    Nothing,
    OpenWindow,
    /// Show logs was switched; the new setting.
    ToggleLogs(bool),
    Quit,
}

/// The ids that the tray menu gave its items.
#[derive(Debug, Clone)]
pub struct TrayMenuIds {
    pub open: String,
    pub show_logs: String,
    pub debug_hello: String,
    pub debug_state: String,
    pub quit: String,
}

/// Which tray menu item an event names.
#[derive(Debug, Clone, Copy, PartialEq, Eq, Structural)]
pub enum MenuSelection {
    Open,
    ShowLogs,
    DebugHello,
    DebugState,
    Quit,
    Unknown,
}

/// The item that `id` names; items are tried in menu order, so the first
/// item with that id wins.
pub open spec fn spec_menu_selection(ids: TrayMenuIds, id: Seq<char>) -> MenuSelection {
    if id == ids.open@ {
        MenuSelection::Open
    } else if id == ids.show_logs@ {
        MenuSelection::ShowLogs
    } else if id == ids.debug_hello@ {
        MenuSelection::DebugHello
    } else if id == ids.debug_state@ {
        MenuSelection::DebugState
    } else if id == ids.quit@ {
        MenuSelection::Quit
    } else {
        MenuSelection::Unknown
    }
}

/// Which tray menu item the event with id `id` names.
pub fn menu_selection(ids: &TrayMenuIds, id: &str) -> (r: MenuSelection)
    ensures
        r == spec_menu_selection(*ids, id@),
{
    if same_text(id, ids.open.as_str()) {
        MenuSelection::Open
    } else if same_text(id, ids.show_logs.as_str()) {
        MenuSelection::ShowLogs
    } else if same_text(id, ids.debug_hello.as_str()) {
        MenuSelection::DebugHello
    } else if same_text(id, ids.debug_state.as_str()) {
        MenuSelection::DebugState
    } else if same_text(id, ids.quit.as_str()) {
        MenuSelection::Quit
    } else {
        MenuSelection::Unknown
    }
}

/// The action of a menu choice when show logs is ticked or not.
pub open spec fn spec_menu_action(selection: MenuSelection, show_logs_checked: bool) -> TrayAction {
    match selection {
        MenuSelection::Open => TrayAction::OpenWindow,
        MenuSelection::ShowLogs => TrayAction::ToggleLogs(!show_logs_checked),
        MenuSelection::Quit => TrayAction::Quit,
        _ => TrayAction::Nothing,
    }
}

/// The action of a menu choice; `show_logs_checked` is whether show logs is
/// ticked now, and choosing it flips it.
pub fn menu_action(selection: MenuSelection, show_logs_checked: bool) -> (r: TrayAction)
    ensures
        r == spec_menu_action(selection, show_logs_checked),
{
    match selection {
        MenuSelection::Open => TrayAction::OpenWindow,
        MenuSelection::ShowLogs => TrayAction::ToggleLogs(!show_logs_checked),
        MenuSelection::Quit => TrayAction::Quit,
        _ => TrayAction::Nothing,
    }
}

/// Whether the five ids are pairwise different, as the ids that a menu
/// hands out to its items are.
pub open spec fn ids_distinct(ids: TrayMenuIds) -> bool {
    &&& ids.open@ != ids.show_logs@
    &&& ids.open@ != ids.debug_hello@
    &&& ids.open@ != ids.debug_state@
    &&& ids.open@ != ids.quit@
    &&& ids.show_logs@ != ids.debug_hello@
    &&& ids.show_logs@ != ids.debug_state@
    &&& ids.show_logs@ != ids.quit@
    &&& ids.debug_hello@ != ids.debug_state@
    &&& ids.debug_hello@ != ids.quit@
    &&& ids.debug_state@ != ids.quit@
}

/// Whether show logs is ticked after a choice: choosing it flips it.
pub open spec fn checked_after(selection: MenuSelection, show_logs_checked: bool) -> bool {
    if selection == MenuSelection::ShowLogs { !show_logs_checked } else { show_logs_checked }
}

/// The menu, by its ids and whether show logs is ticked, after the event
/// with id `id`, and the action the event asks for.
pub open spec fn menu_step(menu: (TrayMenuIds, bool), id: Seq<char>) -> ((TrayMenuIds, bool), TrayAction) {
    let selection = spec_menu_selection(menu.0, id);
    ((menu.0, checked_after(selection, menu.1)), spec_menu_action(selection, menu.1))
}

/// The tray menu: the ids of its items, which differ from one another, and
/// whether show logs is ticked.
#[derive(Debug)]
pub struct TrayMenu {
    ids: TrayMenuIds,
    show_logs_checked: bool,
}

impl View for TrayMenu {
    type V = (TrayMenuIds, bool);

    closed spec fn view(&self) -> (TrayMenuIds, bool) {
        (self.ids, self.show_logs_checked)
    }
}

impl TrayMenu {
    #[verifier::type_invariant]
    spec fn distinct_items(self) -> bool {
        ids_distinct(self.ids)
    }

    /// The menu with items of ids `ids`; show logs starts ticked.
    pub fn new(ids: TrayMenuIds) -> (r: Self)
        requires
            ids_distinct(ids),
        ensures
            r@ == (ids, true),
    {
        TrayMenu { ids, show_logs_checked: true }
    }

    /// The ids of the items.
    pub fn ids(&self) -> (r: &TrayMenuIds)
        ensures
            *r == self@.0,
            ids_distinct(*r),
    {
        proof {
            use_type_invariant(self);
        }
        &self.ids
    }

    /// Whether show logs is ticked.
    pub fn show_logs_checked(&self) -> (r: bool)
        ensures
            r == self@.1,
    {
        self.show_logs_checked
    }

    /// An event of the tray icon itself asks for nothing.
    pub fn handle_tray_event(&self) -> (r: TrayAction)
        ensures
            r == TrayAction::Nothing,
    {
        TrayAction::Nothing
    }

    /// Handles the menu event with id `id`: the action it asks for; choosing
    /// show logs flips its tick, which the caller shows on the menu item.
    pub fn handle_menu_event(&mut self, id: &str) -> (r: TrayAction)
        ensures
            ids_distinct(old(self)@.0),
            (final(self)@, r) == menu_step(old(self)@, id@),
            final(self)@.0 == old(self)@.0,
            id@ == old(self)@.0.open@ ==> r == TrayAction::OpenWindow && final(self)@.1 == old(self)@.1,
            id@ == old(self)@.0.show_logs@ ==> r == TrayAction::ToggleLogs(!old(self)@.1) && final(self)@.1
                == !old(self)@.1,
            id@ == old(self)@.0.debug_hello@ ==> r == TrayAction::Nothing && final(self)@.1 == old(self)@.1,
            id@ == old(self)@.0.debug_state@ ==> r == TrayAction::Nothing && final(self)@.1 == old(self)@.1,
            id@ == old(self)@.0.quit@ ==> r == TrayAction::Quit && final(self)@.1 == old(self)@.1,
            spec_menu_selection(old(self)@.0, id@) == MenuSelection::Unknown ==> r == TrayAction::Nothing
                && final(self)@.1 == old(self)@.1,
    {
        proof {
            use_type_invariant(&*self);
        }
        let selection = menu_selection(&self.ids, id);
        let action = menu_action(selection, self.show_logs_checked);
        if selection == MenuSelection::ShowLogs {
            self.show_logs_checked = !self.show_logs_checked;
        }
        action
    }
}

/// Choosing show logs twice restores its tick: an event with the show-logs
/// id asks to switch to the other setting and flips the tick; a second such
/// event asks to switch back and leaves the menu as it was.
pub proof fn law_show_logs_twice_restores(menu: (TrayMenuIds, bool), id: Seq<char>)
    requires
        ids_distinct(menu.0),
        id == menu.0.show_logs@,
    ensures
        menu_step(menu, id).1 == TrayAction::ToggleLogs(!menu.1),
        menu_step(menu, id).0 == (menu.0, !menu.1),
        menu_step(menu_step(menu, id).0, id).1 == TrayAction::ToggleLogs(menu.1),
        menu_step(menu_step(menu, id).0, id).0 == menu,
{
}

/// The side of the fallback tray icon, in pixels.
pub const FALLBACK_ICON_SIDE: u32 = 22;

/// The fallback tray icon: an opaque white square of RGBA pixels.
pub fn fallback_icon_rgba() -> (r: Vec<u8>)
    ensures
        r@.len() == FALLBACK_ICON_SIDE * FALLBACK_ICON_SIDE * 4,
        forall|i: int| 0 <= i < r@.len() ==> #[trigger] r@[i] == 255u8,
{
    let pixels: usize = 22 * 22;
    let mut rgba: Vec<u8> = Vec::with_capacity(pixels * 4);
    let mut p: usize = 0;
    while p < pixels
        invariant
            pixels == 484,
            p <= pixels,
            rgba@.len() == 4 * p,
            forall|i: int| 0 <= i < rgba@.len() ==> #[trigger] rgba@[i] == 255u8,
        decreases pixels - p,
    {
        rgba.push(255);
        rgba.push(255);
        rgba.push(255);
        rgba.push(255);
        p = p + 1;
    }
    rgba
}

/// The side the tray icon is scaled to: 32 pixels on macOS, 48 elsewhere.
pub fn icon_target_size(is_macos: bool) -> (r: u32)
    ensures
        r == (if is_macos { 32u32 } else { 48u32 }),
{
    if is_macos { 32 } else { 48 }
}

/// A mouse button of the window system.
#[derive(Debug, Clone, Copy, PartialEq, Eq, Structural)]
pub enum MouseButton {
    Left,
    Right,
    Middle,
    Other,
}

/// A pointer button of the user interface.
#[derive(Debug, Clone, Copy, PartialEq, Eq, Structural)]
pub enum PointerButton {
    Primary,
    Secondary,
    Middle,
}

/// The interface button for a window-system button; other buttons have none.
pub open spec fn spec_map_mouse_button(button: MouseButton) -> Option<PointerButton> {
    match button {
        MouseButton::Left => Some(PointerButton::Primary),
        MouseButton::Right => Some(PointerButton::Secondary),
        MouseButton::Middle => Some(PointerButton::Middle),
        MouseButton::Other => None,
    }
}

/// The interface button for a window-system button; other buttons have none.
pub fn map_mouse_button(button: MouseButton) -> (r: Option<PointerButton>)
    ensures
        r == spec_map_mouse_button(button),
{
    match button {
        MouseButton::Left => Some(PointerButton::Primary),
        MouseButton::Right => Some(PointerButton::Secondary),
        MouseButton::Middle => Some(PointerButton::Middle),
        MouseButton::Other => None,
    }
}

/// A frame is drawn: the window is shown and was asked for one.
pub open spec fn draws(w: WindowState) -> bool {
    w.visible && w.needs_redraw
}

/// The window after a redraw: a drawn frame answers the request.
pub open spec fn after_redraw(w: WindowState) -> WindowState {
    WindowState { needs_redraw: w.needs_redraw && !draws(w), ..w }
}

/// Whether the main window is shown, whether it has to be drawn again, and
/// whether the cursor's position over it is known.
#[derive(Debug, Clone, Copy, PartialEq, Eq, Structural)]
pub struct WindowState {
    pub visible: bool,
    pub needs_redraw: bool,
    pub cursor_known: bool,
}

impl WindowState {
    /// A new window is shown and has to be drawn; the cursor is not known.
    pub fn new() -> (r: Self)
        ensures
            r.visible,
            r.needs_redraw,
            !r.cursor_known,
    {
        WindowState { visible: true, needs_redraw: true, cursor_known: false }
    }

    /// Shows the window and asks for a frame.
    pub fn open(&mut self)
        ensures
            final(self).visible,
            final(self).needs_redraw,
            final(self).cursor_known == old(self).cursor_known,
    {
        self.visible = true;
        self.needs_redraw = true;
    }

    /// The close button hides the window instead of closing it.
    pub fn close_requested(&mut self)
        ensures
            !final(self).visible,
            final(self).needs_redraw == old(self).needs_redraw,
            final(self).cursor_known == old(self).cursor_known,
    {
        self.visible = false;
    }

    /// Asks for a frame.
    pub fn request_redraw(&mut self)
        ensures
            final(self).needs_redraw,
            final(self).visible == old(self).visible,
            final(self).cursor_known == old(self).cursor_known,
    {
        self.needs_redraw = true;
    }

    /// Whether to draw a frame now: only a shown window that was asked for
    /// one; drawing answers the request.
    pub fn begin_redraw(&mut self) -> (r: bool)
        ensures
            r == draws(*old(self)),
            *final(self) == after_redraw(*old(self)),
    {
        if !self.visible || !self.needs_redraw {
            return false;
        }
        self.needs_redraw = false;
        true
    }
}

/// An event of the window system, by what the window decides on; the
/// cursor position, the wheel delta and the new size stay with the caller.
#[derive(Debug, Clone, Copy, PartialEq, Eq, Structural)]
pub enum WindowEvent {
    CloseRequested,
    CursorMoved,
    CursorLeft,
    MouseInput { button: MouseButton, pressed: bool },
    MouseWheel,
    Resized,
    Other,
}

/// What the window hands the user interface for an event; the caller adds
/// the cursor position or the wheel delta.
#[derive(Debug, Clone, Copy, PartialEq, Eq, Structural)]
pub enum UiEvent {
    PointerMoved,
    PointerGone,
    PointerButton { button: PointerButton, pressed: bool },
    MouseWheel,
}

/// The window after `event`, and what the user interface is handed:
/// closing hides the window; moving the cursor records its position and
/// redraws; leaving forgets it and redraws; a mouse button is handed on, with
/// a redraw, only when the cursor position is known and the button maps to
/// an interface button; the wheel is handed on and redraws; a resize
/// redraws; anything else changes nothing.
pub open spec fn window_event_outcome(w: WindowState, event: WindowEvent) -> (WindowState, Option<UiEvent>) {
    match event {
        WindowEvent::CloseRequested => (WindowState { visible: false, ..w }, None),
        WindowEvent::CursorMoved => (
            WindowState { cursor_known: true, needs_redraw: true, ..w },
            Some(UiEvent::PointerMoved),
        ),
        WindowEvent::CursorLeft => (
            WindowState { cursor_known: false, needs_redraw: true, ..w },
            Some(UiEvent::PointerGone),
        ),
        WindowEvent::MouseInput { button, pressed } => match spec_map_mouse_button(button) {
            Some(b) if w.cursor_known => (
                WindowState { needs_redraw: true, ..w },
                Some(UiEvent::PointerButton { button: b, pressed }),
            ),
            _ => (w, None),
        },
        WindowEvent::MouseWheel => (WindowState { needs_redraw: true, ..w }, Some(UiEvent::MouseWheel)),
        WindowEvent::Resized => (WindowState { needs_redraw: true, ..w }, None),
        WindowEvent::Other => (w, None),
    }
}

impl WindowState {
    /// Handles a window event: updates the window and returns what to hand
    /// the user interface; on `Resized` the caller also resizes the surface.
    pub fn handle_window_event(&mut self, event: WindowEvent) -> (r: Option<UiEvent>)
        ensures
            (*final(self), r) == window_event_outcome(*old(self), event),
            r is Some ==> final(self).needs_redraw,
            r is Some ==> final(self).visible == old(self).visible,
            event matches WindowEvent::MouseInput { button, pressed } ==> (r is Some <==> old(self).cursor_known
                && spec_map_mouse_button(button) is Some),
            event matches WindowEvent::MouseInput { button, pressed } ==> (r is Some ==> r == Some(
                UiEvent::PointerButton { button: spec_map_mouse_button(button)->0, pressed },
            )),
            event == WindowEvent::CloseRequested ==> !final(self).visible,
            event == WindowEvent::CursorLeft ==> !final(self).cursor_known && final(self).needs_redraw,
            event == WindowEvent::CursorMoved ==> final(self).cursor_known && final(self).needs_redraw,
    {
        match event {
            WindowEvent::CloseRequested => {
                self.close_requested();
                None
            },
            WindowEvent::CursorMoved => {
                self.cursor_known = true;
                self.request_redraw();
                Some(UiEvent::PointerMoved)
            },
            WindowEvent::CursorLeft => {
                self.cursor_known = false;
                self.request_redraw();
                Some(UiEvent::PointerGone)
            },
            WindowEvent::MouseInput { button, pressed } => {
                match map_mouse_button(button) {
                    Some(b) => {
                        if self.cursor_known {
                            self.request_redraw();
                            Some(UiEvent::PointerButton { button: b, pressed })
                        } else {
                            None
                        }
                    },
                    None => None,
                }
            },
            WindowEvent::MouseWheel => {
                self.request_redraw();
                Some(UiEvent::MouseWheel)
            },
            WindowEvent::Resized => {
                self.request_redraw();
                None
            },
            WindowEvent::Other => None,
        }
    }
}

/// Whatever the window hands the user interface asks for a frame, so the
/// interface acts on it at once: for every window and every event, a handed
/// on event (a pointer move or leave, a button press or release, a wheel
/// turn) leaves the window needing a redraw, and never shows or hides it.
pub proof fn law_handed_events_redraw(w: WindowState, event: WindowEvent)
    ensures
        window_event_outcome(w, event).1 is Some ==> window_event_outcome(w, event).0.needs_redraw,
        window_event_outcome(w, event).1 is Some ==> window_event_outcome(w, event).0.visible == w.visible,
{
}

/// A mouse button, pressed or released, reaches the user interface exactly
/// when the cursor position is known and the button maps to an interface
/// button, and then as that button with the same press state.
pub proof fn law_button_reaches_interface(w: WindowState, button: MouseButton, pressed: bool)
    ensures
        ({
            let out = window_event_outcome(w, WindowEvent::MouseInput { button, pressed });
            &&& (out.1 is Some <==> w.cursor_known && spec_map_mouse_button(button) is Some)
            &&& out.1 is Some ==> out.1 == Some(UiEvent::PointerButton { button: spec_map_mouse_button(button)->0, pressed })
            &&& out.1 is Some ==> out.0.needs_redraw
            &&& out.1 is None ==> out.0 == w
        }),
{
}

/// After the cursor leaves the window, no mouse button reaches the user
/// interface until the cursor moves over it again.
pub proof fn law_no_press_without_cursor(w: WindowState, button: MouseButton, pressed: bool)
    ensures
        ({
            let left = window_event_outcome(w, WindowEvent::CursorLeft).0;
            &&& window_event_outcome(left, WindowEvent::MouseInput { button, pressed }) == (left, None::<UiEvent>)
            &&& {
                let moved = window_event_outcome(left, WindowEvent::CursorMoved).0;
                spec_map_mouse_button(button) is Some ==> window_event_outcome(
                    moved,
                    WindowEvent::MouseInput { button, pressed },
                ).1 == Some(UiEvent::PointerButton { button: spec_map_mouse_button(button)->0, pressed })
            }
        }),
{
}

/// After the window is opened, one frame is drawn, and a second redraw
/// without a new request draws nothing.
pub proof fn law_open_draws_once(w: WindowState)
    ensures
        ({
            let opened = WindowState { needs_redraw: true, visible: true, ..w };
            &&& draws(opened)
            &&& !draws(after_redraw(opened))
            &&& draws(WindowState { needs_redraw: true, ..after_redraw(opened) })
        }),
{
}

/// A hidden window is never drawn, whatever was requested.
pub proof fn law_hidden_window_is_not_drawn(w: WindowState)
    requires
        !w.visible,
    ensures
        !draws(w),
        after_redraw(w) == w,
{
}

} // verus!
