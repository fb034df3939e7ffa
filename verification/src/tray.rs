//! The tray controller: a static two-item menu (Show, Quit) and the
//! state machine that maps tray interactions to window visibility
//! changes or process termination.
//!
//! The host windowing layer delivers events; the controller only
//! decides. The thin host layer performs the chosen action: showing
//! and focusing the main window, or ending the process.

use vstd::prelude::*;

verus! {

/// A tray interaction as the host windowing layer reports it.
pub enum TrayEvent {
    /// A left mouse click on the tray icon itself.
    LeftClick,
    /// A menu item was selected; the payload is the item's identifier.
    MenuItemClick(String),
    /// Any other interaction the host may report.
    Other,
}

/// What the shell does in response to one tray interaction.
#[derive(Clone, Copy, PartialEq, Eq, Structural, Debug)]
pub enum TrayAction {
    /// Make the main window visible and give it input focus.
    ShowAndFocus,
    /// Terminate the process immediately.
    Quit,
    /// Do nothing.
    Ignore,
}

/// Identifier of the menu item that shows the main window.
pub open spec fn menu_id_show() -> Seq<char> {
    "show"@
}

/// Identifier of the menu item that quits the application.
pub open spec fn menu_id_quit() -> Seq<char> {
    "quit"@
}

/// The controller's decision table: a left click and the show item
/// show the window, the quit item ends the process, and every other
/// event is ignored.
pub open spec fn tray_action_view(e: TrayEvent) -> TrayAction {
    match e {
        TrayEvent::LeftClick => TrayAction::ShowAndFocus,
        TrayEvent::MenuItemClick(id) => if id@ == menu_id_quit() {
            TrayAction::Quit
        } else if id@ == menu_id_show() {
            TrayAction::ShowAndFocus
        } else {
            TrayAction::Ignore
        },
        TrayEvent::Other => TrayAction::Ignore,
    }
}

/// Decides what one tray interaction does.
pub fn tray_action_for(e: &TrayEvent) -> (a: TrayAction)
    ensures
        a == tray_action_view(*e),
{
    match e {
        TrayEvent::LeftClick => TrayAction::ShowAndFocus,
        TrayEvent::MenuItemClick(id) => {
            let quit_id: String = "quit".to_owned();
            let show_id: String = "show".to_owned();
            if *id == quit_id {
                TrayAction::Quit
            } else if *id == show_id {
                TrayAction::ShowAndFocus
            } else {
                TrayAction::Ignore
            }
        },
        TrayEvent::Other => TrayAction::Ignore,
    }
}

/// The observable window state the tray controller drives.
#[derive(Clone, Copy, PartialEq, Eq, Structural, Debug)]
pub struct WindowState {
    pub visible: bool,
    pub focused: bool,
}

/// Outcome of one tray interaction: the shell keeps running with a
/// (possibly changed) window state, or the process terminates.
#[derive(Clone, Copy, PartialEq, Eq, Structural, Debug)]
pub enum TrayStep {
    Continue(WindowState),
    Terminate,
}

/// What an action does to the window.
pub open spec fn apply_action_view(a: TrayAction, w: WindowState) -> TrayStep {
    match a {
        TrayAction::ShowAndFocus => TrayStep::Continue(
            WindowState { visible: true, focused: true },
        ),
        TrayAction::Quit => TrayStep::Terminate,
        TrayAction::Ignore => TrayStep::Continue(w),
    }
}

/// Applies a decided action to the window state.
pub fn apply_action(a: TrayAction, w: WindowState) -> (r: TrayStep)
    ensures
        r == apply_action_view(a, w),
{
    match a {
        TrayAction::ShowAndFocus => TrayStep::Continue(
            WindowState { visible: true, focused: true },
        ),
        TrayAction::Quit => TrayStep::Terminate,
        TrayAction::Ignore => TrayStep::Continue(w),
    }
}

/// One whole tray interaction: decide on the event, then act on the
/// window.
pub open spec fn step_view(e: TrayEvent, w: WindowState) -> TrayStep {
    apply_action_view(tray_action_view(e), w)
}

pub fn step(e: &TrayEvent, w: WindowState) -> (r: TrayStep)
    ensures
        r == step_view(*e, w),
{
    let a = tray_action_for(e);
    apply_action(a, w)
}

/// One entry of the static tray menu.
pub struct MenuItem {
    pub id: String,
    pub label: String,
}

/// The static two-item tray menu: Show first, then Quit.
pub fn tray_menu() -> (m: Vec<MenuItem>)
    ensures
        m@.len() == 2,
        m@[0].id@ == menu_id_show(),
        m@[0].label@ == "Show Pokédex"@,
        m@[1].id@ == menu_id_quit(),
        m@[1].label@ == "Quit Pokédex"@,
{
    let mut m: Vec<MenuItem> = Vec::new();
    m.push(MenuItem { id: "show".to_owned(), label: "Show Pokédex".to_owned() });
    m.push(MenuItem { id: "quit".to_owned(), label: "Quit Pokédex".to_owned() });
    m
}

/// Selecting the quit menu item terminates the process, whatever the
/// window state was.
pub proof fn lemma_quit_terminates(e: TrayEvent, w: WindowState)
    requires
        e matches TrayEvent::MenuItemClick(id) && id@ == menu_id_quit(),
    ensures
        step_view(e, w) == TrayStep::Terminate,
{
}

/// A left click on the tray icon, or the show menu item, leaves the
/// main window visible and focused, whatever its state was.
pub proof fn lemma_show_events_show_window(e: TrayEvent, w: WindowState)
    requires
        e matches TrayEvent::LeftClick || (e matches TrayEvent::MenuItemClick(id)
            && id@ == menu_id_show()),
    ensures
        step_view(e, w) == TrayStep::Continue(WindowState { visible: true, focused: true }),
{
    reveal_strlit("show");
    reveal_strlit("quit");
    assert(menu_id_show() != menu_id_quit()) by {
        assert(menu_id_show()[0] == 's');
        assert(menu_id_quit()[0] == 'q');
    }
}

/// Any event other than a left click, the show item or the quit item
/// leaves the window exactly as it was.
pub proof fn lemma_other_events_ignored(e: TrayEvent, w: WindowState)
    requires
        e matches TrayEvent::Other || (e matches TrayEvent::MenuItemClick(id)
            && id@ != menu_id_quit() && id@ != menu_id_show()),
    ensures
        step_view(e, w) == TrayStep::Continue(w),
{
}

} // verus!
