//! System-tray and menu event routing.
//!
//! The shell intercepts native messages aimed at the tray icon — a
//! subclassed window procedure on Windows, the status-item button on
//! macOS — and translates clicks into the portable event stream; a
//! right click additionally pops the tray's context menu up at the
//! cursor before control returns to the message loop.  Menu selections
//! carry an origin tag so a tray-menu click and a menu-bar click with
//! the same item identifier stay distinguishable.  The native shell
//! calls (window class registration, notification-area icons) stay
//! outside; building the tray is modelled as the decision over those
//! calls' outcomes, surfacing an explicit error for every native call
//! that can fail.

use vstd::prelude::*;

verus! {

/// Where a menu selection originated.
#[derive(Clone, Copy, Debug, PartialEq, Eq, Structural)]
pub enum MenuType {
    MenuBar,
    SystemTray,
}

/// A built context menu, modelled by its item identifiers in display
/// order.  Menu construction itself is native and outside this layer.
#[derive(Clone, Debug, PartialEq)]
pub struct Menu {
    pub item_ids: Vec<u32>,
}

/// A tray-icon interaction.
#[derive(Clone, Copy, Debug, PartialEq, Eq, Structural)]
pub enum TrayEvent {
    LeftClick,
    RightClick,
    DoubleClick,
}

/// Screen-space bounds attached to a tray event: position and size in
/// physical pixels.
#[derive(Clone, Copy, Debug, PartialEq, Eq, Structural)]
pub struct Bounds {
    pub x: i32,
    pub y: i32,
    pub width: i32,
    pub height: i32,
}

/// An occurrence surfaced to the portable event stream by the shell.
#[derive(Clone, Debug, PartialEq)]
pub enum ShellEvent {
    /// A menu item was selected; the origin tag tells a tray menu from
    /// the menu bar.
    MenuSelected { item_id: u32, origin: MenuType },
    /// The tray icon was clicked.
    Tray { event: TrayEvent, bounds: Bounds },
}

/// The menu-selection event for an item, tagged with its origin.
pub fn menu_selection_event(item_id: u32, origin: MenuType) -> (ev: ShellEvent)
    ensures
        ev == (ShellEvent::MenuSelected { item_id, origin }),
{
    ShellEvent::MenuSelected { item_id, origin }
}

/// Origin-tagging law: a tray-menu selection and a menu-bar selection
/// are distinguishable even with identical item identifiers.
pub proof fn lemma_menu_origin_distinguishes(item_id: u32)
    ensures
        (ShellEvent::MenuSelected { item_id, origin: MenuType::SystemTray }) != (
        ShellEvent::MenuSelected { item_id, origin: MenuType::MenuBar }),
{
}

/// The private window message the tray icon posts to its hidden window.
pub const WM_USER_TRAYICON: u32 = 0x400 + 1111;

/// The identifier the tray icon is registered under.
pub const WM_USER_TRAYICON_UID: u32 = 0x855 + 1111;

/// Native mouse-message codes carried in the tray message's parameter.
pub const WM_LBUTTONUP: u32 = 0x0202;

pub const WM_LBUTTONDBLCLK: u32 = 0x0203;

pub const WM_RBUTTONUP: u32 = 0x0205;

/// What the window procedure must do for one tray message.
#[derive(Clone, Debug, PartialEq)]
pub struct TrayDispatch {
    /// The event to forward into the portable stream.
    pub event: ShellEvent,
    /// Pop the context menu up at this cursor position, synchronously,
    /// before returning to the message loop (right click with a menu).
    pub popup_at: Option<(i32, i32)>,
}

/// Placeholder coordinate used where the shell does not report real
/// bounds for a click.
pub const FALLBACK_BOUND: i32 = 5;

/// Routes one message of the tray's window procedure.  Only the tray's
/// own message with a recognised mouse code produces a dispatch: a left
/// click reports the icon's screen rect, a right click reports
/// placeholder bounds and requests the context-menu popup at the cursor
/// when a menu exists, and a double click reports placeholder bounds.
pub fn tray_window_message(
    msg: u32,
    mouse: u32,
    icon_rect: Bounds,
    cursor: (i32, i32),
    has_menu: bool,
) -> (r: Option<TrayDispatch>)
    ensures
        msg != WM_USER_TRAYICON ==> r is None,
        msg == WM_USER_TRAYICON && mouse == WM_LBUTTONUP ==> r == Some(
            TrayDispatch {
                event: ShellEvent::Tray { event: TrayEvent::LeftClick, bounds: icon_rect },
                popup_at: None,
            },
        ),
        msg == WM_USER_TRAYICON && mouse == WM_RBUTTONUP ==> r == Some(
            TrayDispatch {
                event: ShellEvent::Tray {
                    event: TrayEvent::RightClick,
                    bounds: Bounds {
                        x: FALLBACK_BOUND,
                        y: FALLBACK_BOUND,
                        width: FALLBACK_BOUND,
                        height: FALLBACK_BOUND,
                    },
                },
                popup_at: if has_menu {
                    Some(cursor)
                } else {
                    None
                },
            },
        ),
        msg == WM_USER_TRAYICON && mouse == WM_LBUTTONDBLCLK ==> r == Some(
            TrayDispatch {
                event: ShellEvent::Tray {
                    event: TrayEvent::DoubleClick,
                    bounds: Bounds {
                        x: FALLBACK_BOUND,
                        y: FALLBACK_BOUND,
                        width: FALLBACK_BOUND,
                        height: FALLBACK_BOUND,
                    },
                },
                popup_at: None,
            },
        ),
        msg == WM_USER_TRAYICON && mouse != WM_LBUTTONUP && mouse != WM_RBUTTONUP && mouse
            != WM_LBUTTONDBLCLK ==> r is None,
{
    if msg != WM_USER_TRAYICON {
        return None;
    }
    if mouse == WM_LBUTTONUP {
        Some(
            TrayDispatch {
                event: ShellEvent::Tray { event: TrayEvent::LeftClick, bounds: icon_rect },
                popup_at: None,
            },
        )
    } else if mouse == WM_RBUTTONUP {
        Some(
            TrayDispatch {
                event: ShellEvent::Tray {
                    event: TrayEvent::RightClick,
                    bounds: Bounds {
                        x: FALLBACK_BOUND,
                        y: FALLBACK_BOUND,
                        width: FALLBACK_BOUND,
                        height: FALLBACK_BOUND,
                    },
                },
                popup_at: if has_menu {
                    Some(cursor)
                } else {
                    None
                },
            },
        )
    } else if mouse == WM_LBUTTONDBLCLK {
        Some(
            TrayDispatch {
                event: ShellEvent::Tray {
                    event: TrayEvent::DoubleClick,
                    bounds: Bounds {
                        x: FALLBACK_BOUND,
                        y: FALLBACK_BOUND,
                        width: FALLBACK_BOUND,
                        height: FALLBACK_BOUND,
                    },
                },
                popup_at: None,
            },
        )
    } else {
        None
    }
}

/// A native setup call that failed while building the tray.
#[derive(Clone, Copy, Debug, PartialEq, Eq, Structural)]
pub enum OsError {
    /// Registering the hidden window's class failed.
    ClassRegistration,
    /// Creating the hidden window failed.
    WindowCreation,
    /// Registering the notification-area icon failed.
    IconRegistration,
}

impl OsError {
    /// A short description of the failed call.
    pub fn message(&self) -> (r: &'static str)
        ensures
            *self is ClassRegistration ==> r@ == "error registering window class"@,
            *self is WindowCreation ==> r@ == "error creating window"@,
            *self is IconRegistration ==> r@ == "error registering app icon"@,
    {
        match self {
            OsError::ClassRegistration => "error registering window class",
            OsError::WindowCreation => "error creating window",
            OsError::IconRegistration => "error registering app icon",
        }
    }
}

/// Outcomes of the native calls the tray build makes, in order: the
/// window-class registration, the hidden window's handle (zero when
/// creation failed), and the icon registration.
#[derive(Clone, Copy, Debug, PartialEq, Eq, Structural)]
pub struct TrayBuildOutcome {
    pub class_registered: bool,
    pub hwnd: u64,
    pub icon_registered: bool,
}

/// A built system tray: the hidden window receiving its messages and
/// the context menu shown on right click.
#[derive(Clone, Debug, PartialEq)]
pub struct SystemTray {
    pub hwnd: u64,
    pub hmenu: Option<Menu>,
    pub icon: Vec<u8>,
}

/// Builds a system tray: the icon bytes and the optional context menu.
#[derive(Clone, Debug, PartialEq)]
pub struct SystemTrayBuilder {
    pub icon: Vec<u8>,
    pub tray_menu: Option<Menu>,
}

impl SystemTrayBuilder {
    /// Creates a new builder from the icon bytes and the optional tray
    /// menu.
    pub fn new(icon: Vec<u8>, tray_menu: Option<Menu>) -> (r: SystemTrayBuilder)
        ensures
            r.icon == icon,
            r.tray_menu == tray_menu,
    {
        SystemTrayBuilder { icon, tray_menu }
    }

    /// Decides the outcome of the build from the native steps'
    /// outcomes: success exactly when every step succeeded, else the
    /// error of the first step that failed.
    pub fn build(self, outcome: TrayBuildOutcome) -> (r: Result<SystemTray, OsError>)
        ensures
            r is Ok <==> outcome.class_registered && outcome.hwnd != 0
                && outcome.icon_registered,
            !outcome.class_registered ==> r == Err::<SystemTray, OsError>(
                OsError::ClassRegistration,
            ),
            outcome.class_registered && outcome.hwnd == 0 ==> r == Err::<SystemTray, OsError>(
                OsError::WindowCreation,
            ),
            outcome.class_registered && outcome.hwnd != 0 && !outcome.icon_registered ==> r
                == Err::<SystemTray, OsError>(OsError::IconRegistration),
            r matches Ok(t) ==> t.hwnd == outcome.hwnd && t.hmenu == self.tray_menu && t.icon
                == self.icon,
    {
        if !outcome.class_registered {
            Err(OsError::ClassRegistration)
        } else if outcome.hwnd == 0 {
            Err(OsError::WindowCreation)
        } else if !outcome.icon_registered {
            Err(OsError::IconRegistration)
        } else {
            Ok(SystemTray { hwnd: outcome.hwnd, hmenu: self.tray_menu, icon: self.icon })
        }
    }
}

impl SystemTray {
    /// Replaces the icon bytes; the native icon update happens at the
    /// shell edge.
    pub fn set_icon(&mut self, icon: Vec<u8>)
        ensures
            final(self).icon == icon,
            final(self).hwnd == old(self).hwnd,
            final(self).hmenu == old(self).hmenu,
    {
        self.icon = icon;
    }
}

} // verus!
