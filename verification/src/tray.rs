//! The notification-area icon: which window messages it answers and how,
//! what its menu does, and which top-level window is the launcher's.
use vstd::prelude::*;

verus! {

/// Title of the launcher's main window, also the icon's tooltip.
pub const APP_TITLE: &'static str = "sing-box";

/// `WM_USER`: the first message number free for private use.
pub const WM_USER: u32 = 0x0400;

/// Message the shell posts back for mouse events on the icon.
pub const WM_TRAY_CALLBACK: u32 = 0x0401;

/// Message that hands the main window's handle to the icon's thread.
pub const WM_SET_MAIN_HWND: u32 = 0x0402;

/// `WM_CLOSE`.
pub const WM_CLOSE: u32 = 0x0010;

/// `WM_DESTROY`.
pub const WM_DESTROY: u32 = 0x0002;

/// `WM_LBUTTONUP`.
pub const WM_LBUTTONUP: u32 = 0x0202;

/// `WM_LBUTTONDBLCLK`.
pub const WM_LBUTTONDBLCLK: u32 = 0x0203;

/// `WM_RBUTTONUP`.
pub const WM_RBUTTONUP: u32 = 0x0205;

/// Menu command: show the main window.
pub const ID_MENU_SHOW: u32 = 0x4001;

/// Menu command: stop the core and quit.
pub const ID_MENU_EXIT: u32 = 0x4002;

/// The id of the one icon the launcher owns.
pub const TRAY_ICON_UID: u32 = 1;

/// What the icon's window does with a message.
#[derive(Clone, Copy, Debug, PartialEq, Eq, Structural)]
pub enum TrayEffect {
    /// Bring the main window back.
    ShowMain,
    /// Open the context menu.
    ShowMenu,
    /// Remember the main window's handle (the message's `wparam`).
    SetMainHwnd,
    /// Destroy the icon's window.
    DestroyWindow,
    /// Remove the icon and end the thread's message loop.
    RemoveIconAndQuit,
    /// Nothing; the message is answered with 0.
    Ignore,
    /// Leave the message to the default window procedure.
    Default,
}

/// The answer to a message: left click or double click on the icon shows
/// the window, right click opens the menu (the mouse event is the low
/// word of `lparam`).
pub open spec fn tray_message_spec(msg: u32, lparam: u64) -> TrayEffect {
    if msg == WM_TRAY_CALLBACK {
        let mouse = lparam % 0x10000;
        if mouse == WM_LBUTTONUP as u64 || mouse == WM_LBUTTONDBLCLK as u64 {
            TrayEffect::ShowMain
        } else if mouse == WM_RBUTTONUP as u64 {
            TrayEffect::ShowMenu
        } else {
            TrayEffect::Ignore
        }
    } else if msg == WM_SET_MAIN_HWND {
        TrayEffect::SetMainHwnd
    } else if msg == WM_CLOSE {
        TrayEffect::DestroyWindow
    } else if msg == WM_DESTROY {
        TrayEffect::RemoveIconAndQuit
    } else {
        TrayEffect::Default
    }
}

/// Dispatches a message of the icon's window (`lparam` as its bits).
pub fn tray_message(msg: u32, lparam: u64) -> (r: TrayEffect)
    ensures
        r == tray_message_spec(msg, lparam),
{
    if msg == WM_TRAY_CALLBACK {
        let mouse = lparam & 0xFFFF;
        assert(lparam & 0xFFFF == lparam % 0x10000) by (bit_vector);
        if mouse == WM_LBUTTONUP as u64 || mouse == WM_LBUTTONDBLCLK as u64 {
            TrayEffect::ShowMain
        } else if mouse == WM_RBUTTONUP as u64 {
            TrayEffect::ShowMenu
        } else {
            TrayEffect::Ignore
        }
    } else if msg == WM_SET_MAIN_HWND {
        TrayEffect::SetMainHwnd
    } else if msg == WM_CLOSE {
        TrayEffect::DestroyWindow
    } else if msg == WM_DESTROY {
        TrayEffect::RemoveIconAndQuit
    } else {
        TrayEffect::Default
    }
}

/// What a choice in the icon's menu does.
#[derive(Clone, Copy, Debug, PartialEq, Eq, Structural)]
pub enum MenuChoice {
    /// Show the main window.
    Show,
    /// Stop the core, remove the icon and quit.
    Exit,
    /// The menu was dismissed.
    Nothing,
}

/// The choice for the command `TrackPopupMenu` returned (0 when dismissed).
pub fn menu_choice(cmd: u32) -> (r: MenuChoice)
    ensures
        r == (if cmd == ID_MENU_SHOW {
            MenuChoice::Show
        } else if cmd == ID_MENU_EXIT {
            MenuChoice::Exit
        } else {
            MenuChoice::Nothing
        }),
{
    if cmd == ID_MENU_SHOW {
        MenuChoice::Show
    } else if cmd == ID_MENU_EXIT {
        MenuChoice::Exit
    } else {
        MenuChoice::Nothing
    }
}

/// Whether a top-level window is the launcher's main window: not the
/// icon's own window, owned by this process, and titled [`APP_TITLE`].
pub fn is_main_window(
    hwnd: usize,
    tray_hwnd: usize,
    window_pid: u32,
    own_pid: u32,
    title: &str,
) -> (b: bool)
    ensures
        b == (hwnd != tray_hwnd && window_pid == own_pid && title@ == APP_TITLE@),
{
    hwnd != tray_hwnd && window_pid == own_pid && title.to_owned().eq(&APP_TITLE.to_owned())
}

/// Whether the main window's procedure swallows a message and hides the
/// window: only `WM_CLOSE` on a minimized window while the close button
/// hides to the tray (a restored window's close takes the usual path).
pub fn close_hides_iconic(msg: u32, iconic: bool, close_to_tray: bool) -> (b: bool)
    ensures
        b == (msg == WM_CLOSE && iconic && close_to_tray),
{
    msg == WM_CLOSE && iconic && close_to_tray
}

} // verus!
