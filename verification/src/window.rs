use vstd::prelude::*;

verus! {

/// A window's rectangle on the screen, in pixels, edges as the system
/// reports them (`top` above `bottom`, so `top <= bottom` for a real window).
#[derive(Debug, Clone, Copy, PartialEq, Eq, Structural)]
pub struct ScreenRect {
    pub left: i32,
    pub top: i32,
    pub right: i32,
    pub bottom: i32,
}

/// Where the overlay window goes inside the taskbar: `(x, y, width, height)`
/// relative to the taskbar, so that its right edge meets the left edge of the
/// notification area and it spans the taskbar's height.
pub open spec fn stats_position(taskbar: ScreenRect, tray: ScreenRect, widgets_width: int) -> (int, int, int, int) {
    let screen_x = tray.left - widgets_width;
    let screen_y = taskbar.top;
    (screen_x - taskbar.left, screen_y - taskbar.top, widgets_width, taskbar.bottom - taskbar.top)
}

pub fn get_stats_position(taskbar_rect: &ScreenRect, tray_rect: &ScreenRect, widgets_width: i32) -> (r: (i32, i32, i32, i32))
    requires
        i32::MIN <= tray_rect.left - widgets_width <= i32::MAX,
        i32::MIN <= tray_rect.left - widgets_width - taskbar_rect.left <= i32::MAX,
        i32::MIN <= taskbar_rect.bottom - taskbar_rect.top <= i32::MAX,
    ensures
        (r.0 as int, r.1 as int, r.2 as int, r.3 as int) == stats_position(*taskbar_rect, *tray_rect, widgets_width as int),
        r.0 == tray_rect.left - widgets_width - taskbar_rect.left,
        r.1 == 0,
        r.2 == widgets_width,
        r.3 == taskbar_rect.bottom - taskbar_rect.top,
{
    let screen_x = tray_rect.left - widgets_width;
    let screen_y = taskbar_rect.top;

    let window_x = screen_x - taskbar_rect.left;
    let window_y = screen_y - taskbar_rect.top;
    let window_height = taskbar_rect.bottom - taskbar_rect.top;

    (window_x, window_y, widgets_width, window_height)
}

/// Placed where `get_stats_position` says, the overlay window is exactly as
/// wide as the widgets, starts that far left of the notification area (so it
/// ends exactly at the notification area's left edge), sits at the taskbar's
/// top and is as tall as the taskbar.
pub proof fn lemma_overlay_meets_tray(taskbar: ScreenRect, tray: ScreenRect, widgets_width: int)
    ensures
        ({
            let (x, y, w, h) = stats_position(taskbar, tray, widgets_width);
            &&& w == widgets_width
            &&& x == tray.left - widgets_width - taskbar.left
            &&& taskbar.left + x + w == tray.left
            &&& y == 0
            &&& h == taskbar.bottom - taskbar.top
        }),
{
}

/// Whatever the taskbar and notification area rectangles, the overlay
/// `get_stats_position` gives for widgets of total width `widgets_width` is
/// that wide, begins `widgets_width` pixels left of the notification area
/// (relative to the taskbar's left edge), sits at the taskbar's top and is as
/// tall as the taskbar; two widths differing by `d` give windows whose left
/// edges differ by `d` in the other direction.
pub proof fn lemma_overlay_width_is_widgets_width(
    taskbar: ScreenRect,
    tray: ScreenRect,
    widgets_width: i32,
    r: (i32, i32, i32, i32),
    other_width: i32,
    s: (i32, i32, i32, i32),
)
    requires
        (r.0 as int, r.1 as int, r.2 as int, r.3 as int) == stats_position(taskbar, tray, widgets_width as int),
        (s.0 as int, s.1 as int, s.2 as int, s.3 as int) == stats_position(taskbar, tray, other_width as int),
    ensures
        r.2 == widgets_width,
        r.0 + r.2 == tray.left - taskbar.left,
        r.1 == 0,
        r.3 == taskbar.bottom - taskbar.top,
        s.0 - r.0 == widgets_width - other_width,
        s.3 == r.3,
{
}

/// The system error code that reports a window class registered before.
pub const CLASS_ALREADY_EXISTS: i32 = 1410;

/// Whether creating the overlay window goes on after registering its class:
/// it does when the registration gave a class atom, or when it failed with
/// the code `CLASS_ALREADY_EXISTS`.
pub fn class_registration_succeeded(registered_class: u16, error_code: i32) -> (ok: bool)
    ensures
        ok == (registered_class != 0 || error_code == CLASS_ALREADY_EXISTS),
{
    registered_class != 0 || error_code == CLASS_ALREADY_EXISTS
}

/// The messages the overlay window acts on; every other one is `Other`.
#[derive(Debug, Clone, Copy, PartialEq, Eq, Structural)]
pub enum WindowMessage {
    MouseActivate,
    Timer { timer_id: usize },
    Paint,
    Destroy,
    Other,
}

/// What the overlay window does in answer to a message.
#[derive(Debug, Clone, Copy, PartialEq, Eq, Structural)]
pub enum WindowAction {
    /// Refuse activation by the mouse.
    DoNotActivate,
    /// Repaint the window, after refreshing every monitor when asked to.
    Refresh { update_monitors: bool },
    /// Draw the widgets and mark the window as painted.
    Draw,
    /// End the message loop.
    Quit,
    /// Hand the message to the system's default handling.
    Default,
}

/// The id of the timer that drives the monitors.
pub const UPDATE_TIMER_ID: usize = 1;

/// The window procedure's decision for a message.
pub fn handle_message(message: WindowMessage) -> (action: WindowAction)
    ensures
        action == match message {
            WindowMessage::MouseActivate => WindowAction::DoNotActivate,
            WindowMessage::Timer { timer_id } => WindowAction::Refresh { update_monitors: timer_id == UPDATE_TIMER_ID },
            WindowMessage::Paint => WindowAction::Draw,
            WindowMessage::Destroy => WindowAction::Quit,
            WindowMessage::Other => WindowAction::Default,
        },
{
    match message {
        WindowMessage::MouseActivate => WindowAction::DoNotActivate,
        WindowMessage::Timer { timer_id } => WindowAction::Refresh { update_monitors: timer_id == UPDATE_TIMER_ID },
        WindowMessage::Paint => WindowAction::Draw,
        WindowMessage::Destroy => WindowAction::Quit,
        WindowMessage::Other => WindowAction::Default,
    }
}

/// Whether a window event calls for moving the overlay: a location change
/// of the taskbar or of its notification area.
pub fn needs_reposition(is_location_change: bool, window: isize, taskbar: isize, tray: isize) -> (r: bool)
    ensures
        r == (is_location_change && (window == tray || window == taskbar)),
{
    if !is_location_change {
        return false;
    }
    window == tray || window == taskbar
}

} // verus!
