//! What the injected module does to one window.
//!
//! The module that runs inside the target process has two entry points. Each
//! takes a window and a flag and rewrites one attribute of that window. The
//! attribute values are computed here; [`WindowState`] stands for the two
//! attributes of a window that the entry points touch.

use vstd::prelude::*;

verus! {

/// Display affinity of a window that capture interfaces may read.
pub const WDA_NONE: u32 = 0x0000_0000;

/// Display affinity that leaves a window on screen and out of every capture.
pub const WDA_EXCLUDEFROMCAPTURE: u32 = 0x0000_0011;

/// Extended style bit that forces a window onto the taskbar.
pub const WS_EX_APPWINDOW: u32 = 0x0004_0000;

/// Extended style bit that keeps a window off the taskbar and the switcher.
pub const WS_EX_TOOLWINDOW: u32 = 0x0000_0080;

/// The display affinity that a visibility request asks for.
pub open spec fn affinity_for(hide: bool) -> u32 {
    if hide {
        WDA_EXCLUDEFROMCAPTURE
    } else {
        WDA_NONE
    }
}

/// The extended style that a taskbar request turns `style` into: one of the
/// two taskbar bits is set, the other cleared, and no other bit moves.
pub open spec fn taskbar_style_for(style: u32, show: bool) -> u32 {
    if show {
        (style | WS_EX_APPWINDOW) & !WS_EX_TOOLWINDOW
    } else {
        (style | WS_EX_TOOLWINDOW) & !WS_EX_APPWINDOW
    }
}

/// Computes the display affinity to set for a visibility request.
pub fn display_affinity(hide: bool) -> (affinity: u32)
    ensures
        affinity == affinity_for(hide),
        hide <==> affinity == WDA_EXCLUDEFROMCAPTURE,
        !hide <==> affinity == WDA_NONE,
        hide <==> affinity != 0,
{
    if hide {
        WDA_EXCLUDEFROMCAPTURE
    } else {
        WDA_NONE
    }
}

/// Computes the extended style to set for a taskbar request.
pub fn taskbar_style(style: u32, show: bool) -> (updated: u32)
    ensures
        updated == taskbar_style_for(style, show),
        show ==> updated & WS_EX_APPWINDOW == WS_EX_APPWINDOW && updated & WS_EX_TOOLWINDOW == 0,
        !show ==> updated & WS_EX_TOOLWINDOW == WS_EX_TOOLWINDOW && updated & WS_EX_APPWINDOW == 0,
        updated & !(WS_EX_APPWINDOW | WS_EX_TOOLWINDOW) == style & !(WS_EX_APPWINDOW
            | WS_EX_TOOLWINDOW),
{
    proof {
        lemma_taskbar_bits(style, show);
    }
    if show {
        (style | WS_EX_APPWINDOW) & !WS_EX_TOOLWINDOW
    } else {
        (style | WS_EX_TOOLWINDOW) & !WS_EX_APPWINDOW
    }
}

/// After a taskbar request exactly one of the two taskbar bits is set, the
/// one that the request names, and every other bit is as it was.
pub proof fn lemma_taskbar_bits(style: u32, show: bool)
    ensures
        show ==> taskbar_style_for(style, show) & WS_EX_APPWINDOW == WS_EX_APPWINDOW
            && taskbar_style_for(style, show) & WS_EX_TOOLWINDOW == 0,
        !show ==> taskbar_style_for(style, show) & WS_EX_TOOLWINDOW == WS_EX_TOOLWINDOW
            && taskbar_style_for(style, show) & WS_EX_APPWINDOW == 0,
        taskbar_style_for(style, show) & !(WS_EX_APPWINDOW | WS_EX_TOOLWINDOW) == style & !(
        WS_EX_APPWINDOW | WS_EX_TOOLWINDOW),
{
    assert(((style | 0x0004_0000u32) & !0x0000_0080u32) & 0x0004_0000u32 == 0x0004_0000u32)
        by (bit_vector);
    assert(((style | 0x0004_0000u32) & !0x0000_0080u32) & 0x0000_0080u32 == 0) by (bit_vector);
    assert(((style | 0x0000_0080u32) & !0x0004_0000u32) & 0x0000_0080u32 == 0x0000_0080u32)
        by (bit_vector);
    assert(((style | 0x0000_0080u32) & !0x0004_0000u32) & 0x0004_0000u32 == 0) by (bit_vector);
    assert(((style | 0x0004_0000u32) & !0x0000_0080u32) & !(0x0004_0000u32 | 0x0000_0080u32)
        == style & !(0x0004_0000u32 | 0x0000_0080u32)) by (bit_vector);
    assert(((style | 0x0000_0080u32) & !0x0004_0000u32) & !(0x0004_0000u32 | 0x0000_0080u32)
        == style & !(0x0004_0000u32 | 0x0000_0080u32)) by (bit_vector);
}

/// The attributes of a window that the entry points rewrite, and how the
/// window answers when they are read and written.
#[derive(Clone, Copy, Debug, PartialEq, Eq)]
pub struct WindowState {
    /// The display affinity.
    pub affinity: u32,
    /// The extended style; `None` for a window whose style cannot be read.
    /// A style of zero is a style like any other.
    pub ex_style: Option<u32>,
    /// Whether the window takes a new display affinity. A window refuses
    /// one that is set from outside the process that owns it.
    pub takes_affinity: bool,
}

/// Whether captures leave the window out.
pub open spec fn excluded(window: WindowState) -> bool {
    window.affinity == WDA_EXCLUDEFROMCAPTURE
}

/// The window after a visibility request: unchanged where it refuses the
/// affinity.
pub open spec fn visibility_set(window: WindowState, hide: bool) -> WindowState {
    if window.takes_affinity {
        WindowState { affinity: affinity_for(hide), ..window }
    } else {
        window
    }
}

/// The style to write for a taskbar request: the style that was read with
/// the two taskbar bits set as asked, and nothing where the read failed.
pub open spec fn taskbar_update_for(style: Option<u32>, show: bool) -> Option<u32> {
    match style {
        Some(read) => Some(taskbar_style_for(read, show)),
        None => None,
    }
}

/// The window after a taskbar request: unchanged where its style cannot be
/// read.
pub open spec fn taskbar_set(window: WindowState, show: bool) -> WindowState {
    WindowState { ex_style: taskbar_update_for(window.ex_style, show), ..window }
}

/// Computes the extended style to write for a taskbar request. `style` is
/// what the read gave, `None` where it failed; only then is there nothing
/// to write.
pub fn taskbar_update(style: Option<u32>, show: bool) -> (updated: Option<u32>)
    ensures
        updated == taskbar_update_for(style, show),
        updated is Some <==> style is Some,
        updated matches Some(written) ==> (written & WS_EX_APPWINDOW != 0 <==> show) && (written
            & WS_EX_TOOLWINDOW != 0 <==> !show),
{
    match style {
        Some(read) => Some(taskbar_style(read, show)),
        None => None,
    }
}

/// The visibility entry point, on the attributes of a window. Returns
/// whether the window took the affinity. If it did, captures leave the
/// window out afterwards if `hide` is set and show it if not, whatever its
/// affinity was; if it did not, the window is as it was.
#[allow(non_snake_case)]
pub fn SetWindowVisibility(window: &mut WindowState, hide: bool) -> (changed: bool)
    ensures
        changed <==> old(window).takes_affinity,
        *final(window) == visibility_set(*old(window), hide),
        changed ==> (excluded(*final(window)) <==> hide),
{
    if window.takes_affinity {
        window.affinity = display_affinity(hide);
        true
    } else {
        false
    }
}

/// The taskbar entry point, on the attributes of a window. Returns `false`
/// and leaves the window as it is where its style cannot be read. For every
/// style that can be read, zero included, it returns `true`, and the window
/// is on the taskbar afterwards if `show` is set and off it if not: of the
/// two taskbar bits exactly the one that `show` names is set.
#[allow(non_snake_case)]
pub fn ShowOnTaskBar(window: &mut WindowState, show: bool) -> (changed: bool)
    ensures
        changed <==> old(window).ex_style is Some,
        *final(window) == taskbar_set(*old(window), show),
        changed ==> (final(window).ex_style matches Some(written) && (written & WS_EX_APPWINDOW
            != 0 <==> show) && (written & WS_EX_TOOLWINDOW != 0 <==> !show)),
{
    match taskbar_update(window.ex_style, show) {
        Some(style) => {
            window.ex_style = Some(style);
            true
        },
        None => false,
    }
}

/// A visibility request repeated changes nothing more, and the last one of
/// two decides.
pub proof fn law_visibility_is_idempotent(window: WindowState, first: bool, second: bool)
    ensures
        visibility_set(visibility_set(window, first), first) == visibility_set(window, first),
        visibility_set(visibility_set(window, first), second) == visibility_set(window, second),
{
}

/// A taskbar request repeated changes nothing more, and a window whose
/// style can be read stays one.
pub proof fn law_taskbar_is_idempotent(window: WindowState, show: bool)
    ensures
        taskbar_set(taskbar_set(window, show), show) == taskbar_set(window, show),
        taskbar_set(window, show).ex_style is Some <==> window.ex_style is Some,
{
    match window.ex_style {
        Some(style) => {
            assert((((style | 0x0004_0000u32) & !0x0000_0080u32) | 0x0004_0000u32)
                & !0x0000_0080u32 == (style | 0x0004_0000u32) & !0x0000_0080u32) by (bit_vector);
            assert((((style | 0x0000_0080u32) & !0x0004_0000u32) | 0x0000_0080u32)
                & !0x0004_0000u32 == (style | 0x0000_0080u32) & !0x0004_0000u32) by (bit_vector);
        },
        None => {},
    }
}

} // verus!
