//! Win32 extended window styles and z-order flags used by the overlay.
use vstd::prelude::*;

verus! {

/// `WS_EX_TRANSPARENT`: pointer input passes through the window.
pub const WS_EX_TRANSPARENT: u64 = 0x0000_0020;

/// `WS_EX_TOOLWINDOW`: the window is left out of the task switcher.
pub const WS_EX_TOOLWINDOW: u64 = 0x0000_0080;

/// `WS_EX_NOREDIRECTIONBITMAP`: no compositor redirection surface.
pub const WS_EX_NOREDIRECTIONBITMAP: u64 = 0x0020_0000;

/// `WS_EX_NOACTIVATE`: clicking the window never activates it.
pub const WS_EX_NOACTIVATE: u64 = 0x0800_0000;

/// The extended style bits an overlay window always carries.
pub const OVERLAY_EX_BITS: u64 = 0x0820_0080;

/// `SWP_NOSIZE`: keep the current size.
pub const SWP_NOSIZE: u32 = 0x0001;

/// `SWP_NOMOVE`: keep the current position.
pub const SWP_NOMOVE: u32 = 0x0002;

/// `SWP_NOZORDER`: keep the current z-order.
pub const SWP_NOZORDER: u32 = 0x0004;

/// `SWP_NOACTIVATE`: do not activate the window.
pub const SWP_NOACTIVATE: u32 = 0x0010;

/// `SWP_SHOWWINDOW`: show the window.
pub const SWP_SHOWWINDOW: u32 = 0x0040;

/// `SWP_HIDEWINDOW`: hide the window.
pub const SWP_HIDEWINDOW: u32 = 0x0080;

/// `SWP_NOOWNERZORDER`: leave the owner's z-order alone.
pub const SWP_NOOWNERZORDER: u32 = 0x0200;

/// `SWP_NOSENDCHANGING`: send no `WM_WINDOWPOSCHANGING`.
pub const SWP_NOSENDCHANGING: u32 = 0x0400;

/// Whether every bit of `bits` is set in `ex`.
pub open spec fn has_bits(ex: u64, bits: u64) -> bool {
    ex & bits == bits
}

/// Whether every bit of `bits` is set in the placement flags `f`.
pub open spec fn has_flags(f: u32, bits: u32) -> bool {
    f & bits == bits
}

/// The extended style of an overlay window whose current style is `ex`: the
/// overlay bits set, the input-transparency bit set exactly when
/// `click_through` holds, every other bit as it was.
pub open spec fn overlay_style(ex: u64, click_through: bool) -> u64 {
    if click_through {
        ex | OVERLAY_EX_BITS | WS_EX_TRANSPARENT
    } else {
        (ex | OVERLAY_EX_BITS) & !WS_EX_TRANSPARENT
    }
}

/// The bits that `overlay_ex_style` never touches.
pub open spec fn untouched_bits(ex: u64) -> u64 {
    ex & !(OVERLAY_EX_BITS | WS_EX_TRANSPARENT)
}

/// The overlay bits are exactly the non-activating, tool-window and
/// no-redirection bits.
pub proof fn lemma_overlay_bits()
    ensures
        OVERLAY_EX_BITS == WS_EX_NOACTIVATE | WS_EX_TOOLWINDOW | WS_EX_NOREDIRECTIONBITMAP,
{
    assert(0x0820_0080u64 == 0x0800_0000u64 | 0x0000_0080u64 | 0x0020_0000u64) by (bit_vector);
}

/// Computes the extended style to write back onto an overlay window whose
/// current extended style is `ex`.
pub fn overlay_ex_style(ex: u64, click_through: bool) -> (r: u64)
    ensures
        r == overlay_style(ex, click_through),
        has_bits(r, WS_EX_NOACTIVATE),
        has_bits(r, WS_EX_TOOLWINDOW),
        has_bits(r, WS_EX_NOREDIRECTIONBITMAP),
        has_bits(r, WS_EX_TRANSPARENT) == click_through,
        untouched_bits(r) == untouched_bits(ex),
{
    let r: u64 = if click_through {
        ex | OVERLAY_EX_BITS | WS_EX_TRANSPARENT
    } else {
        (ex | OVERLAY_EX_BITS) & !WS_EX_TRANSPARENT
    };
    if click_through {
        assert(r & 0x0800_0000 == 0x0800_0000 && r & 0x80 == 0x80 && r & 0x0020_0000 == 0x0020_0000
            && r & 0x20 == 0x20 && r & !0x0820_00a0u64 == ex & !0x0820_00a0u64) by (bit_vector)
            requires
                r == ex | 0x0820_0080u64 | 0x20u64,
        ;
    } else {
        assert(r & 0x0800_0000 == 0x0800_0000 && r & 0x80 == 0x80 && r & 0x0020_0000 == 0x0020_0000
            && r & 0x20 != 0x20 && r & !0x0820_00a0u64 == ex & !0x0820_00a0u64) by (bit_vector)
            requires
                r == (ex | 0x0820_0080u64) & !0x20u64,
        ;
    }
    assert(OVERLAY_EX_BITS | WS_EX_TRANSPARENT == 0x0820_00a0u64) by (bit_vector);
    r
}

/// `SetWindowPos` flags that move a window to the bottom of the z-order
/// without moving, resizing or activating it, without touching the owner's
/// order or sending a changing notification, and that show it.
pub const BOTTOM_PLACEMENT_FLAGS: u32 = 0x0653;

/// The `SetWindowPos` flags for sending the overlay to the bottom.
pub fn bottom_placement_flags() -> (r: u32)
    ensures
        r == SWP_NOMOVE | SWP_NOSIZE | SWP_NOACTIVATE | SWP_NOOWNERZORDER | SWP_NOSENDCHANGING
            | SWP_SHOWWINDOW,
        has_flags(r, SWP_NOMOVE),
        has_flags(r, SWP_NOSIZE),
        has_flags(r, SWP_NOACTIVATE),
        has_flags(r, SWP_NOOWNERZORDER),
        has_flags(r, SWP_NOSENDCHANGING),
        has_flags(r, SWP_SHOWWINDOW),
        r & SWP_NOZORDER == 0,
        r & SWP_HIDEWINDOW == 0,
{
    let r: u32 = BOTTOM_PLACEMENT_FLAGS;
    assert(0x0653u32 == 0x0002u32 | 0x0001u32 | 0x0010u32 | 0x0200u32 | 0x0400u32 | 0x0040u32
        && 0x0653u32 & 0x0002u32 == 0x0002u32 && 0x0653u32 & 0x0001u32 == 0x0001u32
        && 0x0653u32 & 0x0010u32 == 0x0010u32 && 0x0653u32 & 0x0200u32 == 0x0200u32
        && 0x0653u32 & 0x0400u32 == 0x0400u32 && 0x0653u32 & 0x0040u32 == 0x0040u32
        && 0x0653u32 & 0x0004u32 == 0 && 0x0653u32 & 0x0080u32 == 0) by (bit_vector);
    r
}

} // verus!
