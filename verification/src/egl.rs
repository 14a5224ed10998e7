//! The `libwayland-egl` glue between a Wayland surface and an EGL window.

use vstd::prelude::*;

verus! {

/// Opaque `wl_egl_window` of `libwayland-egl`.
pub struct wl_egl_window {
    _private: [u8; 0],
}

/// Whether an EGL window of `width` x `height` can be made: neither may be
/// zero.
pub fn valid_window_size(width: u32, height: u32) -> (r: bool)
    ensures
        r == (width > 0 && height > 0),
{
    width > 0 && height > 0
}

} // verus!
