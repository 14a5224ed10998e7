//! The Tizen Buffer Manager: pixel-format codes, call results, and the
//! errors of loading `libwayland-tbm-client`.

use vstd::prelude::*;

verus! {

/// `tbm_format`: a fourcc-style code.
pub type tbm_format = u32;

/// The fourcc code of the four bytes, first byte lowest.
pub open spec fn fourcc_value(a: u8, b: u8, c: u8, d: u8) -> int {
    a as int + b as int * 0x100 + c as int * 0x10000 + d as int * 0x1000000
}

/// `__tbm_fourcc_code(a, b, c, d)`.
pub fn tbm_fourcc(a: u8, b: u8, c: u8, d: u8) -> (r: tbm_format)
    ensures
        r == fourcc_value(a, b, c, d),
{
    let r: u32 = (a as u32) | ((b as u32) << 8) | ((c as u32) << 16) | ((d as u32) << 24);
    assert(r == a as u32 + b as u32 * 0x100 + c as u32 * 0x10000 + d as u32 * 0x1000000) by (bit_vector)
        requires
            r == (a as u32) | ((b as u32) << 8) | ((c as u32) << 16) | ((d as u32) << 24),
    ;
    r
}

/// `TBM_FORMAT_XRGB8888`: 32-bit pixels, little-endian, alpha ignored.
pub const TBM_FORMAT_XRGB8888: tbm_format = 0x34325258;

/// `TBM_FORMAT_XRGB8888` is the fourcc code of `X`, `R`, `2`, `4`.
pub proof fn lemma_xrgb8888_is_fourcc()
    ensures
        TBM_FORMAT_XRGB8888 == fourcc_value(0x58, 0x52, 0x32, 0x34),
{
}

/// `TBM_SURF_PLANE_MAX`.
pub const TBM_SURF_PLANE_MAX: usize = 4;

/// `TBM_SURF_OPTION_READ`, passed to `tbm_surface_map`.
pub const TBM_SURF_OPTION_READ: i32 = 1;

/// `TBM_SURF_OPTION_WRITE`, passed to `tbm_surface_map`.
pub const TBM_SURF_OPTION_WRITE: i32 = 2;

/// Whether a TBM call succeeded (`TBM_SURFACE_ERROR_NONE` is 0).
pub fn ok(rc: i32) -> (r: bool)
    ensures
        r == (rc == 0),
{
    rc == 0
}

/// Opaque `wayland_tbm_client`.
pub struct wayland_tbm_client {
    _opaque: [u8; 0],
}

/// Failure to load `libwayland-tbm-client.so.0`.
#[derive(Debug, Clone, PartialEq, Eq)]
pub enum LoadError {
    /// The library could not be opened; the loader's message.
    LibraryOpen(String),
    /// A required symbol is missing: its name and the loader's message.
    MissingSymbol(&'static str, String),
}

/// The text a [`LoadError`] displays as.
pub open spec fn load_error_text(e: LoadError) -> Seq<char> {
    match e {
        LoadError::LibraryOpen(m) => "failed to dlopen libwayland-tbm-client.so.0: "@ + m@,
        LoadError::MissingSymbol(name, m) => "libwayland-tbm-client.so.0 missing symbol `"@ + name@
            + "`: "@ + m@,
    }
}

impl LoadError {
    /// The human-readable description of the error.
    pub fn message(&self) -> (r: String)
        ensures
            r@ == load_error_text(*self),
    {
        match self {
            LoadError::LibraryOpen(m) => String::from_str(
                "failed to dlopen libwayland-tbm-client.so.0: ",
            ).concat(m.as_str()),
            LoadError::MissingSymbol(name, m) => String::from_str(
                "libwayland-tbm-client.so.0 missing symbol `",
            ).concat(name).concat("`: ").concat(m.as_str()),
        }
    }
}

} // verus!
