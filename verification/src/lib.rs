//! Verified core of the Tizen platform bindings.
#![allow(non_camel_case_types)]

pub mod app;
pub mod dlog;
pub mod eframe;
pub mod egl;
pub mod input;
pub mod keys;
pub mod screenshot;
pub mod tbm;
pub mod text;
pub mod window;
pub mod xkb;
