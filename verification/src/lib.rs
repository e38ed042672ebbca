//! Colour conversions, update rectangles and the ioctl vocabulary of the
//! i.MX EPDC electronic-paper framebuffer.
#![allow(non_camel_case_types)]

pub mod geometry;
pub mod mxcfb;
pub mod palette;
pub mod rect;

pub use geometry::{Point2, Vector2};
pub use mxcfb::{
    auto_update_mode, display_temp, dither_mode, mxcfb_ioctl, update_mode, update_scheme,
    waveform_mode,
};
pub use palette::color;
pub use rect::mxcfb_rect;
