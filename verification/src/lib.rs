//! Pixel formats, FourCC codes, the checks around frame conversion and the decisions of
//! the Linux `v4l2loopback` virtual camera backend.

pub mod fourcc;
pub mod error;
pub mod formats;
pub mod convert;
pub mod registry;
pub mod v4l2;
pub mod loopback;

pub use error::{Error, Result};
pub use formats::PixelFormat;
