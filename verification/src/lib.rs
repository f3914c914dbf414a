//! Frame generation, configuration rules and shared-memory framing for a
//! virtual camera that feeds a Windows camera driver with BGRA frames.

pub mod bytes;
pub mod text;
pub mod color;
pub mod config;
pub mod pixels;
pub mod mirror;
pub mod frames;
pub mod shared;
pub mod runtime;
pub mod driver;
pub mod capture;
pub mod preview;
pub mod stream;
