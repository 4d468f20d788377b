//! Error kinds of the device-bridge surface.
pub use crate::error::AdbError;
pub use crate::error::CaptureScreenError;
pub use crate::error::DisplaySizeError;
pub use crate::error::ScreenSumError;
