//! The error kinds this library surfaces: handshake failures at
//! construction, and parse or capture failures of individual operations.
use vstd::prelude::*;

verus! {

/// Why constructing a bridge handle failed.
#[derive(Debug, PartialEq, Eq, Structural)]
pub enum AdbError {
    /// The bridge executable could not be resolved to an existing file.
    AdbNotFound,
    /// The caller-specified target does not appear in the device list.
    TargetNotOnline,
    /// No target was specified and the device list does not report
    /// exactly one ready device.
    NoExclusiveTargetOnline,
}

impl AdbError {
    /// The text [`Self::message`] returns for each kind.
    pub open spec fn spec_message(&self) -> Seq<char> {
        match self {
            AdbError::AdbNotFound => "ADB binary not found"@,
            AdbError::TargetNotOnline => "Provided target is not online"@,
            AdbError::NoExclusiveTargetOnline => "No exclusive target online"@,
        }
    }

    /// A short description of the failure.
    pub fn message(&self) -> (r: &'static str)
        ensures
            r@ == self.spec_message(),
    {
        match self {
            AdbError::AdbNotFound => "ADB binary not found",
            AdbError::TargetNotOnline => "Provided target is not online",
            AdbError::NoExclusiveTargetOnline => "No exclusive target online",
        }
    }
}

/// The display-size query's output could not be parsed as two unsigned
/// integers separated by `x`.
#[derive(Debug, Clone, PartialEq, Eq, Structural)]
pub struct DisplaySizeError;

impl DisplaySizeError {
    /// A short description of the failure.
    pub fn message(&self) -> (r: &'static str)
        ensures
            r@ == "Failed to get display size"@,
    {
        "Failed to get display size"
    }
}

/// The screen could not be captured, or its bytes could not be decoded
/// into an image.
#[derive(Debug, Clone, PartialEq, Eq, Structural)]
pub struct CaptureScreenError;

impl CaptureScreenError {
    /// A short description of the failure.
    pub fn message(&self) -> (r: &'static str)
        ensures
            r@ == "Failed to capture screen"@,
    {
        "Failed to capture screen"
    }
}

/// The screen checksum could not be computed because the capture failed.
#[derive(Debug, Clone, PartialEq, Eq, Structural)]
pub struct ScreenSumError;

impl ScreenSumError {
    /// A short description of the failure.
    pub fn message(&self) -> (r: &'static str)
        ensures
            r@ == "Failed to calculate screen sum"@,
    {
        "Failed to calculate screen sum"
    }
}

/// `std::io::Error`, declared so it can stand in this library's
/// signatures; its values are opaque here.
#[verifier::external_type_specification]
#[verifier::external_body]
pub struct ExIoError(std::io::Error);

/// Why persisting an image to disk failed.
#[derive(Debug)]
pub enum ImageSaveError {
    /// An underlying input/output failure.
    Io(std::io::Error),
    /// The image encoder rejected the write.
    ImageSaveFailed,
}

impl ImageSaveError {
    /// A short description of the failure.
    pub fn message(&self) -> (r: &'static str)
        ensures
            self is Io ==> r@ == "IO error"@,
            self is ImageSaveFailed ==> r@ == "Failed to save image"@,
    {
        match self {
            ImageSaveError::Io(_) => "IO error",
            ImageSaveError::ImageSaveFailed => "Failed to save image",
        }
    }
}

} // verus!
