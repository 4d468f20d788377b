//! Error kinds of the toolkit.
pub use crate::error::ImageSaveError;
