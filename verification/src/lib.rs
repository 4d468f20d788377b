//! Automation shim over a device-bridge command-line tool and an OCR
//! engine: executable resolution and target handshake, per-operation
//! argument formatting and output parsing, text location in captured
//! screenshots, and checksum and image utilities.
mod adb;
mod dark_instruments;
mod error;
mod key_code;
mod process;
mod tesseract;
mod text;
mod utils;

pub mod bridge;
pub mod toolkit;

pub use crate::dark_instruments::Args;
pub use crate::dark_instruments::DarkInstruments;
pub use crate::text::count_tokens;
pub use crate::text::parse_u32;
pub use crate::text::str_contains;
pub use crate::text::str_eq;
pub use crate::text::trim_str;
pub use crate::text::u32_to_string;
