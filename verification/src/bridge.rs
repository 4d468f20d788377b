//! The device-bridge surface: the handle, its value types, the argument
//! formatting and output-parsing functions, and their laws.
pub mod error;

pub use crate::adb::active_line_count;
pub use crate::adb::activity_args;
pub use crate::adb::capture_args;
pub use crate::adb::devices_args;
pub use crate::adb::has_exclusive_active_line;
pub use crate::adb::input_shown_args;
pub use crate::adb::keyevent_args;
pub use crate::adb::kill_server_args;
pub use crate::adb::lemma_display_size_pattern;
pub use crate::adb::lemma_handshake_idempotent;
pub use crate::adb::lemma_line_marker_ignores_leading_whitespace;
pub use crate::adb::lemma_two_ready_lines_not_exclusive;
pub use crate::adb::line_matches;
pub use crate::adb::parse_display_size;
pub use crate::adb::size_args;
pub use crate::adb::spec_parse_display_size;
pub use crate::adb::start_server_args;
pub use crate::adb::swipe_args;
pub use crate::adb::tap_args;
pub use crate::adb::text_args;
pub use crate::adb::Adb;
pub use crate::adb::DisplaySize;
pub use crate::key_code::KeyCode;
