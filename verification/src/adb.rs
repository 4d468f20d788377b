//! The device-bridge facade: executable resolution, the construction-time
//! target handshake, and the per-operation argument formatting and output
//! parsing for each bridge command.
use vstd::prelude::*;
use vstd::string::*;

use crate::error::{AdbError, CaptureScreenError, DisplaySizeError, ScreenSumError};
use crate::key_code::KeyCode;
use crate::process::Process;
use crate::text::{
    contains_seq, count_tokens, dec_digits, find_char, first_ix_from, is_digit_char, is_ws,
    is_ws_char, lemma_dec_digits_all_digits, lemma_dec_digits_value, lemma_first_ix_absent,
    lemma_first_ix_found, lemma_first_ix_props, parse_u32, parses_to_u32, push_char, str_contains, str_eq, token_count,
    trim_back, trim_front, trimmed, u32_to_string,
};
use crate::utils;

verus! {

/// A pair of device-pixel dimensions reported by the bridge tool.
pub struct DisplaySize {
    pub width: u32,
    pub height: u32,
}

/// A character the display-size parser keeps: a decimal digit or the
/// `x` separating width from height.
pub open spec fn keep_size_char(c: char) -> bool {
    is_digit_char(c) || c == 'x'
}

/// The characters of `s` the display-size parser keeps, in order.
pub open spec fn kept_size_chars(s: Seq<char>) -> Seq<char>
    decreases s.len(),
{
    if s.len() == 0 {
        Seq::empty()
    } else if keep_size_char(s.last()) {
        kept_size_chars(s.drop_last()).push(s.last())
    } else {
        kept_size_chars(s.drop_last())
    }
}

fn filter_size_chars(s: &str) -> (r: String)
    ensures
        r@ == kept_size_chars(s@),
{
    let n = s.unicode_len();
    let mut out = String::new();
    let mut i: usize = 0;
    proof {
        assert(s@.subrange(0, 0) =~= Seq::<char>::empty());
    }
    while i < n
        invariant
            i <= n,
            n == s@.len(),
            out@ == kept_size_chars(s@.subrange(0, i as int)),
        decreases n - i,
    {
        let c = s.get_char(i);
        proof {
            assert(s@.subrange(0, i + 1).drop_last() =~= s@.subrange(0, i as int));
            assert(s@.subrange(0, i + 1).last() == s@[i as int]);
        }
        let cv = c as u32;
        if (48 <= cv && cv <= 57) || c == 'x' {
            push_char(&mut out, c);
        }
        i = i + 1;
    }
    proof {
        assert(s@.subrange(0, n as int) =~= s@);
    }
    out
}

/// What display-size parsing yields on output text `s`: keep only digits
/// and `x`, split at the first two `x` separators, and read the first two
/// pieces as unsigned integers. `None` when a piece is missing, empty,
/// or out of range.
pub open spec fn spec_parse_display_size(s: Seq<char>) -> Option<(u32, u32)> {
    let f = kept_size_chars(s);
    let i = first_ix_from(f, 'x', 0);
    if i >= f.len() {
        None
    } else {
        let j = first_ix_from(f, 'x', i + 1);
        match (parses_to_u32(f.subrange(0, i)), parses_to_u32(f.subrange(i + 1, j))) {
            (Some(w), Some(h)) => Some((w, h)),
            _ => None,
        }
    }
}

/// Parses the display-size query's output text: strips every character
/// that is neither a digit nor `x`, splits on `x`, and reads the first
/// two pieces as width and height. Errs exactly when that fails.
pub fn parse_display_size(output: &str) -> (r: Result<DisplaySize, DisplaySizeError>)
    ensures
        match r {
            Ok(ds) => spec_parse_display_size(output@) == Some((ds.width, ds.height)),
            Err(_) => spec_parse_display_size(output@) is None,
        },
{
    let filtered = filter_size_chars(output);
    let f = filtered.as_str();
    let fl = f.unicode_len();
    let i = find_char(f, 'x', 0);
    if i >= fl {
        return Err(DisplaySizeError);
    }
    let j = find_char(f, 'x', i + 1);
    let width_str = f.substring_char(0, i);
    let height_str = f.substring_char(i + 1, j);
    match (parse_u32(width_str), parse_u32(height_str)) {
        (Some(width), Some(height)) => Ok(DisplaySize { width, height }),
        _ => Err(DisplaySizeError),
    }
}

/// `s` ends with `suffix`.
pub open spec fn ends_with(s: Seq<char>, suffix: Seq<char>) -> bool {
    s.len() >= suffix.len() && s.subrange(s.len() - suffix.len(), s.len() as int) == suffix
}

/// A device-list line reports a ready target: once trailing whitespace is
/// dropped it ends with the marker `device`, and the line holds at least
/// two whitespace-separated tokens (identifier and state).
pub open spec fn spec_line_matches(line: Seq<char>) -> bool {
    ends_with(trim_back(line), "device"@) && token_count(line) >= 2
}

/// Decides [`spec_line_matches`] for one line of device-list output.
pub fn line_matches(line: &str) -> (r: bool)
    ensures
        r == spec_line_matches(line@),
{
    let n = line.unicode_len();
    proof {
        assert(line@.subrange(0, n as int) =~= line@);
    }
    let mut end: usize = n;
    while end > 0 && is_ws(line.get_char(end - 1))
        invariant
            end <= n,
            n == line@.len(),
            trim_back(line@) == trim_back(line@.subrange(0, end as int)),
        decreases end,
    {
        proof {
            assert(line@.subrange(0, end as int).drop_last() =~= line@.subrange(0, end - 1));
        }
        end = end - 1;
    }
    proof {
        assert(trim_back(line@.subrange(0, end as int)) == line@.subrange(0, end as int));
        reveal_strlit("device");
    }
    if end < 6 {
        return false;
    }
    let tail = line.substring_char(end - 6, end);
    proof {
        assert(line@.subrange(0, end as int).subrange(end - 6, end as int) =~= line@.subrange(
            end - 6,
            end as int,
        ));
    }
    if !str_eq(tail, "device") {
        return false;
    }
    let tokens = count_tokens(line);
    tokens >= 2
}

/// The number of ready lines in the device-list text `s` from position
/// `i` on, where `start` is where the current line began.
pub open spec fn active_from(s: Seq<char>, start: int, i: int) -> nat
    decreases s.len() - i,
{
    if i < 0 || start < 0 || start > i || i > s.len() {
        0
    } else if i == s.len() {
        if spec_line_matches(s.subrange(start, i)) {
            1nat
        } else {
            0nat
        }
    } else if s[i] == '\n' {
        (if spec_line_matches(s.subrange(start, i)) {
            1nat
        } else {
            0nat
        }) + active_from(s, i + 1, i + 1)
    } else {
        active_from(s, start, i + 1)
    }
}

/// How many newline-separated lines of the device-list text report a
/// ready target.
pub open spec fn active_line_count(s: Seq<char>) -> nat {
    active_from(s, 0, 0)
}

/// Decision for the handshake without an explicit target: the device
/// list must report exactly one ready line.
pub fn has_exclusive_active_line(output: &str) -> (r: bool)
    ensures
        r == (active_line_count(output@) == 1),
{
    let n = output.unicode_len();
    let mut start: usize = 0;
    let mut i: usize = 0;
    let mut seen_one = false;
    while i < n
        invariant
            start <= i <= n,
            n == output@.len(),
            active_line_count(output@) == (if seen_one {
                1nat
            } else {
                0nat
            }) + active_from(output@, start as int, i as int),
        decreases n - i,
    {
        if output.get_char(i) == '\n' {
            let line = output.substring_char(start, i);
            if line_matches(line) {
                if seen_one {
                    return false;
                }
                seen_one = true;
            }
            start = i + 1;
        }
        i = i + 1;
    }
    let line = output.substring_char(start, n);
    if line_matches(line) {
        if seen_one {
            return false;
        }
        seen_one = true;
    }
    seen_one
}

/// Relies on `which::which`: searches the environment's executable search
/// path for the named program; the result depends on the environment, so
/// nothing is promised of it.
#[verifier::external_body]
fn which_lookup(name: &str) -> Option<String> {
    match which::which(name) {
        Ok(found) => Some(found.to_string_lossy().into_owned()),
        Err(_) => None,
    }
}

/// Relies on `std::path::Path::exists`: whether the path points at an
/// entity that exists on disk; the result depends on the file system, so
/// nothing is promised of it.
#[verifier::external_body]
fn path_exists(path: &str) -> bool {
    std::path::Path::new(path).exists()
}

/// The argument list actually dispatched for a handle: when the handle is
/// scoped to a target, `-s <target>` is prefixed; otherwise the arguments
/// pass through unchanged.
pub open spec fn spec_target_scoped(target: Option<Seq<char>>, args: Seq<Seq<char>>) -> Seq<
    Seq<char>,
> {
    match target {
        Some(t) => seq!["-s"@, t] + args,
        None => args,
    }
}

/// The exact argument sequence of the device-list query.
pub fn devices_args() -> (r: Vec<String>)
    ensures
        r.deep_view() == seq!["devices"@],
{
    let mut args: Vec<String> = Vec::new();
    args.push(String::from_str("devices"));
    proof {
        assert(args.deep_view() =~= seq!["devices"@]);
    }
    args
}

/// The exact argument sequence of the stop-server command.
pub fn kill_server_args() -> (r: Vec<String>)
    ensures
        r.deep_view() == seq!["kill-server"@],
{
    let mut args: Vec<String> = Vec::new();
    args.push(String::from_str("kill-server"));
    proof {
        assert(args.deep_view() =~= seq!["kill-server"@]);
    }
    args
}

/// The exact argument sequence of the start-server command.
pub fn start_server_args() -> (r: Vec<String>)
    ensures
        r.deep_view() == seq!["start-server"@],
{
    let mut args: Vec<String> = Vec::new();
    args.push(String::from_str("start-server"));
    proof {
        assert(args.deep_view() =~= seq!["start-server"@]);
    }
    args
}

/// The exact argument sequence of the display-size query.
pub fn size_args() -> (r: Vec<String>)
    ensures
        r.deep_view() == seq!["shell"@, "wm"@, "size"@],
{
    let mut args: Vec<String> = Vec::new();
    args.push(String::from_str("shell"));
    args.push(String::from_str("wm"));
    args.push(String::from_str("size"));
    proof {
        assert(args.deep_view() =~= seq!["shell"@, "wm"@, "size"@]);
    }
    args
}

/// The exact argument sequence of the screen capture.
pub fn capture_args() -> (r: Vec<String>)
    ensures
        r.deep_view() == seq!["exec-out"@, "screencap"@, "-p"@],
{
    let mut args: Vec<String> = Vec::new();
    args.push(String::from_str("exec-out"));
    args.push(String::from_str("screencap"));
    args.push(String::from_str("-p"));
    proof {
        assert(args.deep_view() =~= seq!["exec-out"@, "screencap"@, "-p"@]);
    }
    args
}

/// The exact argument sequence of the input-method query.
pub fn input_shown_args() -> (r: Vec<String>)
    ensures
        r.deep_view() == seq![
            "shell"@,
            "dumpsys"@,
            "input_method"@,
            "|"@,
            "grep"@,
            "mInputShown"@,
        ],
{
    let mut args: Vec<String> = Vec::new();
    args.push(String::from_str("shell"));
    args.push(String::from_str("dumpsys"));
    args.push(String::from_str("input_method"));
    args.push(String::from_str("|"));
    args.push(String::from_str("grep"));
    args.push(String::from_str("mInputShown"));
    proof {
        assert(args.deep_view() =~= seq![
            "shell"@,
            "dumpsys"@,
            "input_method"@,
            "|"@,
            "grep"@,
            "mInputShown"@,
        ]);
    }
    args
}

/// The exact argument sequence of an activity launch: the component name
/// is forwarded verbatim behind the `-n` flag.
pub fn activity_args(activity_component_name: &str) -> (r: Vec<String>)
    ensures
        r.deep_view() == seq!["shell"@, "am"@, "start"@, "-n"@, activity_component_name@],
{
    let mut args: Vec<String> = Vec::new();
    args.push(String::from_str("shell"));
    args.push(String::from_str("am"));
    args.push(String::from_str("start"));
    args.push(String::from_str("-n"));
    args.push(String::from_str(activity_component_name));
    proof {
        assert(args.deep_view() =~= seq![
            "shell"@,
            "am"@,
            "start"@,
            "-n"@,
            activity_component_name@,
        ]);
    }
    args
}

/// The exact argument sequence of text input: the text is forwarded
/// verbatim, with no quoting or escaping.
pub fn text_args(text: &str) -> (r: Vec<String>)
    ensures
        r.deep_view() == seq!["shell"@, "input"@, "text"@, text@],
{
    let mut args: Vec<String> = Vec::new();
    args.push(String::from_str("shell"));
    args.push(String::from_str("input"));
    args.push(String::from_str("text"));
    args.push(String::from_str(text));
    proof {
        assert(args.deep_view() =~= seq!["shell"@, "input"@, "text"@, text@]);
    }
    args
}

/// The exact argument sequence of a key event: the key's fixed numeric
/// code, written in decimal.
pub fn keyevent_args(key_code: &KeyCode) -> (r: Vec<String>)
    ensures
        r.deep_view() == seq![
            "shell"@,
            "input"@,
            "keyevent"@,
            dec_digits(key_code.spec_code() as nat),
        ],
{
    let mut args: Vec<String> = Vec::new();
    args.push(String::from_str("shell"));
    args.push(String::from_str("input"));
    args.push(String::from_str("keyevent"));
    args.push(u32_to_string(key_code.code()));
    proof {
        assert(args.deep_view() =~= seq![
            "shell"@,
            "input"@,
            "keyevent"@,
            dec_digits(key_code.spec_code() as nat),
        ]);
    }
    args
}

/// The exact argument sequence of a swipe: the fixed subcommand words,
/// then start x, start y, end x, end y, and duration, in that order.
pub open spec fn spec_swipe_args(
    x_start: u32,
    x_end: u32,
    y_start: u32,
    y_end: u32,
    duration: u32,
) -> Seq<Seq<char>> {
    seq![
        "shell"@,
        "input"@,
        "touchscreen"@,
        "swipe"@,
        dec_digits(x_start as nat),
        dec_digits(y_start as nat),
        dec_digits(x_end as nat),
        dec_digits(y_end as nat),
        dec_digits(duration as nat),
    ]
}

/// Formats the swipe subcommand: start x, start y, end x, end y, then
/// duration, positionally and never reordered.
pub fn swipe_args(x_start: u32, x_end: u32, y_start: u32, y_end: u32, duration: u32) -> (r: Vec<
    String,
>)
    ensures
        r.deep_view() == spec_swipe_args(x_start, x_end, y_start, y_end, duration),
{
    let mut args: Vec<String> = Vec::new();
    args.push(String::from_str("shell"));
    args.push(String::from_str("input"));
    args.push(String::from_str("touchscreen"));
    args.push(String::from_str("swipe"));
    args.push(u32_to_string(x_start));
    args.push(u32_to_string(y_start));
    args.push(u32_to_string(x_end));
    args.push(u32_to_string(y_end));
    args.push(u32_to_string(duration));
    proof {
        assert(args.deep_view() =~= spec_swipe_args(x_start, x_end, y_start, y_end, duration));
    }
    args
}

/// The exact argument sequence of a tap at `(x, y)`.
pub open spec fn spec_tap_args(x: u32, y: u32) -> Seq<Seq<char>> {
    seq!["shell"@, "input"@, "tap"@, dec_digits(x as nat), dec_digits(y as nat)]
}

/// Formats the tap subcommand: x first, then y.
pub fn tap_args(x: u32, y: u32) -> (r: Vec<String>)
    ensures
        r.deep_view() == spec_tap_args(x, y),
{
    let mut args: Vec<String> = Vec::new();
    args.push(String::from_str("shell"));
    args.push(String::from_str("input"));
    args.push(String::from_str("tap"));
    args.push(u32_to_string(x));
    args.push(u32_to_string(y));
    proof {
        assert(args.deep_view() =~= spec_tap_args(x, y));
    }
    args
}

/// A handle on the bridge tool: the resolved executable path and the
/// optional target device identifier every command is scoped to. Both are
/// fixed at construction and never change.
#[derive(Clone, Debug)]
pub struct Adb {
    path: String,
    target_serial: Option<String>,
}

impl Adb {
    /// The resolved executable path of the bridge tool.
    pub closed spec fn spec_path(&self) -> Seq<char> {
        self.path@
    }

    /// The target identifier this handle is scoped to, if any.
    pub closed spec fn spec_target(&self) -> Option<Seq<char>> {
        match self.target_serial {
            Some(t) => Some(t@),
            None => None,
        }
    }

    /// Builds a handle: resolves the executable (the given path, or a
    /// search of the environment), requires it to exist, performs the
    /// target handshake against the device list, and eagerly starts the
    /// bridge's background server. Fails with the matching error kind
    /// when any step refuses.
    pub fn new(adb_path: Option<String>, target_serial: Option<String>) -> (r: Result<
        Adb,
        AdbError,
    >)
        ensures
            r matches Ok(adb) ==> {
                &&& adb.spec_target() == (match target_serial {
                    Some(t) => Some(t@),
                    None => None::<Seq<char>>,
                })
                &&& (adb_path matches Some(p) ==> adb.spec_path() == p@)
            },
            r matches Err(e) ==> {
                &&& (e is TargetNotOnline ==> target_serial is Some)
                &&& (e is NoExclusiveTargetOnline ==> target_serial is None)
            },
    {
        let adb_path_buf = match adb_path {
            Some(provided_adb_path) => provided_adb_path,
            None => match which_lookup("adb") {
                Some(found_adb_path) => found_adb_path,
                None => {
                    return Err(AdbError::AdbNotFound);
                },
            },
        };
        if !path_exists(adb_path_buf.as_str()) {
            return Err(AdbError::AdbNotFound);
        }
        let target_copy: Option<String> = match &target_serial {
            Some(t) => Some(t.clone()),
            None => None,
        };
        let adb = Adb { path: adb_path_buf, target_serial: target_copy };
        match &target_serial {
            Some(provided_target_serial) => {
                if !adb.have_target(provided_target_serial.as_str()) {
                    return Err(AdbError::TargetNotOnline);
                }
            },
            None => {
                if !adb.have_active_target() {
                    return Err(AdbError::NoExclusiveTargetOnline);
                }
            },
        }
        adb.start_server();
        Ok(adb)
    }

    fn adb_no_target(&self, args: Vec<String>) -> (r: Option<(String, String)>)
        ensures
            r is Some,
    {
        Process::exec(self.path.as_str(), &args)
    }

    fn adb_no_target_as_bytes(&self, args: Vec<String>) -> (r: Option<Vec<u8>>)
        ensures
            r is Some,
    {
        Process::exec_and_return_stdout_bytes(self.path.as_str(), &args)
    }

    /// The single argument-building step applied before every dispatch:
    /// prefixes `-s <target>` exactly when this handle is scoped to a
    /// target.
    pub fn target_scoped_args(&self, args: Vec<String>) -> (r: Vec<String>)
        ensures
            r.deep_view() == spec_target_scoped(self.spec_target(), args.deep_view()),
    {
        match &self.target_serial {
            Some(target) => {
                let mut full: Vec<String> = Vec::new();
                full.push(String::from_str("-s"));
                full.push(target.clone());
                let mut rest = args;
                full.append(&mut rest);
                proof {
                    assert(full.deep_view() =~= spec_target_scoped(
                        self.spec_target(),
                        args.deep_view(),
                    ));
                }
                full
            },
            None => args,
        }
    }

    fn adb_target(&self, args: Vec<String>) -> (r: Option<(String, String)>)
        ensures
            r is Some,
    {
        self.adb_no_target(self.target_scoped_args(args))
    }

    fn adb_target_as_bytes(&self, args: Vec<String>) -> (r: Option<Vec<u8>>)
        ensures
            r is Some,
    {
        self.adb_no_target_as_bytes(self.target_scoped_args(args))
    }

    /// Asks the bridge tool to stop its background server; the dispatched
    /// list is [`kill_server_args`].
    pub fn kill_server(&self) {
        self.adb_no_target(kill_server_args());
    }

    /// Asks the bridge tool to start its background server, idempotent on
    /// the tool's side; the dispatched list is [`start_server_args`].
    pub fn start_server(&self) {
        self.adb_no_target(start_server_args());
    }

    fn targets(&self) -> (r: Option<(String, String)>)
        ensures
            r is Some,
    {
        self.adb_no_target(devices_args())
    }

    /// Queries the device list ([`devices_args`]) and decides whether it
    /// reports exactly one ready target; the decision over the returned
    /// text is [`has_exclusive_active_line`].
    pub fn have_active_target(&self) -> bool {
        match self.targets() {
            Some((output, _)) => has_exclusive_active_line(output.as_str()),
            None => false,
        }
    }

    /// Queries the device list ([`devices_args`]) and decides whether
    /// `target` appears anywhere in it as a substring; the decision over
    /// the returned text is [`crate::text::str_contains`].
    pub fn have_target(&self, target: &str) -> bool {
        match self.targets() {
            Some((output, _)) => str_contains(output.as_str(), target),
            None => false,
        }
    }

    /// Queries the display size ([`size_args`]) and parses the tool's
    /// text output; the parse of the returned text is
    /// [`parse_display_size`], and a parse failure is the one error kind.
    pub fn display_size(&self) -> (r: Result<DisplaySize, DisplaySizeError>)
        ensures
            r matches Err(e) ==> e == DisplaySizeError,
    {
        if let Some((output_text, _)) = self.adb_target(size_args()) {
            return parse_display_size(output_text.as_str());
        }
        Err(DisplaySizeError)
    }

    /// Captures the screen ([`capture_args`]) as raw encoded image bytes.
    pub fn capture_screen_as_bytes(&self) -> (r: Result<Vec<u8>, CaptureScreenError>)
        ensures
            r is Ok,
    {
        if let Some(output) = self.adb_target_as_bytes(capture_args()) {
            return Ok(output);
        }
        Err(CaptureScreenError)
    }

    /// Captures the screen and decodes the bytes into an in-memory image;
    /// errs when the decode fails.
    pub fn capture_screen_as_dynamic_image(&self) -> Result<
        image::DynamicImage,
        CaptureScreenError,
    > {
        let image_bytes = match self.capture_screen_as_bytes() {
            Ok(bytes) => bytes,
            Err(_) => {
                return Err(CaptureScreenError);
            },
        };
        match crate::tesseract::load_image_from_memory(image_bytes.as_slice()) {
            Ok(dynamic_image) => Ok(dynamic_image),
            Err(_) => Err(CaptureScreenError),
        }
    }

    /// Captures the screen and persists it as a PNG file at the given
    /// path; on success the returned path is the caller's file name.
    pub fn capture_screen_as_file(&self, file_name: &str) -> (r: Result<
        String,
        CaptureScreenError,
    >)
        ensures
            r matches Ok(path) ==> path@ == file_name@,
    {
        let dynamic_image = match self.capture_screen_as_dynamic_image() {
            Ok(img) => img,
            Err(_) => {
                return Err(CaptureScreenError);
            },
        };
        match utils::save_dynamic_image_as_png(&dynamic_image, file_name) {
            Ok(path) => Ok(path),
            Err(_) => Err(CaptureScreenError),
        }
    }

    /// Captures the screen and returns the MD5 checksum of the captured
    /// bytes as 32 lower-case hexadecimal characters; the checksum of the
    /// bytes is [`crate::utils::md5_of_bytes`].
    pub fn screen_sum(&self) -> (r: Result<String, ScreenSumError>)
        ensures
            r is Ok,
            r matches Ok(sum) ==> sum@.len() == 32,
    {
        if let Ok(bytes) = self.capture_screen_as_bytes() {
            return Ok(utils::md5_of_bytes(bytes.as_slice()));
        }
        Err(ScreenSumError)
    }

    /// Launches the named activity component; the dispatched list is
    /// [`activity_args`].
    pub fn start_activity(&self, activity_component_name: &str) -> (r: Option<(String, String)>)
        ensures
            r is Some,
    {
        self.adb_target(activity_args(activity_component_name))
    }

    /// Queries the input-method state ([`input_shown_args`]) and decides
    /// whether the on-screen input is shown; the decision over the
    /// returned text is [`crate::text::str_contains`] with
    /// `mInputShown=true`.
    pub fn input_shown(&self) -> bool {
        match self.adb_target(input_shown_args()) {
            Some((output, _)) => str_contains(output.as_str(), "mInputShown=true"),
            None => false,
        }
    }

    /// Types the given text on the target; the dispatched list is
    /// [`text_args`].
    pub fn input_text(&self, text: &str) -> (r: Option<(String, String)>)
        ensures
            r is Some,
    {
        self.adb_target(text_args(text))
    }

    /// Sends the key event with the numeric code of `key_code`; the
    /// dispatched list is [`keyevent_args`].
    pub fn input_key_event(&self, key_code: KeyCode) -> (r: Option<(String, String)>)
        ensures
            r is Some,
    {
        self.adb_target(keyevent_args(&key_code))
    }

    /// Taps the screen at `(x, y)`; the argument order is [`tap_args`].
    pub fn input_tap(&self, x: u32, y: u32) -> (r: Option<(String, String)>)
        ensures
            r is Some,
    {
        self.adb_target(tap_args(x, y))
    }

    /// Swipes from `(x_start, y_start)` to `(x_end, y_end)` over
    /// `duration` milliseconds; the argument order is [`swipe_args`].
    pub fn input_swipe(
        &self,
        x_start: u32,
        x_end: u32,
        y_start: u32,
        y_end: u32,
        duration: u32,
    ) -> (r: Option<(String, String)>)
        ensures
            r is Some,
    {
        self.adb_target(swipe_args(x_start, x_end, y_start, y_end, duration))
    }
}

/// The handshake decisions are functions of the device-list text alone:
/// repeating either decision over an unchanged device list yields the
/// same outcome, for the exclusive-target count and for an explicit
/// target's substring test alike.
pub proof fn lemma_handshake_idempotent(out1: Seq<char>, out2: Seq<char>, target: Seq<char>)
    requires
        out1 == out2,
    ensures
        (active_line_count(out1) == 1) == (active_line_count(out2) == 1),
        contains_seq(out1, target) == contains_seq(out2, target),
{
}

proof fn lemma_trim_front_ends_with(t: Seq<char>, suffix: Seq<char>)
    requires
        suffix.len() > 0,
        forall|i: int| 0 <= i < suffix.len() ==> !is_ws_char(#[trigger] suffix[i]),
    ensures
        ends_with(trim_front(t), suffix) == ends_with(t, suffix),
    decreases t.len(),
{
    let m = suffix.len() as int;
    if t.len() > 0 && is_ws_char(t.first()) {
        lemma_trim_front_ends_with(t.drop_first(), suffix);
        let d = t.drop_first();
        if t.len() == m {
            // the suffix cannot be all of `t`: its first character is
            // whitespace, the suffix's is not
            assert(!ends_with(d, suffix));
            if t.subrange(t.len() - m, t.len() as int) == suffix {
                assert(t.subrange(0, m)[0] == t[0]);
                assert(false);
            }
        } else if t.len() > m {
            assert(d.subrange(d.len() - m, d.len() as int) =~= t.subrange(
                t.len() - m,
                t.len() as int,
            ));
        }
    }
}

/// The ready-line marker test matches a both-ends trim: dropping leading
/// whitespace as well changes nothing, because the marker itself holds no
/// whitespace.
pub proof fn lemma_line_marker_ignores_leading_whitespace(line: Seq<char>)
    ensures
        ends_with(trimmed(line), "device"@) == ends_with(trim_back(line), "device"@),
{
    reveal_strlit("device");
    let marker = "device"@;
    assert(marker.len() == 6);
    assert forall|i: int| 0 <= i < marker.len() implies !is_ws_char(#[trigger] marker[i]) by {
        if i == 0 {
            assert(marker[0] == 'd');
        } else if i == 1 {
            assert(marker[1] == 'e');
        } else if i == 2 {
            assert(marker[2] == 'v');
        } else if i == 3 {
            assert(marker[3] == 'i');
        } else if i == 4 {
            assert(marker[4] == 'c');
        } else {
            assert(marker[5] == 'e');
        }
    }
    lemma_trim_front_ends_with(trim_back(line), marker);
}

proof fn lemma_active_no_nl(s: Seq<char>, start: int, j: int, i: int)
    requires
        0 <= start <= j <= i <= s.len(),
        forall|k: int| j <= k < i ==> #[trigger] s[k] != '\n',
    ensures
        active_from(s, start, j) == active_from(s, start, i),
    decreases i - j,
{
    if j < i {
        lemma_active_no_nl(s, start, j + 1, i);
    }
}

proof fn lemma_active_line(s: Seq<char>, start: int, j: int)
    requires
        0 <= start <= j <= s.len(),
        forall|k: int| start <= k < j ==> #[trigger] s[k] != '\n',
        j == s.len() || s[j] == '\n',
    ensures
        active_from(s, start, start) == (if spec_line_matches(s.subrange(start, j)) {
            1nat
        } else {
            0nat
        }) + (if j < s.len() {
            active_from(s, j + 1, j + 1)
        } else {
            0nat
        }),
{
    lemma_active_no_nl(s, start, start, j);
}

proof fn lemma_active_start_mono(s: Seq<char>, p: int, q: int)
    requires
        0 <= p <= q <= s.len(),
        q == 0 || s[q - 1] == '\n',
    ensures
        active_from(s, p, p) >= active_from(s, q, q),
    decreases q - p,
{
    if p < q {
        let j = first_ix_from(s, '\n', p);
        lemma_first_ix_props(s, '\n', p);
        assert(j <= q - 1);
        lemma_active_line(s, p, j);
        lemma_active_start_mono(s, j + 1, q);
    }
}

/// Two ready lines defeat the exclusive-target decision: when two
/// distinct newline-delimited lines of the device-list text each report
/// a ready target, the ready-line count is at least two, and the
/// no-explicit-target handshake fails — as it does at zero ready lines,
/// where the count cannot be one.
pub proof fn lemma_two_ready_lines_not_exclusive(s: Seq<char>, i1: int, j1: int, i2: int, j2: int)
    requires
        0 <= i1 <= j1 < i2 <= j2 <= s.len(),
        i1 == 0 || s[i1 - 1] == '\n',
        forall|k: int| i1 <= k < j1 ==> #[trigger] s[k] != '\n',
        s[j1] == '\n',
        s[i2 - 1] == '\n',
        forall|k: int| i2 <= k < j2 ==> #[trigger] s[k] != '\n',
        j2 == s.len() || s[j2] == '\n',
        spec_line_matches(s.subrange(i1, j1)),
        spec_line_matches(s.subrange(i2, j2)),
    ensures
        active_line_count(s) >= 2,
{
    lemma_active_start_mono(s, 0, i1);
    lemma_active_line(s, i1, j1);
    lemma_active_start_mono(s, j1 + 1, i2);
    lemma_active_line(s, i2, j2);
}

proof fn lemma_kept_concat(a: Seq<char>, b: Seq<char>)
    ensures
        kept_size_chars(a + b) == kept_size_chars(a) + kept_size_chars(b),
    decreases b.len(),
{
    if b.len() == 0 {
        assert(a + b =~= a);
        assert(kept_size_chars(a) + kept_size_chars(b) =~= kept_size_chars(a));
    } else {
        lemma_kept_concat(a, b.drop_last());
        assert((a + b).drop_last() =~= a + b.drop_last());
        assert((a + b).last() == b.last());
        if keep_size_char(b.last()) {
            assert(kept_size_chars(a) + kept_size_chars(b) =~= (kept_size_chars(a)
                + kept_size_chars(b.drop_last())).push(b.last()));
        }
    }
}

proof fn lemma_kept_all(s: Seq<char>)
    requires
        forall|i: int| 0 <= i < s.len() ==> keep_size_char(#[trigger] s[i]),
    ensures
        kept_size_chars(s) == s,
    decreases s.len(),
{
    if s.len() > 0 {
        lemma_kept_all(s.drop_last());
        assert(kept_size_chars(s.drop_last()).push(s.last()) =~= s);
    }
}

proof fn lemma_kept_none(s: Seq<char>)
    requires
        forall|i: int| 0 <= i < s.len() ==> !keep_size_char(#[trigger] s[i]),
    ensures
        kept_size_chars(s) == Seq::<char>::empty(),
    decreases s.len(),
{
    if s.len() > 0 {
        lemma_kept_none(s.drop_last());
    }
}

/// Display-size parsing over the exact output pattern: any text of the
/// shape `<noise><w>x<h><noise>`, where the noise holds neither digits
/// nor `x` and `w` and `h` are written in decimal, parses to exactly
/// `(w, h)`.
pub proof fn lemma_display_size_pattern(prefix: Seq<char>, w: u32, h: u32, suffix: Seq<char>)
    requires
        forall|i: int| 0 <= i < prefix.len() ==> !keep_size_char(#[trigger] prefix[i]),
        forall|i: int| 0 <= i < suffix.len() ==> !keep_size_char(#[trigger] suffix[i]),
    ensures
        spec_parse_display_size(
            prefix + dec_digits(w as nat) + seq!['x'] + dec_digits(h as nat) + suffix,
        ) == Some((w, h)),
{
    let a = dec_digits(w as nat);
    let b = dec_digits(h as nat);
    let s = prefix + a + seq!['x'] + b + suffix;
    lemma_dec_digits_all_digits(w as nat);
    lemma_dec_digits_all_digits(h as nat);
    lemma_dec_digits_value(w as nat);
    lemma_dec_digits_value(h as nat);

    // the filter drops exactly the noise
    lemma_kept_none(prefix);
    lemma_kept_none(suffix);
    lemma_kept_all(a);
    lemma_kept_all(b);
    assert(kept_size_chars(seq!['x']) =~= seq!['x']) by {
        reveal_with_fuel(kept_size_chars, 2);
        assert(seq!['x'].drop_last() =~= Seq::<char>::empty());
        assert(seq!['x'].last() == 'x');
        assert(keep_size_char('x'));
    }
    lemma_kept_concat(prefix + a + seq!['x'] + b, suffix);
    lemma_kept_concat(prefix + a + seq!['x'], b);
    lemma_kept_concat(prefix + a, seq!['x']);
    lemma_kept_concat(prefix, a);
    assert(s =~= (prefix + a + seq!['x'] + b) + suffix);
    assert(prefix + a + seq!['x'] + b =~= (prefix + a + seq!['x']) + b);
    assert(prefix + a + seq!['x'] =~= (prefix + a) + seq!['x']);
    let f = kept_size_chars(s);
    assert(f =~= a + seq!['x'] + b);

    // the first separator sits right after the width digits
    let al = a.len() as int;
    assert(f[al] == 'x');
    assert forall|k: int| 0 <= k < al implies #[trigger] f[k] != 'x' by {
        assert(f[k] == a[k]);
        assert(is_digit_char(a[k]));
    }
    lemma_first_ix_found(f, 'x', 0, al);

    // and no second separator follows
    assert forall|k: int| al + 1 <= k < f.len() implies #[trigger] f[k] != 'x' by {
        assert(f[k] == b[k - al - 1]);
        assert(is_digit_char(b[k - al - 1]));
    }
    lemma_first_ix_absent(f, 'x', al + 1);

    assert(f.subrange(0, al) =~= a);
    assert(f.subrange(al + 1, f.len() as int) =~= b);
    assert(parses_to_u32(a) == Some(w));
    assert(parses_to_u32(b) == Some(h));
}

} // verus!
