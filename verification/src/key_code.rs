//! The closed set of platform input key identifiers the bridge tool
//! accepts for key-event injection, each mapping to a fixed numeric code.
use vstd::prelude::*;

verus! {

/// A platform input key, convertible to the numeric code the bridge
/// tool's key-event subcommand expects.
pub enum KeyCode {
    Unknown,
    SoftLeft,
    SoftRight,
    Home,
    Back,
    Call,
    EndCall,
    _0,
    _1,
    _2,
    _3,
    _4,
    _5,
    _6,
    _7,
    _8,
    _9,
    Star,
    Found,
    DpadUp,
    DpadDown,
    DpadLeft,
    DpadRight,
    DpadCenter,
    VolumeUp,
    VolumeDown,
    Power,
    Camera,
    CLEAR,
    A,
    B,
    C,
    D,
    E,
    F,
    G,
    H,
    I,
    J,
    K,
    L,
    M,
    N,
    O,
    P,
    Q,
    R,
    S,
    T,
    U,
    V,
    W,
    X,
    Y,
    Z,
    Comma,
    Period,
    AltLeft,
    AltRight,
    ShiftLeft,
    ShiftRight,
    Tab,
    Space,
    Sym,
    Explorer,
    Envelope,
    Enter,
    Del,
    Grave,
    Minus,
    Equals,
    LeftBracket,
    RightBracket,
    Backslash,
    Semicolon,
    Apostrophe,
    Slash,
    At,
    Num,
    HeadsetHook,
    Focus,
    Plus,
    Menu,
    Notification,
    Search,
    MediaPlayPause,
    MediaStop,
    MediaNext,
    MediaPrevious,
    MediaRewind,
    MediaFastForward,
    Mute,
    PageUp,
    PageDown,
    PictSymbols,
    SwitchCharset,
    ButtonA,
    ButtonB,
    ButtonC,
    ButtonX,
    ButtonY,
    ButtonZ,
    ButtonL1,
    ButtonR1,
    ButtonL2,
    ButtonR2,
    ButtonThumbL,
    ButtonThumbR,
    ButtonStart,
    ButtonSelect,
    ButtonMode,
    Escape,
    ForwardDel,
    CtrlLeft,
    CtrlRight,
    CapsLock,
    ScrollLock,
    MetaLeft,
    MetaRight,
    Function,
    SysRq,
    BREAK,
    MoveHome,
    MoveEnd,
    Insert,
    Forward,
    MediaPlay,
    MediaPause,
    MediaClose,
    MediaEject,
    MediaRecord,
    F1,
    F2,
    F3,
    F4,
    F5,
    F6,
    F7,
    F8,
    F9,
    F10,
    F11,
    F12,
    NumLock,
    Numpad0,
    Numpad1,
    Numpad2,
    Numpad3,
    Numpad4,
    Numpad5,
    Numpad6,
    Numpad7,
    Numpad8,
    Numpad9,
    NumpadDivide,
    NumpadMultiply,
    NumpadSubtract,
    NumpadAdd,
    NumpadDot,
    NumpadComma,
    NumpadEnter,
    NumpadEquals,
    NumpadLeftParen,
    NumpadRightParen,
    VolumeMute,
    Info,
    ChannelUp,
    ChannelDown,
    ZoomIn,
    ZoomOut,
    Tv,
    Window,
    Guide,
    Dvr,
    Bookmark,
    Captions,
    Settings,
    TvPower,
    TvInput,
    StbPower,
    StbInput,
    AvrPower,
    AvrInput,
    ProgRed,
    ProgGreen,
    ProgYellow,
    ProgBlue,
    AppSwitch,
    Button1,
    Button2,
    Button3,
    Button4,
    Button5,
    Button6,
    Button7,
    Button8,
    Button9,
    Button10,
    Button11,
    Button12,
    Button13,
    Button14,
    Button15,
    Button16,
    LanguageSwitch,
    MannerMode,
    _3dMode,
    Contacts,
    Calendar,
    Music,
    Calculator,
    ZenkakuHankaku,
    Eisu,
    Muhenkan,
    Henkan,
    KatakanaHiragana,
    Yen,
    Ro,
    Kana,
    Assist,
    BrightnessDown,
    BrightnessUp,
    MediaAudioTrack,
    Sleep,
    Wakeup,
    Pairing,
    MediaTopMenu,
    _11,
    _12,
    LastChannel,
    TvDataService,
    VoiceAssist,
    TvRadioService,
    TvTeletext,
    TvNumberEntry,
    TvTerrestrialAnalog,
    TvTerrestrialDigital,
    TvSatellite,
    TvSatelliteBs,
    TvSatelliteCs,
    TvSatelliteService,
    TvNetwork,
    TvAntennaCable,
    TvInputHdmi1,
    TvInputHdmi2,
    TvInputHdmi3,
    TvInputHdmi4,
    TvInputComposite1,
    TvInputComposite2,
    TvInputComponent1,
    TvInputComponent2,
    TvInputVga1,
    TvAudioDescription,
    TvAudioDescriptionMixUp,
    TvAudioDescriptionMixDown,
    TvZoomMode,
    TvContentsMenu,
    TvMediaContextMenu,
    TvTimerProgramming,
    Help,
    NavigatePrevious,
    NavigateNext,
    NavigateIn,
    NavigateOut,
    StemPrimary,
    Stem1,
    Stem2,
    Stem3,
    DpadUpLeft,
    DpadDownLeft,
    DpadUpRight,
    DpadDownRight,
    MediaSkipForward,
    MediaSkipBackward,
    MediaStepForward,
    MediaStepBackward,
    SoftSleep,
    Cut,
    Copy,
    Paste,
    SystemNavigationUp,
    SystemNavigationDown,
    SystemNavigationLeft,
    SystemNavigationRight,
    AllApps,
    Refresh,
    ThumbsUp,
    ThumbsDown,
    ProfileSwitch,
    VideoApp1,
    VideoApp2,
    VideoApp3,
    VideoApp4,
    VideoApp5,
    VideoApp6,
    VideoApp7,
    VideoApp8,
    FeaturedApp1,
    FeaturedApp2,
    FeaturedApp3,
    FeaturedApp4,
    DemoApp1,
    DemoApp2,
    DemoApp3,
    DemoApp4,
    KeyboardBacklightDown,
    KeyboardBacklightUp,
    KeyboardBacklightToggle,
    StylusButtonPrimary,
    StylusButtonSecondary,
    StylusButtonTertiary,
    StylusButtonTail,
    RecentApps,
    Macro1,
    Macro2,
    Macro3,
    Macro4,
}

impl KeyCode {
    /// The numeric code of each key.
    pub open spec fn spec_code(&self) -> u32 {
        match self {
            KeyCode::Unknown => 0,
            KeyCode::SoftLeft => 1,
            KeyCode::SoftRight => 2,
            KeyCode::Home => 3,
            KeyCode::Back => 4,
            KeyCode::Call => 5,
            KeyCode::EndCall => 6,
            KeyCode::_0 => 7,
            KeyCode::_1 => 8,
            KeyCode::_2 => 9,
            KeyCode::_3 => 10,
            KeyCode::_4 => 11,
            KeyCode::_5 => 12,
            KeyCode::_6 => 13,
            KeyCode::_7 => 14,
            KeyCode::_8 => 15,
            KeyCode::_9 => 16,
            KeyCode::Star => 17,
            KeyCode::Found => 18,
            KeyCode::DpadUp => 19,
            KeyCode::DpadDown => 20,
            KeyCode::DpadLeft => 21,
            KeyCode::DpadRight => 22,
            KeyCode::DpadCenter => 23,
            KeyCode::VolumeUp => 24,
            KeyCode::VolumeDown => 25,
            KeyCode::Power => 26,
            KeyCode::Camera => 27,
            KeyCode::CLEAR => 28,
            KeyCode::A => 29,
            KeyCode::B => 30,
            KeyCode::C => 31,
            KeyCode::D => 32,
            KeyCode::E => 33,
            KeyCode::F => 34,
            KeyCode::G => 35,
            KeyCode::H => 36,
            KeyCode::I => 37,
            KeyCode::J => 38,
            KeyCode::K => 39,
            KeyCode::L => 40,
            KeyCode::M => 41,
            KeyCode::N => 42,
            KeyCode::O => 43,
            KeyCode::P => 44,
            KeyCode::Q => 45,
            KeyCode::R => 46,
            KeyCode::S => 47,
            KeyCode::T => 48,
            KeyCode::U => 49,
            KeyCode::V => 50,
            KeyCode::W => 51,
            KeyCode::X => 52,
            KeyCode::Y => 53,
            KeyCode::Z => 54,
            KeyCode::Comma => 55,
            KeyCode::Period => 56,
            KeyCode::AltLeft => 57,
            KeyCode::AltRight => 58,
            KeyCode::ShiftLeft => 59,
            KeyCode::ShiftRight => 60,
            KeyCode::Tab => 61,
            KeyCode::Space => 62,
            KeyCode::Sym => 63,
            KeyCode::Explorer => 64,
            KeyCode::Envelope => 65,
            KeyCode::Enter => 66,
            KeyCode::Del => 67,
            KeyCode::Grave => 68,
            KeyCode::Minus => 69,
            KeyCode::Equals => 70,
            KeyCode::LeftBracket => 71,
            KeyCode::RightBracket => 72,
            KeyCode::Backslash => 73,
            KeyCode::Semicolon => 74,
            KeyCode::Apostrophe => 75,
            KeyCode::Slash => 76,
            KeyCode::At => 77,
            KeyCode::Num => 78,
            KeyCode::HeadsetHook => 79,
            KeyCode::Focus => 80,
            KeyCode::Plus => 81,
            KeyCode::Menu => 82,
            KeyCode::Notification => 83,
            KeyCode::Search => 84,
            KeyCode::MediaPlayPause => 85,
            KeyCode::MediaStop => 86,
            KeyCode::MediaNext => 87,
            KeyCode::MediaPrevious => 88,
            KeyCode::MediaRewind => 89,
            KeyCode::MediaFastForward => 90,
            KeyCode::Mute => 91,
            KeyCode::PageUp => 92,
            KeyCode::PageDown => 93,
            KeyCode::PictSymbols => 94,
            KeyCode::SwitchCharset => 95,
            KeyCode::ButtonA => 96,
            KeyCode::ButtonB => 97,
            KeyCode::ButtonC => 98,
            KeyCode::ButtonX => 99,
            KeyCode::ButtonY => 100,
            KeyCode::ButtonZ => 101,
            KeyCode::ButtonL1 => 102,
            KeyCode::ButtonR1 => 103,
            KeyCode::ButtonL2 => 104,
            KeyCode::ButtonR2 => 105,
            KeyCode::ButtonThumbL => 106,
            KeyCode::ButtonThumbR => 107,
            KeyCode::ButtonStart => 108,
            KeyCode::ButtonSelect => 109,
            KeyCode::ButtonMode => 110,
            KeyCode::Escape => 111,
            KeyCode::ForwardDel => 112,
            KeyCode::CtrlLeft => 113,
            KeyCode::CtrlRight => 114,
            KeyCode::CapsLock => 115,
            KeyCode::ScrollLock => 116,
            KeyCode::MetaLeft => 117,
            KeyCode::MetaRight => 118,
            KeyCode::Function => 119,
            KeyCode::SysRq => 120,
            KeyCode::BREAK => 121,
            KeyCode::MoveHome => 122,
            KeyCode::MoveEnd => 123,
            KeyCode::Insert => 124,
            KeyCode::Forward => 125,
            KeyCode::MediaPlay => 126,
            KeyCode::MediaPause => 127,
            KeyCode::MediaClose => 128,
            KeyCode::MediaEject => 129,
            KeyCode::MediaRecord => 130,
            KeyCode::F1 => 131,
            KeyCode::F2 => 132,
            KeyCode::F3 => 133,
            KeyCode::F4 => 134,
            KeyCode::F5 => 135,
            KeyCode::F6 => 136,
            KeyCode::F7 => 137,
            KeyCode::F8 => 138,
            KeyCode::F9 => 139,
            KeyCode::F10 => 140,
            KeyCode::F11 => 141,
            KeyCode::F12 => 142,
            KeyCode::NumLock => 143,
            KeyCode::Numpad0 => 144,
            KeyCode::Numpad1 => 145,
            KeyCode::Numpad2 => 146,
            KeyCode::Numpad3 => 147,
            KeyCode::Numpad4 => 148,
            KeyCode::Numpad5 => 149,
            KeyCode::Numpad6 => 150,
            KeyCode::Numpad7 => 151,
            KeyCode::Numpad8 => 152,
            KeyCode::Numpad9 => 153,
            KeyCode::NumpadDivide => 154,
            KeyCode::NumpadMultiply => 155,
            KeyCode::NumpadSubtract => 156,
            KeyCode::NumpadAdd => 157,
            KeyCode::NumpadDot => 158,
            KeyCode::NumpadComma => 159,
            KeyCode::NumpadEnter => 160,
            KeyCode::NumpadEquals => 161,
            KeyCode::NumpadLeftParen => 162,
            KeyCode::NumpadRightParen => 163,
            KeyCode::VolumeMute => 164,
            KeyCode::Info => 165,
            KeyCode::ChannelUp => 166,
            KeyCode::ChannelDown => 167,
            KeyCode::ZoomIn => 168,
            KeyCode::ZoomOut => 169,
            KeyCode::Tv => 170,
            KeyCode::Window => 171,
            KeyCode::Guide => 172,
            KeyCode::Dvr => 173,
            KeyCode::Bookmark => 174,
            KeyCode::Captions => 175,
            KeyCode::Settings => 176,
            KeyCode::TvPower => 177,
            KeyCode::TvInput => 178,
            KeyCode::StbPower => 179,
            KeyCode::StbInput => 180,
            KeyCode::AvrPower => 181,
            KeyCode::AvrInput => 182,
            KeyCode::ProgRed => 183,
            KeyCode::ProgGreen => 184,
            KeyCode::ProgYellow => 185,
            KeyCode::ProgBlue => 186,
            KeyCode::AppSwitch => 187,
            KeyCode::Button1 => 188,
            KeyCode::Button2 => 189,
            KeyCode::Button3 => 190,
            KeyCode::Button4 => 191,
            KeyCode::Button5 => 192,
            KeyCode::Button6 => 193,
            KeyCode::Button7 => 194,
            KeyCode::Button8 => 195,
            KeyCode::Button9 => 196,
            KeyCode::Button10 => 197,
            KeyCode::Button11 => 198,
            KeyCode::Button12 => 199,
            KeyCode::Button13 => 200,
            KeyCode::Button14 => 201,
            KeyCode::Button15 => 202,
            KeyCode::Button16 => 203,
            KeyCode::LanguageSwitch => 204,
            KeyCode::MannerMode => 205,
            KeyCode::_3dMode => 206,
            KeyCode::Contacts => 207,
            KeyCode::Calendar => 208,
            KeyCode::Music => 209,
            KeyCode::Calculator => 210,
            KeyCode::ZenkakuHankaku => 211,
            KeyCode::Eisu => 212,
            KeyCode::Muhenkan => 213,
            KeyCode::Henkan => 214,
            KeyCode::KatakanaHiragana => 215,
            KeyCode::Yen => 216,
            KeyCode::Ro => 217,
            KeyCode::Kana => 218,
            KeyCode::Assist => 219,
            KeyCode::BrightnessDown => 220,
            KeyCode::BrightnessUp => 221,
            KeyCode::MediaAudioTrack => 222,
            KeyCode::Sleep => 223,
            KeyCode::Wakeup => 224,
            KeyCode::Pairing => 225,
            KeyCode::MediaTopMenu => 226,
            KeyCode::_11 => 227,
            KeyCode::_12 => 228,
            KeyCode::LastChannel => 229,
            KeyCode::TvDataService => 230,
            KeyCode::VoiceAssist => 231,
            KeyCode::TvRadioService => 232,
            KeyCode::TvTeletext => 233,
            KeyCode::TvNumberEntry => 234,
            KeyCode::TvTerrestrialAnalog => 235,
            KeyCode::TvTerrestrialDigital => 236,
            KeyCode::TvSatellite => 237,
            KeyCode::TvSatelliteBs => 238,
            KeyCode::TvSatelliteCs => 239,
            KeyCode::TvSatelliteService => 240,
            KeyCode::TvNetwork => 241,
            KeyCode::TvAntennaCable => 242,
            KeyCode::TvInputHdmi1 => 243,
            KeyCode::TvInputHdmi2 => 244,
            KeyCode::TvInputHdmi3 => 245,
            KeyCode::TvInputHdmi4 => 246,
            KeyCode::TvInputComposite1 => 247,
            KeyCode::TvInputComposite2 => 248,
            KeyCode::TvInputComponent1 => 249,
            KeyCode::TvInputComponent2 => 250,
            KeyCode::TvInputVga1 => 251,
            KeyCode::TvAudioDescription => 252,
            KeyCode::TvAudioDescriptionMixUp => 253,
            KeyCode::TvAudioDescriptionMixDown => 254,
            KeyCode::TvZoomMode => 255,
            KeyCode::TvContentsMenu => 256,
            KeyCode::TvMediaContextMenu => 257,
            KeyCode::TvTimerProgramming => 258,
            KeyCode::Help => 259,
            KeyCode::NavigatePrevious => 260,
            KeyCode::NavigateNext => 261,
            KeyCode::NavigateIn => 262,
            KeyCode::NavigateOut => 263,
            KeyCode::StemPrimary => 264,
            KeyCode::Stem1 => 265,
            KeyCode::Stem2 => 266,
            KeyCode::Stem3 => 267,
            KeyCode::DpadUpLeft => 268,
            KeyCode::DpadDownLeft => 269,
            KeyCode::DpadUpRight => 270,
            KeyCode::DpadDownRight => 271,
            KeyCode::MediaSkipForward => 272,
            KeyCode::MediaSkipBackward => 273,
            KeyCode::MediaStepForward => 274,
            KeyCode::MediaStepBackward => 275,
            KeyCode::SoftSleep => 276,
            KeyCode::Cut => 277,
            KeyCode::Copy => 278,
            KeyCode::Paste => 279,
            KeyCode::SystemNavigationUp => 280,
            KeyCode::SystemNavigationDown => 281,
            KeyCode::SystemNavigationLeft => 282,
            KeyCode::SystemNavigationRight => 283,
            KeyCode::AllApps => 284,
            KeyCode::Refresh => 285,
            KeyCode::ThumbsUp => 286,
            KeyCode::ThumbsDown => 287,
            KeyCode::ProfileSwitch => 288,
            KeyCode::VideoApp1 => 289,
            KeyCode::VideoApp2 => 290,
            KeyCode::VideoApp3 => 291,
            KeyCode::VideoApp4 => 292,
            KeyCode::VideoApp5 => 293,
            KeyCode::VideoApp6 => 294,
            KeyCode::VideoApp7 => 295,
            KeyCode::VideoApp8 => 296,
            KeyCode::FeaturedApp1 => 297,
            KeyCode::FeaturedApp2 => 298,
            KeyCode::FeaturedApp3 => 299,
            KeyCode::FeaturedApp4 => 300,
            KeyCode::DemoApp1 => 301,
            KeyCode::DemoApp2 => 302,
            KeyCode::DemoApp3 => 303,
            KeyCode::DemoApp4 => 304,
            KeyCode::KeyboardBacklightDown => 305,
            KeyCode::KeyboardBacklightUp => 306,
            KeyCode::KeyboardBacklightToggle => 307,
            KeyCode::StylusButtonPrimary => 308,
            KeyCode::StylusButtonSecondary => 309,
            KeyCode::StylusButtonTertiary => 310,
            KeyCode::StylusButtonTail => 311,
            KeyCode::RecentApps => 312,
            KeyCode::Macro1 => 313,
            KeyCode::Macro2 => 314,
            KeyCode::Macro3 => 315,
            KeyCode::Macro4 => 316,
        }
    }

    /// The numeric code the bridge tool's key-event subcommand expects.
    pub fn code(&self) -> (r: u32)
        ensures
            r == self.spec_code(),
    {
        match self {
            KeyCode::Unknown => 0,
            KeyCode::SoftLeft => 1,
            KeyCode::SoftRight => 2,
            KeyCode::Home => 3,
            KeyCode::Back => 4,
            KeyCode::Call => 5,
            KeyCode::EndCall => 6,
            KeyCode::_0 => 7,
            KeyCode::_1 => 8,
            KeyCode::_2 => 9,
            KeyCode::_3 => 10,
            KeyCode::_4 => 11,
            KeyCode::_5 => 12,
            KeyCode::_6 => 13,
            KeyCode::_7 => 14,
            KeyCode::_8 => 15,
            KeyCode::_9 => 16,
            KeyCode::Star => 17,
            KeyCode::Found => 18,
            KeyCode::DpadUp => 19,
            KeyCode::DpadDown => 20,
            KeyCode::DpadLeft => 21,
            KeyCode::DpadRight => 22,
            KeyCode::DpadCenter => 23,
            KeyCode::VolumeUp => 24,
            KeyCode::VolumeDown => 25,
            KeyCode::Power => 26,
            KeyCode::Camera => 27,
            KeyCode::CLEAR => 28,
            KeyCode::A => 29,
            KeyCode::B => 30,
            KeyCode::C => 31,
            KeyCode::D => 32,
            KeyCode::E => 33,
            KeyCode::F => 34,
            KeyCode::G => 35,
            KeyCode::H => 36,
            KeyCode::I => 37,
            KeyCode::J => 38,
            KeyCode::K => 39,
            KeyCode::L => 40,
            KeyCode::M => 41,
            KeyCode::N => 42,
            KeyCode::O => 43,
            KeyCode::P => 44,
            KeyCode::Q => 45,
            KeyCode::R => 46,
            KeyCode::S => 47,
            KeyCode::T => 48,
            KeyCode::U => 49,
            KeyCode::V => 50,
            KeyCode::W => 51,
            KeyCode::X => 52,
            KeyCode::Y => 53,
            KeyCode::Z => 54,
            KeyCode::Comma => 55,
            KeyCode::Period => 56,
            KeyCode::AltLeft => 57,
            KeyCode::AltRight => 58,
            KeyCode::ShiftLeft => 59,
            KeyCode::ShiftRight => 60,
            KeyCode::Tab => 61,
            KeyCode::Space => 62,
            KeyCode::Sym => 63,
            KeyCode::Explorer => 64,
            KeyCode::Envelope => 65,
            KeyCode::Enter => 66,
            KeyCode::Del => 67,
            KeyCode::Grave => 68,
            KeyCode::Minus => 69,
            KeyCode::Equals => 70,
            KeyCode::LeftBracket => 71,
            KeyCode::RightBracket => 72,
            KeyCode::Backslash => 73,
            KeyCode::Semicolon => 74,
            KeyCode::Apostrophe => 75,
            KeyCode::Slash => 76,
            KeyCode::At => 77,
            KeyCode::Num => 78,
            KeyCode::HeadsetHook => 79,
            KeyCode::Focus => 80,
            KeyCode::Plus => 81,
            KeyCode::Menu => 82,
            KeyCode::Notification => 83,
            KeyCode::Search => 84,
            KeyCode::MediaPlayPause => 85,
            KeyCode::MediaStop => 86,
            KeyCode::MediaNext => 87,
            KeyCode::MediaPrevious => 88,
            KeyCode::MediaRewind => 89,
            KeyCode::MediaFastForward => 90,
            KeyCode::Mute => 91,
            KeyCode::PageUp => 92,
            KeyCode::PageDown => 93,
            KeyCode::PictSymbols => 94,
            KeyCode::SwitchCharset => 95,
            KeyCode::ButtonA => 96,
            KeyCode::ButtonB => 97,
            KeyCode::ButtonC => 98,
            KeyCode::ButtonX => 99,
            KeyCode::ButtonY => 100,
            KeyCode::ButtonZ => 101,
            KeyCode::ButtonL1 => 102,
            KeyCode::ButtonR1 => 103,
            KeyCode::ButtonL2 => 104,
            KeyCode::ButtonR2 => 105,
            KeyCode::ButtonThumbL => 106,
            KeyCode::ButtonThumbR => 107,
            KeyCode::ButtonStart => 108,
            KeyCode::ButtonSelect => 109,
            KeyCode::ButtonMode => 110,
            KeyCode::Escape => 111,
            KeyCode::ForwardDel => 112,
            KeyCode::CtrlLeft => 113,
            KeyCode::CtrlRight => 114,
            KeyCode::CapsLock => 115,
            KeyCode::ScrollLock => 116,
            KeyCode::MetaLeft => 117,
            KeyCode::MetaRight => 118,
            KeyCode::Function => 119,
            KeyCode::SysRq => 120,
            KeyCode::BREAK => 121,
            KeyCode::MoveHome => 122,
            KeyCode::MoveEnd => 123,
            KeyCode::Insert => 124,
            KeyCode::Forward => 125,
            KeyCode::MediaPlay => 126,
            KeyCode::MediaPause => 127,
            KeyCode::MediaClose => 128,
            KeyCode::MediaEject => 129,
            KeyCode::MediaRecord => 130,
            KeyCode::F1 => 131,
            KeyCode::F2 => 132,
            KeyCode::F3 => 133,
            KeyCode::F4 => 134,
            KeyCode::F5 => 135,
            KeyCode::F6 => 136,
            KeyCode::F7 => 137,
            KeyCode::F8 => 138,
            KeyCode::F9 => 139,
            KeyCode::F10 => 140,
            KeyCode::F11 => 141,
            KeyCode::F12 => 142,
            KeyCode::NumLock => 143,
            KeyCode::Numpad0 => 144,
            KeyCode::Numpad1 => 145,
            KeyCode::Numpad2 => 146,
            KeyCode::Numpad3 => 147,
            KeyCode::Numpad4 => 148,
            KeyCode::Numpad5 => 149,
            KeyCode::Numpad6 => 150,
            KeyCode::Numpad7 => 151,
            KeyCode::Numpad8 => 152,
            KeyCode::Numpad9 => 153,
            KeyCode::NumpadDivide => 154,
            KeyCode::NumpadMultiply => 155,
            KeyCode::NumpadSubtract => 156,
            KeyCode::NumpadAdd => 157,
            KeyCode::NumpadDot => 158,
            KeyCode::NumpadComma => 159,
            KeyCode::NumpadEnter => 160,
            KeyCode::NumpadEquals => 161,
            KeyCode::NumpadLeftParen => 162,
            KeyCode::NumpadRightParen => 163,
            KeyCode::VolumeMute => 164,
            KeyCode::Info => 165,
            KeyCode::ChannelUp => 166,
            KeyCode::ChannelDown => 167,
            KeyCode::ZoomIn => 168,
            KeyCode::ZoomOut => 169,
            KeyCode::Tv => 170,
            KeyCode::Window => 171,
            KeyCode::Guide => 172,
            KeyCode::Dvr => 173,
            KeyCode::Bookmark => 174,
            KeyCode::Captions => 175,
            KeyCode::Settings => 176,
            KeyCode::TvPower => 177,
            KeyCode::TvInput => 178,
            KeyCode::StbPower => 179,
            KeyCode::StbInput => 180,
            KeyCode::AvrPower => 181,
            KeyCode::AvrInput => 182,
            KeyCode::ProgRed => 183,
            KeyCode::ProgGreen => 184,
            KeyCode::ProgYellow => 185,
            KeyCode::ProgBlue => 186,
            KeyCode::AppSwitch => 187,
            KeyCode::Button1 => 188,
            KeyCode::Button2 => 189,
            KeyCode::Button3 => 190,
            KeyCode::Button4 => 191,
            KeyCode::Button5 => 192,
            KeyCode::Button6 => 193,
            KeyCode::Button7 => 194,
            KeyCode::Button8 => 195,
            KeyCode::Button9 => 196,
            KeyCode::Button10 => 197,
            KeyCode::Button11 => 198,
            KeyCode::Button12 => 199,
            KeyCode::Button13 => 200,
            KeyCode::Button14 => 201,
            KeyCode::Button15 => 202,
            KeyCode::Button16 => 203,
            KeyCode::LanguageSwitch => 204,
            KeyCode::MannerMode => 205,
            KeyCode::_3dMode => 206,
            KeyCode::Contacts => 207,
            KeyCode::Calendar => 208,
            KeyCode::Music => 209,
            KeyCode::Calculator => 210,
            KeyCode::ZenkakuHankaku => 211,
            KeyCode::Eisu => 212,
            KeyCode::Muhenkan => 213,
            KeyCode::Henkan => 214,
            KeyCode::KatakanaHiragana => 215,
            KeyCode::Yen => 216,
            KeyCode::Ro => 217,
            KeyCode::Kana => 218,
            KeyCode::Assist => 219,
            KeyCode::BrightnessDown => 220,
            KeyCode::BrightnessUp => 221,
            KeyCode::MediaAudioTrack => 222,
            KeyCode::Sleep => 223,
            KeyCode::Wakeup => 224,
            KeyCode::Pairing => 225,
            KeyCode::MediaTopMenu => 226,
            KeyCode::_11 => 227,
            KeyCode::_12 => 228,
            KeyCode::LastChannel => 229,
            KeyCode::TvDataService => 230,
            KeyCode::VoiceAssist => 231,
            KeyCode::TvRadioService => 232,
            KeyCode::TvTeletext => 233,
            KeyCode::TvNumberEntry => 234,
            KeyCode::TvTerrestrialAnalog => 235,
            KeyCode::TvTerrestrialDigital => 236,
            KeyCode::TvSatellite => 237,
            KeyCode::TvSatelliteBs => 238,
            KeyCode::TvSatelliteCs => 239,
            KeyCode::TvSatelliteService => 240,
            KeyCode::TvNetwork => 241,
            KeyCode::TvAntennaCable => 242,
            KeyCode::TvInputHdmi1 => 243,
            KeyCode::TvInputHdmi2 => 244,
            KeyCode::TvInputHdmi3 => 245,
            KeyCode::TvInputHdmi4 => 246,
            KeyCode::TvInputComposite1 => 247,
            KeyCode::TvInputComposite2 => 248,
            KeyCode::TvInputComponent1 => 249,
            KeyCode::TvInputComponent2 => 250,
            KeyCode::TvInputVga1 => 251,
            KeyCode::TvAudioDescription => 252,
            KeyCode::TvAudioDescriptionMixUp => 253,
            KeyCode::TvAudioDescriptionMixDown => 254,
            KeyCode::TvZoomMode => 255,
            KeyCode::TvContentsMenu => 256,
            KeyCode::TvMediaContextMenu => 257,
            KeyCode::TvTimerProgramming => 258,
            KeyCode::Help => 259,
            KeyCode::NavigatePrevious => 260,
            KeyCode::NavigateNext => 261,
            KeyCode::NavigateIn => 262,
            KeyCode::NavigateOut => 263,
            KeyCode::StemPrimary => 264,
            KeyCode::Stem1 => 265,
            KeyCode::Stem2 => 266,
            KeyCode::Stem3 => 267,
            KeyCode::DpadUpLeft => 268,
            KeyCode::DpadDownLeft => 269,
            KeyCode::DpadUpRight => 270,
            KeyCode::DpadDownRight => 271,
            KeyCode::MediaSkipForward => 272,
            KeyCode::MediaSkipBackward => 273,
            KeyCode::MediaStepForward => 274,
            KeyCode::MediaStepBackward => 275,
            KeyCode::SoftSleep => 276,
            KeyCode::Cut => 277,
            KeyCode::Copy => 278,
            KeyCode::Paste => 279,
            KeyCode::SystemNavigationUp => 280,
            KeyCode::SystemNavigationDown => 281,
            KeyCode::SystemNavigationLeft => 282,
            KeyCode::SystemNavigationRight => 283,
            KeyCode::AllApps => 284,
            KeyCode::Refresh => 285,
            KeyCode::ThumbsUp => 286,
            KeyCode::ThumbsDown => 287,
            KeyCode::ProfileSwitch => 288,
            KeyCode::VideoApp1 => 289,
            KeyCode::VideoApp2 => 290,
            KeyCode::VideoApp3 => 291,
            KeyCode::VideoApp4 => 292,
            KeyCode::VideoApp5 => 293,
            KeyCode::VideoApp6 => 294,
            KeyCode::VideoApp7 => 295,
            KeyCode::VideoApp8 => 296,
            KeyCode::FeaturedApp1 => 297,
            KeyCode::FeaturedApp2 => 298,
            KeyCode::FeaturedApp3 => 299,
            KeyCode::FeaturedApp4 => 300,
            KeyCode::DemoApp1 => 301,
            KeyCode::DemoApp2 => 302,
            KeyCode::DemoApp3 => 303,
            KeyCode::DemoApp4 => 304,
            KeyCode::KeyboardBacklightDown => 305,
            KeyCode::KeyboardBacklightUp => 306,
            KeyCode::KeyboardBacklightToggle => 307,
            KeyCode::StylusButtonPrimary => 308,
            KeyCode::StylusButtonSecondary => 309,
            KeyCode::StylusButtonTertiary => 310,
            KeyCode::StylusButtonTail => 311,
            KeyCode::RecentApps => 312,
            KeyCode::Macro1 => 313,
            KeyCode::Macro2 => 314,
            KeyCode::Macro3 => 315,
            KeyCode::Macro4 => 316,
        }
    }
}

} // verus!
