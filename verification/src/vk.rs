use vstd::prelude::*;

verus! {

/// A list of all available *Virtual-Key Codes*.
///
/// Each key carries the numeric code the operating system uses for it;
/// [`vk_code`] gives that code and [`vk_of_code`] maps a code back to the
/// key, when the code is assigned at all.
#[derive(Clone, Copy, PartialEq, Eq, Structural, Hash, Debug)]
pub enum Vk {
    /// Left mouse button (code `0x01`)
    MouseLeft,
    /// Right mouse button (code `0x02`)
    MouseRight,
    /// Control-break processing (code `0x03`)
    Cancel,
    /// Middle mouse button (three-button mouse) (code `0x04`)
    MouseMiddle,
    /// X1 mouse button (code `0x05`)
    MouseX1,
    /// X2 mouse button (code `0x06`)
    MouseX2,
    /// BACKSPACE key (code `0x08`)
    Backspace,
    /// TAB key (code `0x09`)
    Tab,
    /// CLEAR key (code `0x0c`)
    Clear,
    /// ENTER key (code `0x0d`)
    Enter,
    /// SHIFT key (code `0x10`)
    Shift,
    /// CTRL key (code `0x11`)
    Control,
    /// ALT key (code `0x12`)
    Alt,
    /// PAUSE key (code `0x13`)
    Pause,
    /// CAPS LOCK key (code `0x14`)
    CapsLock,
    /// IME Kana mode & IME Hangul mode (code `0x15`)
    Kana,
    /// IME On (code `0x16`)
    ImeOn,
    /// IME Junja mode (code `0x17`)
    Junja,
    /// IME final mode (code `0x18`)
    Final,
    /// IME Kanji mode & IME Hanja mode (code `0x19`)
    Kanji,
    /// IME Off (code `0x1a`)
    ImeOff,
    /// ESC key (code `0x1b`)
    Escape,
    /// IME convert (code `0x1c`)
    Convert,
    /// IME nonconvert (code `0x1d`)
    NonConvert,
    /// IME accept (code `0x1e`)
    Accept,
    /// IME mode change request (code `0x1f`)
    ModeChange,
    /// SPACEBAR (code `0x20`)
    Space,
    /// PAGE UP key (code `0x21`)
    PageUp,
    /// PAGE DOWN key (code `0x22`)
    PageDown,
    /// END key (code `0x23`)
    End,
    /// HOME key (code `0x24`)
    Home,
    /// LEFT ARROW key (code `0x25`)
    LeftArrow,
    /// UP ARROW key (code `0x26`)
    UpArrow,
    /// RIGHT ARROW key (code `0x27`)
    RightArrow,
    /// DOWN ARROW key (code `0x28`)
    DownArrow,
    /// SELECT key (code `0x29`)
    Select,
    /// PRINT key (code `0x2a`)
    Print,
    /// EXECUTE key (code `0x2b`)
    Execute,
    /// PRINT SCREEN key (code `0x2c`)
    PrintScreen,
    /// INS key (code `0x2d`)
    Insert,
    /// DEL key (code `0x2e`)
    Delete,
    /// HELP key (code `0x2f`)
    Help,
    /// 0 key (code `0x30`)
    _0,
    /// 1 key (code `0x31`)
    _1,
    /// 2 key (code `0x32`)
    _2,
    /// 3 key (code `0x33`)
    _3,
    /// 4 key (code `0x34`)
    _4,
    /// 5 key (code `0x35`)
    _5,
    /// 6 key (code `0x36`)
    _6,
    /// 7 key (code `0x37`)
    _7,
    /// 8 key (code `0x38`)
    _8,
    /// 9 key (code `0x39`)
    _9,
    /// A key (code `0x41`)
    A,
    /// B key (code `0x42`)
    B,
    /// C key (code `0x43`)
    C,
    /// D key (code `0x44`)
    D,
    /// E key (code `0x45`)
    E,
    /// F key (code `0x46`)
    F,
    /// G key (code `0x47`)
    G,
    /// H key (code `0x48`)
    H,
    /// I key (code `0x49`)
    I,
    /// J key (code `0x4a`)
    J,
    /// K key (code `0x4b`)
    K,
    /// L key (code `0x4c`)
    L,
    /// M key (code `0x4d`)
    M,
    /// N key (code `0x4e`)
    N,
    /// O key (code `0x4f`)
    O,
    /// P key (code `0x50`)
    P,
    /// Q key (code `0x51`)
    Q,
    /// R key (code `0x52`)
    R,
    /// S key (code `0x53`)
    S,
    /// T key (code `0x54`)
    T,
    /// U key (code `0x55`)
    U,
    /// V key (code `0x56`)
    V,
    /// W key (code `0x57`)
    W,
    /// X key (code `0x58`)
    X,
    /// Y key (code `0x59`)
    Y,
    /// Z key (code `0x5a`)
    Z,
    /// Left Windows key (Natural keyboard) (code `0x5b`)
    LeftWin,
    /// Right Windows key (Natural keyboard) (code `0x5c`)
    RightWin,
    /// Applications key (Natural keyboard) (code `0x5d`)
    Apps,
    /// Computer Sleep key (code `0x5f`)
    Sleep,
    /// Numeric keypad 0 key (code `0x60`)
    Numpad0,
    /// Numeric keypad 1 key (code `0x61`)
    Numpad1,
    /// Numeric keypad 2 key (code `0x62`)
    Numpad2,
    /// Numeric keypad 3 key (code `0x63`)
    Numpad3,
    /// Numeric keypad 4 key (code `0x64`)
    Numpad4,
    /// Numeric keypad 5 key (code `0x65`)
    Numpad5,
    /// Numeric keypad 6 key (code `0x66`)
    Numpad6,
    /// Numeric keypad 7 key (code `0x67`)
    Numpad7,
    /// Numeric keyapd 8 key (code `0x68`)
    Numpad8,
    /// Numeric keypad 9 key (code `0x69`)
    Numpad9,
    /// Multiply key (code `0x6a`)
    Multiply,
    /// Add key (code `0x6b`)
    Add,
    /// Separator key (code `0x6c`)
    Separator,
    /// Subtract key (code `0x6d`)
    Subtract,
    /// Decimal key (code `0x6e`)
    Decimal,
    /// Divide key (code `0x6f`)
    Divide,
    /// F1 key (code `0x70`)
    F1,
    /// F2 key (code `0x71`)
    F2,
    /// F3 key (code `0x72`)
    F3,
    /// F4 key (code `0x73`)
    F4,
    /// F5 key (code `0x74`)
    F5,
    /// F6 key (code `0x75`)
    F6,
    /// F7 key (code `0x76`)
    F7,
    /// F8 key (code `0x77`)
    F8,
    /// F9 key (code `0x78`)
    F9,
    /// F10 key (code `0x79`)
    F10,
    /// F11 key (code `0x7a`)
    F11,
    /// F12 key (code `0x7b`)
    F12,
    /// F13 key (code `0x7c`)
    F13,
    /// F14 key (code `0x7d`)
    F14,
    /// F15 key (code `0x7e`)
    F15,
    /// F16 key (code `0x7f`)
    F16,
    /// F17 key (code `0x80`)
    F17,
    /// F18 key (code `0x81`)
    F18,
    /// F19 key (code `0x82`)
    F19,
    /// F20 key (code `0x83`)
    F20,
    /// F21 key (code `0x84`)
    F21,
    /// F22 key (code `0x85`)
    F22,
    /// F23 key (code `0x86`)
    F23,
    /// F24 key (code `0x87`)
    F24,
    /// NUM LOCK key (code `0x90`)
    Numlock,
    /// SCROLL LOCK key (code `0x91`)
    Scroll,
    /// Left SHIFT key (code `0xa0`)
    LeftShift,
    /// Right SHIFT key (code `0xa1`)
    RightShift,
    /// Left CONTROL key (code `0xa2`)
    LeftControl,
    /// Right CONTROL key (code `0xa3`)
    RightControl,
    /// Left MENU key (code `0xa4`)
    LeftMenu,
    /// Right MENU key (code `0xa5`)
    RightMenu,
    /// Browser Back key (code `0xa6`)
    BrowserBack,
    /// Browser Forward key (code `0xa7`)
    BrowserForward,
    /// Browser Refresh key (code `0xa8`)
    BrowserRefresh,
    /// Browser Stop key (code `0xa9`)
    BrowserStop,
    /// Browser Search key (code `0xaa`)
    BrowserSearch,
    /// Browser Favorites key (code `0xab`)
    BrowserFavorites,
    /// Browser Start and Home key (code `0xac`)
    BrowserHome,
    /// Volume Mute key (code `0xad`)
    VolumeMute,
    /// Volume Down key (code `0xae`)
    VolumeDown,
    /// Volume Up key (code `0xaf`)
    VolumeUp,
    /// Next Track key (code `0xb0`)
    NextTrack,
    /// Prev Track key (code `0xb1`)
    PrevTrack,
    /// Stop Media key (code `0xb2`)
    MediaStop,
    /// Play/Pause Media key (code `0xb3`)
    MediaPlayPause,
    /// Start Mail key (code `0xb4`)
    StartMail,
    /// Select Media key (code `0xb5`)
    SelectMedia,
    /// Start Application 1 key (code `0xb6`)
    StartApp1,
    /// Start Application 2 key (code `0xb7`)
    StartApp2,
    /// Used for miscellaneous characters; it can vary by keyboard. For the US standard (code `0xba`)
    Oem1,
    /// For any country/region, the `+` key (code `0xbb`)
    Plus,
    /// For any country/region, the `,` key (code `0xbc`)
    Comma,
    /// For any country/region, the `-` key (code `0xbd`)
    Minus,
    /// For any country/region, the `.` key (code `0xbe`)
    Period,
    /// Used for miscellaneous characters; it can vary by keyboard. For the US standard (code `0xbf`)
    Oem2,
    /// Used for miscellaneous characters; it can vary by keyboard. For the US standard (code `0xc0`)
    Oem3,
    /// Used for miscellaneous characters; it can vary by keyboard. For the US standard (code `0xdb`)
    Oem4,
    /// Used for miscellaneous characters; it can vary by keyboard. For the US standard (code `0xdc`)
    Oem5,
    /// Used for miscellaneous characters; it can vary by keyboard. For the US standard (code `0xdd`)
    Oem6,
    /// Used for miscellaneous characters; it can vary by keyboard. For the US standard (code `0xde`)
    Oem7,
    /// Used for miscellaneous characters; it can vary by keyboard (code `0xdf`)
    Oem8,
    /// Either the angle bracket key or the backslash key on the RT 102-key keyboard (code `0xe2`)
    Oem102,
    /// IME PROCESS key (code `0xe5`)
    ImeProcess,
    /// Attn key (code `0xf6`)
    Attn,
    /// CrSel key (code `0xf7`)
    CrSel,
    /// ExSel key (code `0xf8`)
    ExSel,
    /// Erase EOF key (code `0xf9`)
    EraseEof,
    /// Play key (code `0xfa`)
    Play,
    /// Zoom key (code `0xfb`)
    Zoom,
    /// PA1 key (code `0xfd`)
    Pa1,
    /// Clear key (code `0xfe`)
    OemClear,
}

/// The numeric Virtual-Key Code assigned to a key.
pub open spec fn vk_code(vk: Vk) -> u8 {
    match vk {
        Vk::MouseLeft => 0x01u8,
        Vk::MouseRight => 0x02u8,
        Vk::Cancel => 0x03u8,
        Vk::MouseMiddle => 0x04u8,
        Vk::MouseX1 => 0x05u8,
        Vk::MouseX2 => 0x06u8,
        Vk::Backspace => 0x08u8,
        Vk::Tab => 0x09u8,
        Vk::Clear => 0x0cu8,
        Vk::Enter => 0x0du8,
        Vk::Shift => 0x10u8,
        Vk::Control => 0x11u8,
        Vk::Alt => 0x12u8,
        Vk::Pause => 0x13u8,
        Vk::CapsLock => 0x14u8,
        Vk::Kana => 0x15u8,
        Vk::ImeOn => 0x16u8,
        Vk::Junja => 0x17u8,
        Vk::Final => 0x18u8,
        Vk::Kanji => 0x19u8,
        Vk::ImeOff => 0x1au8,
        Vk::Escape => 0x1bu8,
        Vk::Convert => 0x1cu8,
        Vk::NonConvert => 0x1du8,
        Vk::Accept => 0x1eu8,
        Vk::ModeChange => 0x1fu8,
        Vk::Space => 0x20u8,
        Vk::PageUp => 0x21u8,
        Vk::PageDown => 0x22u8,
        Vk::End => 0x23u8,
        Vk::Home => 0x24u8,
        Vk::LeftArrow => 0x25u8,
        Vk::UpArrow => 0x26u8,
        Vk::RightArrow => 0x27u8,
        Vk::DownArrow => 0x28u8,
        Vk::Select => 0x29u8,
        Vk::Print => 0x2au8,
        Vk::Execute => 0x2bu8,
        Vk::PrintScreen => 0x2cu8,
        Vk::Insert => 0x2du8,
        Vk::Delete => 0x2eu8,
        Vk::Help => 0x2fu8,
        Vk::_0 => 0x30u8,
        Vk::_1 => 0x31u8,
        Vk::_2 => 0x32u8,
        Vk::_3 => 0x33u8,
        Vk::_4 => 0x34u8,
        Vk::_5 => 0x35u8,
        Vk::_6 => 0x36u8,
        Vk::_7 => 0x37u8,
        Vk::_8 => 0x38u8,
        Vk::_9 => 0x39u8,
        Vk::A => 0x41u8,
        Vk::B => 0x42u8,
        Vk::C => 0x43u8,
        Vk::D => 0x44u8,
        Vk::E => 0x45u8,
        Vk::F => 0x46u8,
        Vk::G => 0x47u8,
        Vk::H => 0x48u8,
        Vk::I => 0x49u8,
        Vk::J => 0x4au8,
        Vk::K => 0x4bu8,
        Vk::L => 0x4cu8,
        Vk::M => 0x4du8,
        Vk::N => 0x4eu8,
        Vk::O => 0x4fu8,
        Vk::P => 0x50u8,
        Vk::Q => 0x51u8,
        Vk::R => 0x52u8,
        Vk::S => 0x53u8,
        Vk::T => 0x54u8,
        Vk::U => 0x55u8,
        Vk::V => 0x56u8,
        Vk::W => 0x57u8,
        Vk::X => 0x58u8,
        Vk::Y => 0x59u8,
        Vk::Z => 0x5au8,
        Vk::LeftWin => 0x5bu8,
        Vk::RightWin => 0x5cu8,
        Vk::Apps => 0x5du8,
        Vk::Sleep => 0x5fu8,
        Vk::Numpad0 => 0x60u8,
        Vk::Numpad1 => 0x61u8,
        Vk::Numpad2 => 0x62u8,
        Vk::Numpad3 => 0x63u8,
        Vk::Numpad4 => 0x64u8,
        Vk::Numpad5 => 0x65u8,
        Vk::Numpad6 => 0x66u8,
        Vk::Numpad7 => 0x67u8,
        Vk::Numpad8 => 0x68u8,
        Vk::Numpad9 => 0x69u8,
        Vk::Multiply => 0x6au8,
        Vk::Add => 0x6bu8,
        Vk::Separator => 0x6cu8,
        Vk::Subtract => 0x6du8,
        Vk::Decimal => 0x6eu8,
        Vk::Divide => 0x6fu8,
        Vk::F1 => 0x70u8,
        Vk::F2 => 0x71u8,
        Vk::F3 => 0x72u8,
        Vk::F4 => 0x73u8,
        Vk::F5 => 0x74u8,
        Vk::F6 => 0x75u8,
        Vk::F7 => 0x76u8,
        Vk::F8 => 0x77u8,
        Vk::F9 => 0x78u8,
        Vk::F10 => 0x79u8,
        Vk::F11 => 0x7au8,
        Vk::F12 => 0x7bu8,
        Vk::F13 => 0x7cu8,
        Vk::F14 => 0x7du8,
        Vk::F15 => 0x7eu8,
        Vk::F16 => 0x7fu8,
        Vk::F17 => 0x80u8,
        Vk::F18 => 0x81u8,
        Vk::F19 => 0x82u8,
        Vk::F20 => 0x83u8,
        Vk::F21 => 0x84u8,
        Vk::F22 => 0x85u8,
        Vk::F23 => 0x86u8,
        Vk::F24 => 0x87u8,
        Vk::Numlock => 0x90u8,
        Vk::Scroll => 0x91u8,
        Vk::LeftShift => 0xa0u8,
        Vk::RightShift => 0xa1u8,
        Vk::LeftControl => 0xa2u8,
        Vk::RightControl => 0xa3u8,
        Vk::LeftMenu => 0xa4u8,
        Vk::RightMenu => 0xa5u8,
        Vk::BrowserBack => 0xa6u8,
        Vk::BrowserForward => 0xa7u8,
        Vk::BrowserRefresh => 0xa8u8,
        Vk::BrowserStop => 0xa9u8,
        Vk::BrowserSearch => 0xaau8,
        Vk::BrowserFavorites => 0xabu8,
        Vk::BrowserHome => 0xacu8,
        Vk::VolumeMute => 0xadu8,
        Vk::VolumeDown => 0xaeu8,
        Vk::VolumeUp => 0xafu8,
        Vk::NextTrack => 0xb0u8,
        Vk::PrevTrack => 0xb1u8,
        Vk::MediaStop => 0xb2u8,
        Vk::MediaPlayPause => 0xb3u8,
        Vk::StartMail => 0xb4u8,
        Vk::SelectMedia => 0xb5u8,
        Vk::StartApp1 => 0xb6u8,
        Vk::StartApp2 => 0xb7u8,
        Vk::Oem1 => 0xbau8,
        Vk::Plus => 0xbbu8,
        Vk::Comma => 0xbcu8,
        Vk::Minus => 0xbdu8,
        Vk::Period => 0xbeu8,
        Vk::Oem2 => 0xbfu8,
        Vk::Oem3 => 0xc0u8,
        Vk::Oem4 => 0xdbu8,
        Vk::Oem5 => 0xdcu8,
        Vk::Oem6 => 0xddu8,
        Vk::Oem7 => 0xdeu8,
        Vk::Oem8 => 0xdfu8,
        Vk::Oem102 => 0xe2u8,
        Vk::ImeProcess => 0xe5u8,
        Vk::Attn => 0xf6u8,
        Vk::CrSel => 0xf7u8,
        Vk::ExSel => 0xf8u8,
        Vk::EraseEof => 0xf9u8,
        Vk::Play => 0xfau8,
        Vk::Zoom => 0xfbu8,
        Vk::Pa1 => 0xfdu8,
        Vk::OemClear => 0xfeu8,
    }
}

/// The key a numeric code designates, if the code is assigned.
pub open spec fn vk_of_code(n: u8) -> Option<Vk> {
    match n {
        0x01u8 => Some(Vk::MouseLeft),
        0x02u8 => Some(Vk::MouseRight),
        0x03u8 => Some(Vk::Cancel),
        0x04u8 => Some(Vk::MouseMiddle),
        0x05u8 => Some(Vk::MouseX1),
        0x06u8 => Some(Vk::MouseX2),
        0x08u8 => Some(Vk::Backspace),
        0x09u8 => Some(Vk::Tab),
        0x0cu8 => Some(Vk::Clear),
        0x0du8 => Some(Vk::Enter),
        0x10u8 => Some(Vk::Shift),
        0x11u8 => Some(Vk::Control),
        0x12u8 => Some(Vk::Alt),
        0x13u8 => Some(Vk::Pause),
        0x14u8 => Some(Vk::CapsLock),
        0x15u8 => Some(Vk::Kana),
        0x16u8 => Some(Vk::ImeOn),
        0x17u8 => Some(Vk::Junja),
        0x18u8 => Some(Vk::Final),
        0x19u8 => Some(Vk::Kanji),
        0x1au8 => Some(Vk::ImeOff),
        0x1bu8 => Some(Vk::Escape),
        0x1cu8 => Some(Vk::Convert),
        0x1du8 => Some(Vk::NonConvert),
        0x1eu8 => Some(Vk::Accept),
        0x1fu8 => Some(Vk::ModeChange),
        0x20u8 => Some(Vk::Space),
        0x21u8 => Some(Vk::PageUp),
        0x22u8 => Some(Vk::PageDown),
        0x23u8 => Some(Vk::End),
        0x24u8 => Some(Vk::Home),
        0x25u8 => Some(Vk::LeftArrow),
        0x26u8 => Some(Vk::UpArrow),
        0x27u8 => Some(Vk::RightArrow),
        0x28u8 => Some(Vk::DownArrow),
        0x29u8 => Some(Vk::Select),
        0x2au8 => Some(Vk::Print),
        0x2bu8 => Some(Vk::Execute),
        0x2cu8 => Some(Vk::PrintScreen),
        0x2du8 => Some(Vk::Insert),
        0x2eu8 => Some(Vk::Delete),
        0x2fu8 => Some(Vk::Help),
        0x30u8 => Some(Vk::_0),
        0x31u8 => Some(Vk::_1),
        0x32u8 => Some(Vk::_2),
        0x33u8 => Some(Vk::_3),
        0x34u8 => Some(Vk::_4),
        0x35u8 => Some(Vk::_5),
        0x36u8 => Some(Vk::_6),
        0x37u8 => Some(Vk::_7),
        0x38u8 => Some(Vk::_8),
        0x39u8 => Some(Vk::_9),
        0x41u8 => Some(Vk::A),
        0x42u8 => Some(Vk::B),
        0x43u8 => Some(Vk::C),
        0x44u8 => Some(Vk::D),
        0x45u8 => Some(Vk::E),
        0x46u8 => Some(Vk::F),
        0x47u8 => Some(Vk::G),
        0x48u8 => Some(Vk::H),
        0x49u8 => Some(Vk::I),
        0x4au8 => Some(Vk::J),
        0x4bu8 => Some(Vk::K),
        0x4cu8 => Some(Vk::L),
        0x4du8 => Some(Vk::M),
        0x4eu8 => Some(Vk::N),
        0x4fu8 => Some(Vk::O),
        0x50u8 => Some(Vk::P),
        0x51u8 => Some(Vk::Q),
        0x52u8 => Some(Vk::R),
        0x53u8 => Some(Vk::S),
        0x54u8 => Some(Vk::T),
        0x55u8 => Some(Vk::U),
        0x56u8 => Some(Vk::V),
        0x57u8 => Some(Vk::W),
        0x58u8 => Some(Vk::X),
        0x59u8 => Some(Vk::Y),
        0x5au8 => Some(Vk::Z),
        0x5bu8 => Some(Vk::LeftWin),
        0x5cu8 => Some(Vk::RightWin),
        0x5du8 => Some(Vk::Apps),
        0x5fu8 => Some(Vk::Sleep),
        0x60u8 => Some(Vk::Numpad0),
        0x61u8 => Some(Vk::Numpad1),
        0x62u8 => Some(Vk::Numpad2),
        0x63u8 => Some(Vk::Numpad3),
        0x64u8 => Some(Vk::Numpad4),
        0x65u8 => Some(Vk::Numpad5),
        0x66u8 => Some(Vk::Numpad6),
        0x67u8 => Some(Vk::Numpad7),
        0x68u8 => Some(Vk::Numpad8),
        0x69u8 => Some(Vk::Numpad9),
        0x6au8 => Some(Vk::Multiply),
        0x6bu8 => Some(Vk::Add),
        0x6cu8 => Some(Vk::Separator),
        0x6du8 => Some(Vk::Subtract),
        0x6eu8 => Some(Vk::Decimal),
        0x6fu8 => Some(Vk::Divide),
        0x70u8 => Some(Vk::F1),
        0x71u8 => Some(Vk::F2),
        0x72u8 => Some(Vk::F3),
        0x73u8 => Some(Vk::F4),
        0x74u8 => Some(Vk::F5),
        0x75u8 => Some(Vk::F6),
        0x76u8 => Some(Vk::F7),
        0x77u8 => Some(Vk::F8),
        0x78u8 => Some(Vk::F9),
        0x79u8 => Some(Vk::F10),
        0x7au8 => Some(Vk::F11),
        0x7bu8 => Some(Vk::F12),
        0x7cu8 => Some(Vk::F13),
        0x7du8 => Some(Vk::F14),
        0x7eu8 => Some(Vk::F15),
        0x7fu8 => Some(Vk::F16),
        0x80u8 => Some(Vk::F17),
        0x81u8 => Some(Vk::F18),
        0x82u8 => Some(Vk::F19),
        0x83u8 => Some(Vk::F20),
        0x84u8 => Some(Vk::F21),
        0x85u8 => Some(Vk::F22),
        0x86u8 => Some(Vk::F23),
        0x87u8 => Some(Vk::F24),
        0x90u8 => Some(Vk::Numlock),
        0x91u8 => Some(Vk::Scroll),
        0xa0u8 => Some(Vk::LeftShift),
        0xa1u8 => Some(Vk::RightShift),
        0xa2u8 => Some(Vk::LeftControl),
        0xa3u8 => Some(Vk::RightControl),
        0xa4u8 => Some(Vk::LeftMenu),
        0xa5u8 => Some(Vk::RightMenu),
        0xa6u8 => Some(Vk::BrowserBack),
        0xa7u8 => Some(Vk::BrowserForward),
        0xa8u8 => Some(Vk::BrowserRefresh),
        0xa9u8 => Some(Vk::BrowserStop),
        0xaau8 => Some(Vk::BrowserSearch),
        0xabu8 => Some(Vk::BrowserFavorites),
        0xacu8 => Some(Vk::BrowserHome),
        0xadu8 => Some(Vk::VolumeMute),
        0xaeu8 => Some(Vk::VolumeDown),
        0xafu8 => Some(Vk::VolumeUp),
        0xb0u8 => Some(Vk::NextTrack),
        0xb1u8 => Some(Vk::PrevTrack),
        0xb2u8 => Some(Vk::MediaStop),
        0xb3u8 => Some(Vk::MediaPlayPause),
        0xb4u8 => Some(Vk::StartMail),
        0xb5u8 => Some(Vk::SelectMedia),
        0xb6u8 => Some(Vk::StartApp1),
        0xb7u8 => Some(Vk::StartApp2),
        0xbau8 => Some(Vk::Oem1),
        0xbbu8 => Some(Vk::Plus),
        0xbcu8 => Some(Vk::Comma),
        0xbdu8 => Some(Vk::Minus),
        0xbeu8 => Some(Vk::Period),
        0xbfu8 => Some(Vk::Oem2),
        0xc0u8 => Some(Vk::Oem3),
        0xdbu8 => Some(Vk::Oem4),
        0xdcu8 => Some(Vk::Oem5),
        0xddu8 => Some(Vk::Oem6),
        0xdeu8 => Some(Vk::Oem7),
        0xdfu8 => Some(Vk::Oem8),
        0xe2u8 => Some(Vk::Oem102),
        0xe5u8 => Some(Vk::ImeProcess),
        0xf6u8 => Some(Vk::Attn),
        0xf7u8 => Some(Vk::CrSel),
        0xf8u8 => Some(Vk::ExSel),
        0xf9u8 => Some(Vk::EraseEof),
        0xfau8 => Some(Vk::Play),
        0xfbu8 => Some(Vk::Zoom),
        0xfdu8 => Some(Vk::Pa1),
        0xfeu8 => Some(Vk::OemClear),
        _ => None,
    }
}

/// The keys the operating system treats as extended: failure to mark them
/// as such when sending them prevents proper processing.
pub open spec fn extended_key(vk: Vk) -> bool {
    match vk {
        Vk::RightMenu | Vk::RightControl
        | Vk::Insert | Vk::Delete
        | Vk::Home | Vk::End
        | Vk::PageUp | Vk::PageDown
        | Vk::LeftArrow | Vk::RightArrow | Vk::UpArrow | Vk::DownArrow
        | Vk::Numlock | Vk::Pause | Vk::PrintScreen
        | Vk::Divide
        | Vk::LeftWin
        | Vk::BrowserSearch
        | Vk::VolumeDown | Vk::VolumeUp | Vk::NextTrack | Vk::PrevTrack
        | Vk::MediaStop | Vk::MediaPlayPause | Vk::SelectMedia
        | Vk::StartMail | Vk::Apps | Vk::StartApp1 | Vk::StartApp2 => true,
        _ => false,
    }
}

impl Vk {
    /// Creates a Virtual-Key Code from the given `u8` in a safe manner.
    /// Returns `None` if there is no virtual key associated with the code.
    pub fn from_u8_safe(n: u8) -> (r: Option<Vk>)
        ensures
            r == vk_of_code(n),
    {
        match n {
            0x01 => Some(Vk::MouseLeft),
            0x02 => Some(Vk::MouseRight),
            0x03 => Some(Vk::Cancel),
            0x04 => Some(Vk::MouseMiddle),
            0x05 => Some(Vk::MouseX1),
            0x06 => Some(Vk::MouseX2),
            0x08 => Some(Vk::Backspace),
            0x09 => Some(Vk::Tab),
            0x0c => Some(Vk::Clear),
            0x0d => Some(Vk::Enter),
            0x10 => Some(Vk::Shift),
            0x11 => Some(Vk::Control),
            0x12 => Some(Vk::Alt),
            0x13 => Some(Vk::Pause),
            0x14 => Some(Vk::CapsLock),
            0x15 => Some(Vk::Kana),
            0x16 => Some(Vk::ImeOn),
            0x17 => Some(Vk::Junja),
            0x18 => Some(Vk::Final),
            0x19 => Some(Vk::Kanji),
            0x1a => Some(Vk::ImeOff),
            0x1b => Some(Vk::Escape),
            0x1c => Some(Vk::Convert),
            0x1d => Some(Vk::NonConvert),
            0x1e => Some(Vk::Accept),
            0x1f => Some(Vk::ModeChange),
            0x20 => Some(Vk::Space),
            0x21 => Some(Vk::PageUp),
            0x22 => Some(Vk::PageDown),
            0x23 => Some(Vk::End),
            0x24 => Some(Vk::Home),
            0x25 => Some(Vk::LeftArrow),
            0x26 => Some(Vk::UpArrow),
            0x27 => Some(Vk::RightArrow),
            0x28 => Some(Vk::DownArrow),
            0x29 => Some(Vk::Select),
            0x2a => Some(Vk::Print),
            0x2b => Some(Vk::Execute),
            0x2c => Some(Vk::PrintScreen),
            0x2d => Some(Vk::Insert),
            0x2e => Some(Vk::Delete),
            0x2f => Some(Vk::Help),
            0x30 => Some(Vk::_0),
            0x31 => Some(Vk::_1),
            0x32 => Some(Vk::_2),
            0x33 => Some(Vk::_3),
            0x34 => Some(Vk::_4),
            0x35 => Some(Vk::_5),
            0x36 => Some(Vk::_6),
            0x37 => Some(Vk::_7),
            0x38 => Some(Vk::_8),
            0x39 => Some(Vk::_9),
            0x41 => Some(Vk::A),
            0x42 => Some(Vk::B),
            0x43 => Some(Vk::C),
            0x44 => Some(Vk::D),
            0x45 => Some(Vk::E),
            0x46 => Some(Vk::F),
            0x47 => Some(Vk::G),
            0x48 => Some(Vk::H),
            0x49 => Some(Vk::I),
            0x4a => Some(Vk::J),
            0x4b => Some(Vk::K),
            0x4c => Some(Vk::L),
            0x4d => Some(Vk::M),
            0x4e => Some(Vk::N),
            0x4f => Some(Vk::O),
            0x50 => Some(Vk::P),
            0x51 => Some(Vk::Q),
            0x52 => Some(Vk::R),
            0x53 => Some(Vk::S),
            0x54 => Some(Vk::T),
            0x55 => Some(Vk::U),
            0x56 => Some(Vk::V),
            0x57 => Some(Vk::W),
            0x58 => Some(Vk::X),
            0x59 => Some(Vk::Y),
            0x5a => Some(Vk::Z),
            0x5b => Some(Vk::LeftWin),
            0x5c => Some(Vk::RightWin),
            0x5d => Some(Vk::Apps),
            0x5f => Some(Vk::Sleep),
            0x60 => Some(Vk::Numpad0),
            0x61 => Some(Vk::Numpad1),
            0x62 => Some(Vk::Numpad2),
            0x63 => Some(Vk::Numpad3),
            0x64 => Some(Vk::Numpad4),
            0x65 => Some(Vk::Numpad5),
            0x66 => Some(Vk::Numpad6),
            0x67 => Some(Vk::Numpad7),
            0x68 => Some(Vk::Numpad8),
            0x69 => Some(Vk::Numpad9),
            0x6a => Some(Vk::Multiply),
            0x6b => Some(Vk::Add),
            0x6c => Some(Vk::Separator),
            0x6d => Some(Vk::Subtract),
            0x6e => Some(Vk::Decimal),
            0x6f => Some(Vk::Divide),
            0x70 => Some(Vk::F1),
            0x71 => Some(Vk::F2),
            0x72 => Some(Vk::F3),
            0x73 => Some(Vk::F4),
            0x74 => Some(Vk::F5),
            0x75 => Some(Vk::F6),
            0x76 => Some(Vk::F7),
            0x77 => Some(Vk::F8),
            0x78 => Some(Vk::F9),
            0x79 => Some(Vk::F10),
            0x7a => Some(Vk::F11),
            0x7b => Some(Vk::F12),
            0x7c => Some(Vk::F13),
            0x7d => Some(Vk::F14),
            0x7e => Some(Vk::F15),
            0x7f => Some(Vk::F16),
            0x80 => Some(Vk::F17),
            0x81 => Some(Vk::F18),
            0x82 => Some(Vk::F19),
            0x83 => Some(Vk::F20),
            0x84 => Some(Vk::F21),
            0x85 => Some(Vk::F22),
            0x86 => Some(Vk::F23),
            0x87 => Some(Vk::F24),
            0x90 => Some(Vk::Numlock),
            0x91 => Some(Vk::Scroll),
            0xa0 => Some(Vk::LeftShift),
            0xa1 => Some(Vk::RightShift),
            0xa2 => Some(Vk::LeftControl),
            0xa3 => Some(Vk::RightControl),
            0xa4 => Some(Vk::LeftMenu),
            0xa5 => Some(Vk::RightMenu),
            0xa6 => Some(Vk::BrowserBack),
            0xa7 => Some(Vk::BrowserForward),
            0xa8 => Some(Vk::BrowserRefresh),
            0xa9 => Some(Vk::BrowserStop),
            0xaa => Some(Vk::BrowserSearch),
            0xab => Some(Vk::BrowserFavorites),
            0xac => Some(Vk::BrowserHome),
            0xad => Some(Vk::VolumeMute),
            0xae => Some(Vk::VolumeDown),
            0xaf => Some(Vk::VolumeUp),
            0xb0 => Some(Vk::NextTrack),
            0xb1 => Some(Vk::PrevTrack),
            0xb2 => Some(Vk::MediaStop),
            0xb3 => Some(Vk::MediaPlayPause),
            0xb4 => Some(Vk::StartMail),
            0xb5 => Some(Vk::SelectMedia),
            0xb6 => Some(Vk::StartApp1),
            0xb7 => Some(Vk::StartApp2),
            0xba => Some(Vk::Oem1),
            0xbb => Some(Vk::Plus),
            0xbc => Some(Vk::Comma),
            0xbd => Some(Vk::Minus),
            0xbe => Some(Vk::Period),
            0xbf => Some(Vk::Oem2),
            0xc0 => Some(Vk::Oem3),
            0xdb => Some(Vk::Oem4),
            0xdc => Some(Vk::Oem5),
            0xdd => Some(Vk::Oem6),
            0xde => Some(Vk::Oem7),
            0xdf => Some(Vk::Oem8),
            0xe2 => Some(Vk::Oem102),
            0xe5 => Some(Vk::ImeProcess),
            0xf6 => Some(Vk::Attn),
            0xf7 => Some(Vk::CrSel),
            0xf8 => Some(Vk::ExSel),
            0xf9 => Some(Vk::EraseEof),
            0xfa => Some(Vk::Play),
            0xfb => Some(Vk::Zoom),
            0xfd => Some(Vk::Pa1),
            0xfe => Some(Vk::OemClear),
            _ => None,
        }
    }

    /// Converts this Virtual-Key Code into a `u8`.
    pub fn into_u8(self) -> (r: u8)
        ensures
            r == vk_code(self),
    {
        match self {
            Vk::MouseLeft => 0x01,
            Vk::MouseRight => 0x02,
            Vk::Cancel => 0x03,
            Vk::MouseMiddle => 0x04,
            Vk::MouseX1 => 0x05,
            Vk::MouseX2 => 0x06,
            Vk::Backspace => 0x08,
            Vk::Tab => 0x09,
            Vk::Clear => 0x0c,
            Vk::Enter => 0x0d,
            Vk::Shift => 0x10,
            Vk::Control => 0x11,
            Vk::Alt => 0x12,
            Vk::Pause => 0x13,
            Vk::CapsLock => 0x14,
            Vk::Kana => 0x15,
            Vk::ImeOn => 0x16,
            Vk::Junja => 0x17,
            Vk::Final => 0x18,
            Vk::Kanji => 0x19,
            Vk::ImeOff => 0x1a,
            Vk::Escape => 0x1b,
            Vk::Convert => 0x1c,
            Vk::NonConvert => 0x1d,
            Vk::Accept => 0x1e,
            Vk::ModeChange => 0x1f,
            Vk::Space => 0x20,
            Vk::PageUp => 0x21,
            Vk::PageDown => 0x22,
            Vk::End => 0x23,
            Vk::Home => 0x24,
            Vk::LeftArrow => 0x25,
            Vk::UpArrow => 0x26,
            Vk::RightArrow => 0x27,
            Vk::DownArrow => 0x28,
            Vk::Select => 0x29,
            Vk::Print => 0x2a,
            Vk::Execute => 0x2b,
            Vk::PrintScreen => 0x2c,
            Vk::Insert => 0x2d,
            Vk::Delete => 0x2e,
            Vk::Help => 0x2f,
            Vk::_0 => 0x30,
            Vk::_1 => 0x31,
            Vk::_2 => 0x32,
            Vk::_3 => 0x33,
            Vk::_4 => 0x34,
            Vk::_5 => 0x35,
            Vk::_6 => 0x36,
            Vk::_7 => 0x37,
            Vk::_8 => 0x38,
            Vk::_9 => 0x39,
            Vk::A => 0x41,
            Vk::B => 0x42,
            Vk::C => 0x43,
            Vk::D => 0x44,
            Vk::E => 0x45,
            Vk::F => 0x46,
            Vk::G => 0x47,
            Vk::H => 0x48,
            Vk::I => 0x49,
            Vk::J => 0x4a,
            Vk::K => 0x4b,
            Vk::L => 0x4c,
            Vk::M => 0x4d,
            Vk::N => 0x4e,
            Vk::O => 0x4f,
            Vk::P => 0x50,
            Vk::Q => 0x51,
            Vk::R => 0x52,
            Vk::S => 0x53,
            Vk::T => 0x54,
            Vk::U => 0x55,
            Vk::V => 0x56,
            Vk::W => 0x57,
            Vk::X => 0x58,
            Vk::Y => 0x59,
            Vk::Z => 0x5a,
            Vk::LeftWin => 0x5b,
            Vk::RightWin => 0x5c,
            Vk::Apps => 0x5d,
            Vk::Sleep => 0x5f,
            Vk::Numpad0 => 0x60,
            Vk::Numpad1 => 0x61,
            Vk::Numpad2 => 0x62,
            Vk::Numpad3 => 0x63,
            Vk::Numpad4 => 0x64,
            Vk::Numpad5 => 0x65,
            Vk::Numpad6 => 0x66,
            Vk::Numpad7 => 0x67,
            Vk::Numpad8 => 0x68,
            Vk::Numpad9 => 0x69,
            Vk::Multiply => 0x6a,
            Vk::Add => 0x6b,
            Vk::Separator => 0x6c,
            Vk::Subtract => 0x6d,
            Vk::Decimal => 0x6e,
            Vk::Divide => 0x6f,
            Vk::F1 => 0x70,
            Vk::F2 => 0x71,
            Vk::F3 => 0x72,
            Vk::F4 => 0x73,
            Vk::F5 => 0x74,
            Vk::F6 => 0x75,
            Vk::F7 => 0x76,
            Vk::F8 => 0x77,
            Vk::F9 => 0x78,
            Vk::F10 => 0x79,
            Vk::F11 => 0x7a,
            Vk::F12 => 0x7b,
            Vk::F13 => 0x7c,
            Vk::F14 => 0x7d,
            Vk::F15 => 0x7e,
            Vk::F16 => 0x7f,
            Vk::F17 => 0x80,
            Vk::F18 => 0x81,
            Vk::F19 => 0x82,
            Vk::F20 => 0x83,
            Vk::F21 => 0x84,
            Vk::F22 => 0x85,
            Vk::F23 => 0x86,
            Vk::F24 => 0x87,
            Vk::Numlock => 0x90,
            Vk::Scroll => 0x91,
            Vk::LeftShift => 0xa0,
            Vk::RightShift => 0xa1,
            Vk::LeftControl => 0xa2,
            Vk::RightControl => 0xa3,
            Vk::LeftMenu => 0xa4,
            Vk::RightMenu => 0xa5,
            Vk::BrowserBack => 0xa6,
            Vk::BrowserForward => 0xa7,
            Vk::BrowserRefresh => 0xa8,
            Vk::BrowserStop => 0xa9,
            Vk::BrowserSearch => 0xaa,
            Vk::BrowserFavorites => 0xab,
            Vk::BrowserHome => 0xac,
            Vk::VolumeMute => 0xad,
            Vk::VolumeDown => 0xae,
            Vk::VolumeUp => 0xaf,
            Vk::NextTrack => 0xb0,
            Vk::PrevTrack => 0xb1,
            Vk::MediaStop => 0xb2,
            Vk::MediaPlayPause => 0xb3,
            Vk::StartMail => 0xb4,
            Vk::SelectMedia => 0xb5,
            Vk::StartApp1 => 0xb6,
            Vk::StartApp2 => 0xb7,
            Vk::Oem1 => 0xba,
            Vk::Plus => 0xbb,
            Vk::Comma => 0xbc,
            Vk::Minus => 0xbd,
            Vk::Period => 0xbe,
            Vk::Oem2 => 0xbf,
            Vk::Oem3 => 0xc0,
            Vk::Oem4 => 0xdb,
            Vk::Oem5 => 0xdc,
            Vk::Oem6 => 0xdd,
            Vk::Oem7 => 0xde,
            Vk::Oem8 => 0xdf,
            Vk::Oem102 => 0xe2,
            Vk::ImeProcess => 0xe5,
            Vk::Attn => 0xf6,
            Vk::CrSel => 0xf7,
            Vk::ExSel => 0xf8,
            Vk::EraseEof => 0xf9,
            Vk::Play => 0xfa,
            Vk::Zoom => 0xfb,
            Vk::Pa1 => 0xfd,
            Vk::OemClear => 0xfe,
        }
    }

    /// Is the key extended.
    ///
    /// The operating system considers some keys as extended. Failure to
    /// mark them as such when sending them prevents proper processing
    /// (for example, Shift + Arrow might not extend the selection).
    pub fn is_extended(self) -> (r: bool)
        ensures
            r == extended_key(self),
    {
        match self {
            Vk::RightMenu | Vk::RightControl
            | Vk::Insert | Vk::Delete
            | Vk::Home | Vk::End
            | Vk::PageUp | Vk::PageDown
            | Vk::LeftArrow | Vk::RightArrow | Vk::UpArrow | Vk::DownArrow
            | Vk::Numlock | Vk::Pause | Vk::PrintScreen
            | Vk::Divide
            | Vk::LeftWin
            | Vk::BrowserSearch
            | Vk::VolumeDown | Vk::VolumeUp | Vk::NextTrack | Vk::PrevTrack
            | Vk::MediaStop | Vk::MediaPlayPause | Vk::SelectMedia
            | Vk::StartMail | Vk::Apps | Vk::StartApp1 | Vk::StartApp2 => true,
            _ => false,
        }
    }

    /// Checks if a given code is a valid virtual key.
    pub fn is_valid(n: u8) -> (r: bool)
        ensures
            r <==> vk_of_code(n) is Some,
    {
        Vk::from_u8_safe(n).is_some()
    }
}

} // verus!
