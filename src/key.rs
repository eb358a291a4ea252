use vstd::prelude::*;

verus! {

/// A keyboard key, independent of the windowing layer's own codes.
#[derive(Debug, Copy, Clone, PartialEq, Eq, Hash, Structural)]
#[allow(non_camel_case_types)]
pub enum KeyCode {
    Unknown,
    Tab,
    Enter,
    Space,
    Apostrophe,
    Comma,
    Minus,
    Period,
    ForwardSlash,
    _0,
    _1,
    _2,
    _3,
    _4,
    _5,
    _6,
    _7,
    _8,
    _9,
    Semicolon,
    Equals,
    A,
    B,
    C,
    D,
    E,
    F,
    G,
    H,
    I,
    J,
    K,
    L,
    M,
    N,
    O,
    P,
    Q,
    R,
    S,
    T,
    U,
    V,
    W,
    X,
    Y,
    Z,
    LeftBracket,
    BackSlash,
    RightBracket,
    Accent,
    Escape,
    NumEnter,
    Backspace,
    Insert,
    Delete,
    Up,
    Down,
    Left,
    Right,
    PageUp,
    PageDown,
    Home,
    End,
    CapsLock,
    ScrollLock,
    NumLock,
    PrintScreen,
    Pause,
    Num0,
    Num1,
    Num2,
    Num3,
    Num4,
    Num5,
    Num6,
    Num7,
    Num8,
    Num9,
    F1,
    F2,
    F3,
    F4,
    F5,
    F6,
    F7,
    F8,
    F9,
    F10,
    F11,
    F12,
    F13,
    F14,
    F15,
    F16,
    F17,
    F18,
    F19,
    F20,
    F21,
    F22,
    F23,
    F24,
    F25,
    NumPeriod,
    NumComma,
    NumPlus,
    NumHyphen,
    NumSlash,
    NumAsterisk,
    NumEquals,
    LeftShift,
    LeftControl,
    LeftAlt,
    LeftSuper,
    RightShift,
    RightControl,
    RightAlt,
    RightSuper,
    Menu,
    /// The "Compose" key on Linux.
    Compose,
    Caret,
    AbntC1,
    AbntC2,
    Asterisk,
    At,
    Ax,
    Calculator,
    Colon,
    Convert,
    Kana,
    Kanji,
    Mail,
    MediaSelect,
    MediaStop,
    Mute,
    MyComputer,
    NavigateForward,
    NavigateBackward,
    NextTrack,
    NoConvert,
    OEM102,
    PlayPause,
    Plus,
    Power,
    PrevTrack,
    Sleep,
    Stop,
    SysRq,
    Underline,
    Unlabeled,
    VolumeDown,
    VolumeUp,
    Wake,
    WebBack,
    WebFavorites,
    WebForward,
    WebHome,
    WebRefresh,
    WebSearch,
    WebStop,
    Yen,
    Copy,
    Paste,
    Cut,
}

} // verus!
