use crate::common::types::Size;
use crate::common::unicode::push_char;
use vstd::prelude::*;
use vstd::std_specs::convert::TryFromSpecImpl;

verus! {

/// No modifier key held.
pub const MODIFIER_NONE: u8 = 0;

/// The shift key.
pub const MODIFIER_SHIFT: u8 = 1;

/// The control key.
pub const MODIFIER_CONTROL: u8 = 2;

/// The alt key.
pub const MODIFIER_ALT: u8 = 4;

/// The super key.
pub const MODIFIER_SUPER: u8 = 8;

/// The hyper key.
pub const MODIFIER_HYPER: u8 = 16;

/// The meta key.
pub const MODIFIER_META: u8 = 32;

/// A key of the keyboard.
#[derive(Clone, Copy, Debug, PartialEq, Eq, Structural)]
pub enum KeyCode {
    Backspace,
    Enter,
    Left,
    Right,
    Up,
    Down,
    Home,
    End,
    PageUp,
    PageDown,
    Tab,
    BackTab,
    Delete,
    Insert,
    F(u8),
    Char(char),
    Null,
    Esc,
    CapsLock,
    ScrollLock,
    NumLock,
    PrintScreen,
    Pause,
    Menu,
    KeypadBegin,
    Media(MediaKeyCode),
    Modifier(ModifierKeyCode),
}

/// A media key.
#[derive(Clone, Copy, Debug, PartialEq, Eq, Structural)]
pub enum MediaKeyCode {
    Play,
    Pause,
    PlayPause,
    Reverse,
    Stop,
    FastForward,
    Rewind,
    TrackNext,
    TrackPrevious,
    Record,
    LowerVolume,
    RaiseVolume,
    MuteVolume,
}

/// A modifier key pressed on its own.
#[derive(Clone, Copy, Debug, PartialEq, Eq, Structural)]
pub enum ModifierKeyCode {
    LeftShift,
    LeftControl,
    LeftAlt,
    LeftSuper,
    LeftHyper,
    LeftMeta,
    RightShift,
    RightControl,
    RightAlt,
    RightSuper,
    RightHyper,
    RightMeta,
    IsoLevel3Shift,
    IsoLevel5Shift,
}

/// A mouse button.
#[derive(Clone, Copy, Debug, PartialEq, Eq, Structural)]
pub enum MouseButton {
    Left,
    Right,
    Middle,
}

/// What the mouse did.
#[derive(Clone, Copy, Debug, PartialEq, Eq, Structural)]
pub enum MouseEventKind {
    Down(MouseButton),
    Up(MouseButton),
    Drag(MouseButton),
    Moved,
    ScrollDown,
    ScrollUp,
    ScrollLeft,
    ScrollRight,
}

/// A mouse event: what happened, at which cell, and the modifier keys held
/// (a set of `MODIFIER_*` bits, with the terminal's other modifier bits).
#[derive(Clone, Copy, Debug, PartialEq, Eq, Structural)]
pub struct MouseEvent {
    pub kind: MouseEventKind,
    pub column: u16,
    pub row: u16,
    pub modifiers: u8,
}

/// A key press: the key and the modifier keys held with it (a set of
/// `MODIFIER_*` bits).
#[derive(Clone, Copy, Debug, PartialEq, Eq, Structural)]
pub struct KeyEvent {
    pub code: KeyCode,
    pub modifiers: u8,
}

impl KeyEvent {
    pub fn new(code: KeyCode, modifiers: u8) -> (event: Self)
        ensures
            event.code == code,
            event.modifiers == modifiers,
    {
        Self { code, modifiers }
    }
}

/// An event of the terminal.
#[derive(Debug, PartialEq, Eq)]
pub enum Event {
    FocusGained,
    FocusLost,
    Key(KeyEvent),
    Mouse(MouseEvent),
    Paste(String),
    Resize(u16, u16),
}

/// A direction in which the caret moves.
#[derive(Clone, Copy, Debug, PartialEq, Eq, Structural)]
pub enum Direction {
    PageUp,
    PageDown,
    Home,
    End,
    Up,
    Left,
    Right,
    Down,
}

/// What the editor is asked to do.
#[derive(Clone, Copy, Debug, PartialEq, Eq, Structural)]
pub enum EditorCommand {
    Move(Direction),
    Resize(Size),
    Insert(char),
    NewLine,
    Delete,
    BackSpace,
    Quit,
}

/// Why an event maps to no command.
#[derive(Debug, PartialEq, Eq)]
pub enum CommandError {
    /// A key (with its modifiers) that has no command.
    UnsupportedKey(KeyCode),
    /// An event other than a key press or a resize.
    UnsupportedEvent(Event),
}

/// The command a key press asks for.
pub open spec fn key_command(code: KeyCode, modifiers: u8) -> Result<EditorCommand, CommandError> {
    if code == KeyCode::Char('q') && modifiers == MODIFIER_CONTROL {
        Ok(EditorCommand::Quit)
    } else if modifiers == MODIFIER_NONE {
        match code {
            KeyCode::Up => Ok(EditorCommand::Move(Direction::Up)),
            KeyCode::Down => Ok(EditorCommand::Move(Direction::Down)),
            KeyCode::Left => Ok(EditorCommand::Move(Direction::Left)),
            KeyCode::Right => Ok(EditorCommand::Move(Direction::Right)),
            KeyCode::PageDown => Ok(EditorCommand::Move(Direction::PageDown)),
            KeyCode::PageUp => Ok(EditorCommand::Move(Direction::PageUp)),
            KeyCode::Home => Ok(EditorCommand::Move(Direction::Home)),
            KeyCode::End => Ok(EditorCommand::Move(Direction::End)),
            KeyCode::Char(c) => Ok(EditorCommand::Insert(c)),
            KeyCode::Tab => Ok(EditorCommand::Insert('\t')),
            KeyCode::Enter => Ok(EditorCommand::NewLine),
            KeyCode::Delete => Ok(EditorCommand::Delete),
            KeyCode::Backspace => Ok(EditorCommand::BackSpace),
            _ => Err(CommandError::UnsupportedKey(code)),
        }
    } else if modifiers == MODIFIER_SHIFT {
        match code {
            KeyCode::Char(c) => Ok(EditorCommand::Insert(c)),
            _ => Err(CommandError::UnsupportedKey(code)),
        }
    } else {
        Err(CommandError::UnsupportedKey(code))
    }
}

/// The command an event asks for.
pub open spec fn event_command(event: Event) -> Result<EditorCommand, CommandError> {
    match event {
        Event::Key(key) => key_command(key.code, key.modifiers),
        Event::Resize(width, height) => Ok(
            EditorCommand::Resize(Size { height: height as usize, width: width as usize }),
        ),
        _ => Err(CommandError::UnsupportedEvent(event)),
    }
}

impl EditorCommand {
    /// The command for a key press.
    fn from_key(code: KeyCode, modifiers: u8) -> (command: Result<Self, CommandError>)
        ensures
            command == key_command(code, modifiers),
    {
        match (code, modifiers) {
            // Program control
            (KeyCode::Char('q'), MODIFIER_CONTROL) => Ok(Self::Quit),
            // Caret movement
            (KeyCode::Up, MODIFIER_NONE) => Ok(Self::Move(Direction::Up)),
            (KeyCode::Down, MODIFIER_NONE) => Ok(Self::Move(Direction::Down)),
            (KeyCode::Left, MODIFIER_NONE) => Ok(Self::Move(Direction::Left)),
            (KeyCode::Right, MODIFIER_NONE) => Ok(Self::Move(Direction::Right)),
            (KeyCode::PageDown, MODIFIER_NONE) => Ok(Self::Move(Direction::PageDown)),
            (KeyCode::PageUp, MODIFIER_NONE) => Ok(Self::Move(Direction::PageUp)),
            (KeyCode::Home, MODIFIER_NONE) => Ok(Self::Move(Direction::Home)),
            (KeyCode::End, MODIFIER_NONE) => Ok(Self::Move(Direction::End)),
            // Ordinary presses
            (KeyCode::Char(c), MODIFIER_NONE) => Ok(Self::Insert(c)),
            (KeyCode::Char(c), MODIFIER_SHIFT) => Ok(Self::Insert(c)),
            // Tab inserts a literal tab character
            (KeyCode::Tab, MODIFIER_NONE) => Ok(Self::Insert('\t')),
            // Enter
            (KeyCode::Enter, MODIFIER_NONE) => Ok(Self::NewLine),
            // Delete
            (KeyCode::Delete, MODIFIER_NONE) => Ok(Self::Delete),
            // Backspace
            (KeyCode::Backspace, MODIFIER_NONE) => Ok(Self::BackSpace),
            _ => Err(CommandError::UnsupportedKey(code)),
        }
    }
}

impl TryFrom<Event> for EditorCommand {
    type Error = CommandError;

    fn try_from(event: Event) -> (command: Result<Self, Self::Error>) {
        match event {
            Event::Key(KeyEvent { code, modifiers }) => Self::from_key(code, modifiers),
            Event::Resize(width_u16, height_u16) => {
                let height = height_u16 as usize;
                let width = width_u16 as usize;
                Ok(Self::Resize(Size { height, width }))
            },
            other => Err(CommandError::UnsupportedEvent(other)),
        }
    }
}

impl TryFromSpecImpl<Event> for EditorCommand {
    open spec fn obeys_try_from_spec() -> bool {
        true
    }

    open spec fn try_from_spec(event: Event) -> Result<Self, CommandError> {
        event_command(event)
    }
}

/// The decimal digits of `n`.
pub open spec fn decimal(n: nat) -> Seq<char>
    decreases n,
{
    if n < 10 {
        seq![digit(n)]
    } else {
        decimal(n / 10).push(digit(n % 10))
    }
}

/// The character of the decimal digit `d`.
pub open spec fn digit(d: nat) -> char {
    ((48 + d) as u8) as char
}

/// How `{:?}` writes a character, quotes and escapes included, as
/// `<char as Debug>::fmt` produces it.
pub uninterp spec fn spec_char_debug(c: char) -> Seq<char>;

/// How `{:?}` writes a string, quotes and escapes included, as
/// `<str as Debug>::fmt` produces it.
pub uninterp spec fn spec_str_debug(s: Seq<char>) -> Seq<char>;

/// `c` written with `{:?}`.
///
/// Trusted: the result is the named Debug form of `c`; nothing more is claimed.
#[verifier::external_body]
fn char_debug(c: char) -> (text: String)
    ensures
        text@ == spec_char_debug(c),
{
    format!("{c:?}")
}

/// `s` written with `{:?}`.
///
/// Trusted: the result is the named Debug form of `s`; nothing more is claimed.
#[verifier::external_body]
fn str_debug(s: &str) -> (text: String)
    ensures
        text@ == spec_str_debug(s@),
{
    format!("{s:?}")
}

/// Appends the decimal digits of `n` to `text`.
fn push_decimal(text: &mut String, n: u16)
    ensures
        final(text)@ == old(text)@ + decimal(n as nat),
    decreases n,
{
    if n >= 10 {
        push_decimal(text, n / 10);
    }
    let d = (n % 10) as u8;
    push_char(text, (48 + d) as char);
    proof {
        assert(decimal(n as nat) == if n < 10 {
            seq![digit(n as nat)]
        } else {
            decimal((n / 10) as nat).push(digit((n % 10) as nat))
        });
    }
}

/// How a media key is written in messages: its name.
pub open spec fn media_key_text(key: MediaKeyCode) -> Seq<char> {
    match key {
        MediaKeyCode::Play => "Play"@,
        MediaKeyCode::Pause => "Pause"@,
        MediaKeyCode::PlayPause => "PlayPause"@,
        MediaKeyCode::Reverse => "Reverse"@,
        MediaKeyCode::Stop => "Stop"@,
        MediaKeyCode::FastForward => "FastForward"@,
        MediaKeyCode::Rewind => "Rewind"@,
        MediaKeyCode::TrackNext => "TrackNext"@,
        MediaKeyCode::TrackPrevious => "TrackPrevious"@,
        MediaKeyCode::Record => "Record"@,
        MediaKeyCode::LowerVolume => "LowerVolume"@,
        MediaKeyCode::RaiseVolume => "RaiseVolume"@,
        MediaKeyCode::MuteVolume => "MuteVolume"@,
    }
}

/// How a modifier key is written in messages: its name.
pub open spec fn modifier_key_text(key: ModifierKeyCode) -> Seq<char> {
    match key {
        ModifierKeyCode::LeftShift => "LeftShift"@,
        ModifierKeyCode::LeftControl => "LeftControl"@,
        ModifierKeyCode::LeftAlt => "LeftAlt"@,
        ModifierKeyCode::LeftSuper => "LeftSuper"@,
        ModifierKeyCode::LeftHyper => "LeftHyper"@,
        ModifierKeyCode::LeftMeta => "LeftMeta"@,
        ModifierKeyCode::RightShift => "RightShift"@,
        ModifierKeyCode::RightControl => "RightControl"@,
        ModifierKeyCode::RightAlt => "RightAlt"@,
        ModifierKeyCode::RightSuper => "RightSuper"@,
        ModifierKeyCode::RightHyper => "RightHyper"@,
        ModifierKeyCode::RightMeta => "RightMeta"@,
        ModifierKeyCode::IsoLevel3Shift => "IsoLevel3Shift"@,
        ModifierKeyCode::IsoLevel5Shift => "IsoLevel5Shift"@,
    }
}

/// How a mouse button is written in messages: its name.
pub open spec fn mouse_button_text(button: MouseButton) -> Seq<char> {
    match button {
        MouseButton::Left => "Left"@,
        MouseButton::Right => "Right"@,
        MouseButton::Middle => "Middle"@,
    }
}

/// How what the mouse did is written in messages.
pub open spec fn mouse_kind_text(kind: MouseEventKind) -> Seq<char> {
    match kind {
        MouseEventKind::Down(button) => "Down("@ + mouse_button_text(button) + ")"@,
        MouseEventKind::Up(button) => "Up("@ + mouse_button_text(button) + ")"@,
        MouseEventKind::Drag(button) => "Drag("@ + mouse_button_text(button) + ")"@,
        MouseEventKind::Moved => "Moved"@,
        MouseEventKind::ScrollDown => "ScrollDown"@,
        MouseEventKind::ScrollUp => "ScrollUp"@,
        MouseEventKind::ScrollLeft => "ScrollLeft"@,
        MouseEventKind::ScrollRight => "ScrollRight"@,
    }
}

/// `text`, then `name` when `set`, with " | " between the two when both are there.
pub open spec fn with_flag(text: Seq<char>, set: bool, name: Seq<char>) -> Seq<char> {
    if !set {
        text
    } else if text.len() == 0 {
        name
    } else {
        text + " | "@ + name
    }
}

/// Whether `bits` holds the bit of value `weight` (a power of two).
pub open spec fn has_bit(bits: u8, weight: u8) -> bool {
    (bits / weight) % 2 == 1
}

/// The names of the modifier bits set in `bits` (SHIFT, CONTROL, ALT, SUPER,
/// HYPER and META, in this order), then the value of the remaining bits in
/// hexadecimal, separated by " | ".
pub open spec fn modifier_flags_text(bits: u8) -> Seq<char> {
    let t = with_flag(Seq::empty(), has_bit(bits, MODIFIER_SHIFT), "SHIFT"@);
    let t = with_flag(t, has_bit(bits, MODIFIER_CONTROL), "CONTROL"@);
    let t = with_flag(t, has_bit(bits, MODIFIER_ALT), "ALT"@);
    let t = with_flag(t, has_bit(bits, MODIFIER_SUPER), "SUPER"@);
    let t = with_flag(t, has_bit(bits, MODIFIER_HYPER), "HYPER"@);
    let t = with_flag(t, has_bit(bits, MODIFIER_META), "META"@);
    let rest = bits / 64;
    with_flag(
        t,
        rest != 0,
        if rest == 1 {
            "0x40"@
        } else if rest == 2 {
            "0x80"@
        } else {
            "0xc0"@
        },
    )
}

/// How a set of modifier bits is written in messages, as `{:?}` writes the
/// terminal's modifier flags: "KeyModifiers(0x0)" when none is set.
pub open spec fn key_modifiers_text(bits: u8) -> Seq<char> {
    "KeyModifiers("@ + (if bits == 0 {
        "0x0"@
    } else {
        modifier_flags_text(bits)
    }) + ")"@
}

/// How a mouse event is written in messages.
pub open spec fn mouse_event_text(event: MouseEvent) -> Seq<char> {
    "MouseEvent { kind: "@ + mouse_kind_text(event.kind) + ", column: "@ + decimal(event.column as nat)
        + ", row: "@ + decimal(event.row as nat) + ", modifiers: "@ + key_modifiers_text(event.modifiers)
        + " }"@
}

/// How the key code is written in messages: as `{:?}` writes the terminal's key codes.
pub open spec fn key_code_text(code: KeyCode) -> Seq<char> {
    match code {
        KeyCode::Backspace => "Backspace"@,
        KeyCode::Enter => "Enter"@,
        KeyCode::Left => "Left"@,
        KeyCode::Right => "Right"@,
        KeyCode::Up => "Up"@,
        KeyCode::Down => "Down"@,
        KeyCode::Home => "Home"@,
        KeyCode::End => "End"@,
        KeyCode::PageUp => "PageUp"@,
        KeyCode::PageDown => "PageDown"@,
        KeyCode::Tab => "Tab"@,
        KeyCode::BackTab => "BackTab"@,
        KeyCode::Delete => "Delete"@,
        KeyCode::Insert => "Insert"@,
        KeyCode::F(n) => "F("@ + decimal(n as nat) + ")"@,
        KeyCode::Char(c) => "Char("@ + spec_char_debug(c) + ")"@,
        KeyCode::Null => "Null"@,
        KeyCode::Esc => "Esc"@,
        KeyCode::CapsLock => "CapsLock"@,
        KeyCode::ScrollLock => "ScrollLock"@,
        KeyCode::NumLock => "NumLock"@,
        KeyCode::PrintScreen => "PrintScreen"@,
        KeyCode::Pause => "Pause"@,
        KeyCode::Menu => "Menu"@,
        KeyCode::KeypadBegin => "KeypadBegin"@,
        KeyCode::Media(key) => "Media("@ + media_key_text(key) + ")"@,
        KeyCode::Modifier(key) => "Modifier("@ + modifier_key_text(key) + ")"@,
    }
}

/// How an event is written in messages.
pub open spec fn event_text(event: Event) -> Seq<char> {
    match event {
        Event::FocusGained => "FocusGained"@,
        Event::FocusLost => "FocusLost"@,
        Event::Key(key) => "Key("@ + key_code_text(key.code) + ")"@,
        Event::Mouse(mouse) => "Mouse("@ + mouse_event_text(mouse) + ")"@,
        Event::Paste(text) => "Paste("@ + spec_str_debug(text@) + ")"@,
        Event::Resize(width, height) => "Resize("@ + decimal(width as nat) + ", "@ + decimal(height as nat)
            + ")"@,
    }
}

/// The message that tells what was not supported.
pub open spec fn error_message(error: CommandError) -> Seq<char> {
    match error {
        CommandError::UnsupportedKey(code) => "Key Code not supported: "@ + key_code_text(code),
        CommandError::UnsupportedEvent(event) => "Event not supported: "@ + event_text(event),
    }
}

/// Appends `name` to `text` when `set`, after " | " when `text` is not empty.
fn push_flag(text: &mut String, set: bool, name: &str)
    ensures
        final(text)@ == with_flag(old(text)@, set, name@),
{
    if set {
        if text.as_str().is_empty() {
            *text = String::from_str(name);
        } else {
            text.append(" | ");
            text.append(name);
        }
    }
}

/// Whether `bits` holds the bit of value `weight`.
fn holds_bit(bits: u8, weight: u8) -> (set: bool)
    requires
        weight > 0,
    ensures
        set == has_bit(bits, weight),
{
    (bits / weight) % 2 == 1
}

/// A set of modifier bits as it is written in messages.
pub fn modifiers_text(bits: u8) -> (text: String)
    ensures
        text@ == key_modifiers_text(bits),
{
    let mut text = String::from_str("KeyModifiers(");
    if bits == 0 {
        text.append("0x0");
    } else {
        let mut flags = String::new();
        push_flag(&mut flags, holds_bit(bits, MODIFIER_SHIFT), "SHIFT");
        push_flag(&mut flags, holds_bit(bits, MODIFIER_CONTROL), "CONTROL");
        push_flag(&mut flags, holds_bit(bits, MODIFIER_ALT), "ALT");
        push_flag(&mut flags, holds_bit(bits, MODIFIER_SUPER), "SUPER");
        push_flag(&mut flags, holds_bit(bits, MODIFIER_HYPER), "HYPER");
        push_flag(&mut flags, holds_bit(bits, MODIFIER_META), "META");
        let rest = bits / 64;
        let rest_text = if rest == 1 {
            "0x40"
        } else if rest == 2 {
            "0x80"
        } else {
            "0xc0"
        };
        push_flag(&mut flags, rest != 0, rest_text);
        text.append(flags.as_str());
    }
    text.append(")");
    text
}

impl MediaKeyCode {
    /// The media key as it is written in messages.
    pub fn text(&self) -> (text: String)
        ensures
            text@ == media_key_text(*self),
    {
        match self {
            MediaKeyCode::Play => String::from_str("Play"),
            MediaKeyCode::Pause => String::from_str("Pause"),
            MediaKeyCode::PlayPause => String::from_str("PlayPause"),
            MediaKeyCode::Reverse => String::from_str("Reverse"),
            MediaKeyCode::Stop => String::from_str("Stop"),
            MediaKeyCode::FastForward => String::from_str("FastForward"),
            MediaKeyCode::Rewind => String::from_str("Rewind"),
            MediaKeyCode::TrackNext => String::from_str("TrackNext"),
            MediaKeyCode::TrackPrevious => String::from_str("TrackPrevious"),
            MediaKeyCode::Record => String::from_str("Record"),
            MediaKeyCode::LowerVolume => String::from_str("LowerVolume"),
            MediaKeyCode::RaiseVolume => String::from_str("RaiseVolume"),
            MediaKeyCode::MuteVolume => String::from_str("MuteVolume"),
        }
    }
}

impl ModifierKeyCode {
    /// The modifier key as it is written in messages.
    pub fn text(&self) -> (text: String)
        ensures
            text@ == modifier_key_text(*self),
    {
        match self {
            ModifierKeyCode::LeftShift => String::from_str("LeftShift"),
            ModifierKeyCode::LeftControl => String::from_str("LeftControl"),
            ModifierKeyCode::LeftAlt => String::from_str("LeftAlt"),
            ModifierKeyCode::LeftSuper => String::from_str("LeftSuper"),
            ModifierKeyCode::LeftHyper => String::from_str("LeftHyper"),
            ModifierKeyCode::LeftMeta => String::from_str("LeftMeta"),
            ModifierKeyCode::RightShift => String::from_str("RightShift"),
            ModifierKeyCode::RightControl => String::from_str("RightControl"),
            ModifierKeyCode::RightAlt => String::from_str("RightAlt"),
            ModifierKeyCode::RightSuper => String::from_str("RightSuper"),
            ModifierKeyCode::RightHyper => String::from_str("RightHyper"),
            ModifierKeyCode::RightMeta => String::from_str("RightMeta"),
            ModifierKeyCode::IsoLevel3Shift => String::from_str("IsoLevel3Shift"),
            ModifierKeyCode::IsoLevel5Shift => String::from_str("IsoLevel5Shift"),
        }
    }
}

impl MouseButton {
    /// The mouse button as it is written in messages.
    pub fn text(&self) -> (text: String)
        ensures
            text@ == mouse_button_text(*self),
    {
        match self {
            MouseButton::Left => String::from_str("Left"),
            MouseButton::Right => String::from_str("Right"),
            MouseButton::Middle => String::from_str("Middle"),
        }
    }
}

impl MouseEventKind {
    /// What the mouse did, as it is written in messages.
    pub fn text(&self) -> (text: String)
        ensures
            text@ == mouse_kind_text(*self),
    {
        match self {
            MouseEventKind::Down(button) => {
                let mut text = String::from_str("Down(");
                text.append(button.text().as_str());
                text.append(")");
                text
            },
            MouseEventKind::Up(button) => {
                let mut text = String::from_str("Up(");
                text.append(button.text().as_str());
                text.append(")");
                text
            },
            MouseEventKind::Drag(button) => {
                let mut text = String::from_str("Drag(");
                text.append(button.text().as_str());
                text.append(")");
                text
            },
            MouseEventKind::Moved => String::from_str("Moved"),
            MouseEventKind::ScrollDown => String::from_str("ScrollDown"),
            MouseEventKind::ScrollUp => String::from_str("ScrollUp"),
            MouseEventKind::ScrollLeft => String::from_str("ScrollLeft"),
            MouseEventKind::ScrollRight => String::from_str("ScrollRight"),
        }
    }
}

impl MouseEvent {
    /// The mouse event as it is written in messages.
    pub fn text(&self) -> (text: String)
        ensures
            text@ == mouse_event_text(*self),
    {
        let mut text = String::from_str("MouseEvent { kind: ");
        text.append(self.kind.text().as_str());
        text.append(", column: ");
        push_decimal(&mut text, self.column);
        text.append(", row: ");
        push_decimal(&mut text, self.row);
        text.append(", modifiers: ");
        text.append(modifiers_text(self.modifiers).as_str());
        text.append(" }");
        text
    }
}

impl KeyCode {
    /// The key code as it is written in messages.
    pub fn text(&self) -> (text: String)
        ensures
            text@ == key_code_text(*self),
    {
        match self {
            KeyCode::F(n) => {
                let mut text = String::from_str("F(");
                push_decimal(&mut text, *n as u16);
                text.append(")");
                text
            },
            KeyCode::Char(c) => {
                let mut text = String::from_str("Char(");
                text.append(char_debug(*c).as_str());
                text.append(")");
                text
            },
            KeyCode::Backspace => String::from_str("Backspace"),
            KeyCode::Enter => String::from_str("Enter"),
            KeyCode::Left => String::from_str("Left"),
            KeyCode::Right => String::from_str("Right"),
            KeyCode::Up => String::from_str("Up"),
            KeyCode::Down => String::from_str("Down"),
            KeyCode::Home => String::from_str("Home"),
            KeyCode::End => String::from_str("End"),
            KeyCode::PageUp => String::from_str("PageUp"),
            KeyCode::PageDown => String::from_str("PageDown"),
            KeyCode::Tab => String::from_str("Tab"),
            KeyCode::BackTab => String::from_str("BackTab"),
            KeyCode::Delete => String::from_str("Delete"),
            KeyCode::Insert => String::from_str("Insert"),
            KeyCode::Null => String::from_str("Null"),
            KeyCode::Esc => String::from_str("Esc"),
            KeyCode::CapsLock => String::from_str("CapsLock"),
            KeyCode::ScrollLock => String::from_str("ScrollLock"),
            KeyCode::NumLock => String::from_str("NumLock"),
            KeyCode::PrintScreen => String::from_str("PrintScreen"),
            KeyCode::Pause => String::from_str("Pause"),
            KeyCode::Menu => String::from_str("Menu"),
            KeyCode::KeypadBegin => String::from_str("KeypadBegin"),
            KeyCode::Media(key) => {
                let mut text = String::from_str("Media(");
                text.append(key.text().as_str());
                text.append(")");
                text
            },
            KeyCode::Modifier(key) => {
                let mut text = String::from_str("Modifier(");
                text.append(key.text().as_str());
                text.append(")");
                text
            },
        }
    }
}

impl Event {
    /// The event as it is written in messages.
    pub fn text(&self) -> (text: String)
        ensures
            text@ == event_text(*self),
    {
        match self {
            Event::FocusGained => String::from_str("FocusGained"),
            Event::FocusLost => String::from_str("FocusLost"),
            Event::Key(key) => {
                let mut text = String::from_str("Key(");
                text.append(key.code.text().as_str());
                text.append(")");
                text
            },
            Event::Mouse(mouse) => {
                let mut text = String::from_str("Mouse(");
                text.append(mouse.text().as_str());
                text.append(")");
                text
            },
            Event::Paste(pasted) => {
                let mut text = String::from_str("Paste(");
                text.append(str_debug(pasted.as_str()).as_str());
                text.append(")");
                text
            },
            Event::Resize(width, height) => {
                let mut text = String::from_str("Resize(");
                push_decimal(&mut text, *width);
                text.append(", ");
                push_decimal(&mut text, *height);
                text.append(")");
                text
            },
        }
    }
}

impl CommandError {
    /// The message that tells what was not supported: "Key Code not
    /// supported: " or "Event not supported: ", then the key code or event.
    pub fn message(&self) -> (message: String)
        ensures
            message@ == error_message(*self),
    {
        match self {
            CommandError::UnsupportedKey(code) => {
                let mut message = String::from_str("Key Code not supported: ");
                message.append(code.text().as_str());
                message
            },
            CommandError::UnsupportedEvent(event) => {
                let mut message = String::from_str("Event not supported: ");
                message.append(event.text().as_str());
                message
            },
        }
    }
}

} // verus!
