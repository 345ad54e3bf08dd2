//! Keys, and the text that is typed with them.
use crate::text::{chars_of, text_of_chars};
use vstd::prelude::*;

verus! {

/// The keys that have no character of their own.
#[derive(Debug, Clone, Copy, PartialEq, Eq, Structural)]
pub enum Key {
    Null,
    Cancel,
    Help,
    Backspace,
    Tab,
    Clear,
    Return,
    Enter,
    Shift,
    Control,
    Alt,
    Pause,
    Escape,
    Space,
    PageUp,
    PageDown,
    End,
    Home,
    Left,
    Up,
    Right,
    Down,
    Insert,
    Delete,
    Semicolon,
    Equals,
    NumPad0,
    NumPad1,
    NumPad2,
    NumPad3,
    NumPad4,
    NumPad5,
    NumPad6,
    NumPad7,
    NumPad8,
    NumPad9,
    Multiply,
    Add,
    Separator,
    Subtract,
    Decimal,
    Divide,
    F1,
    F2,
    F3,
    F4,
    F5,
    F6,
    F7,
    F8,
    F9,
    F10,
    F11,
    F12,
    Meta,
    Command,
}

impl Key {
    /// The private-use character that stands for the key.
    pub open spec fn char(self) -> char {
        match self {
            Key::Null => '\u{e000}',
            Key::Cancel => '\u{e001}',
            Key::Help => '\u{e002}',
            Key::Backspace => '\u{e003}',
            Key::Tab => '\u{e004}',
            Key::Clear => '\u{e005}',
            Key::Return => '\u{e006}',
            Key::Enter => '\u{e007}',
            Key::Shift => '\u{e008}',
            Key::Control => '\u{e009}',
            Key::Alt => '\u{e00a}',
            Key::Pause => '\u{e00b}',
            Key::Escape => '\u{e00c}',
            Key::Space => '\u{e00d}',
            Key::PageUp => '\u{e00e}',
            Key::PageDown => '\u{e00f}',
            Key::End => '\u{e010}',
            Key::Home => '\u{e011}',
            Key::Left => '\u{e012}',
            Key::Up => '\u{e013}',
            Key::Right => '\u{e014}',
            Key::Down => '\u{e015}',
            Key::Insert => '\u{e016}',
            Key::Delete => '\u{e017}',
            Key::Semicolon => '\u{e018}',
            Key::Equals => '\u{e019}',
            Key::NumPad0 => '\u{e01a}',
            Key::NumPad1 => '\u{e01b}',
            Key::NumPad2 => '\u{e01c}',
            Key::NumPad3 => '\u{e01d}',
            Key::NumPad4 => '\u{e01e}',
            Key::NumPad5 => '\u{e01f}',
            Key::NumPad6 => '\u{e020}',
            Key::NumPad7 => '\u{e021}',
            Key::NumPad8 => '\u{e022}',
            Key::NumPad9 => '\u{e023}',
            Key::Multiply => '\u{e024}',
            Key::Add => '\u{e025}',
            Key::Separator => '\u{e026}',
            Key::Subtract => '\u{e027}',
            Key::Decimal => '\u{e028}',
            Key::Divide => '\u{e029}',
            Key::F1 => '\u{e031}',
            Key::F2 => '\u{e032}',
            Key::F3 => '\u{e033}',
            Key::F4 => '\u{e034}',
            Key::F5 => '\u{e035}',
            Key::F6 => '\u{e036}',
            Key::F7 => '\u{e037}',
            Key::F8 => '\u{e038}',
            Key::F9 => '\u{e039}',
            Key::F10 => '\u{e03a}',
            Key::F11 => '\u{e03b}',
            Key::F12 => '\u{e03c}',
            Key::Meta => '\u{e03d}',
            Key::Command => '\u{e03d}',
        }
    }

    /// Get the char value of the key.
    pub fn value(&self) -> (r: char)
        ensures
            r == self.char(),
    {
        match self {
            Key::Null => '\u{e000}',
            Key::Cancel => '\u{e001}',
            Key::Help => '\u{e002}',
            Key::Backspace => '\u{e003}',
            Key::Tab => '\u{e004}',
            Key::Clear => '\u{e005}',
            Key::Return => '\u{e006}',
            Key::Enter => '\u{e007}',
            Key::Shift => '\u{e008}',
            Key::Control => '\u{e009}',
            Key::Alt => '\u{e00a}',
            Key::Pause => '\u{e00b}',
            Key::Escape => '\u{e00c}',
            Key::Space => '\u{e00d}',
            Key::PageUp => '\u{e00e}',
            Key::PageDown => '\u{e00f}',
            Key::End => '\u{e010}',
            Key::Home => '\u{e011}',
            Key::Left => '\u{e012}',
            Key::Up => '\u{e013}',
            Key::Right => '\u{e014}',
            Key::Down => '\u{e015}',
            Key::Insert => '\u{e016}',
            Key::Delete => '\u{e017}',
            Key::Semicolon => '\u{e018}',
            Key::Equals => '\u{e019}',
            Key::NumPad0 => '\u{e01a}',
            Key::NumPad1 => '\u{e01b}',
            Key::NumPad2 => '\u{e01c}',
            Key::NumPad3 => '\u{e01d}',
            Key::NumPad4 => '\u{e01e}',
            Key::NumPad5 => '\u{e01f}',
            Key::NumPad6 => '\u{e020}',
            Key::NumPad7 => '\u{e021}',
            Key::NumPad8 => '\u{e022}',
            Key::NumPad9 => '\u{e023}',
            Key::Multiply => '\u{e024}',
            Key::Add => '\u{e025}',
            Key::Separator => '\u{e026}',
            Key::Subtract => '\u{e027}',
            Key::Decimal => '\u{e028}',
            Key::Divide => '\u{e029}',
            Key::F1 => '\u{e031}',
            Key::F2 => '\u{e032}',
            Key::F3 => '\u{e033}',
            Key::F4 => '\u{e034}',
            Key::F5 => '\u{e035}',
            Key::F6 => '\u{e036}',
            Key::F7 => '\u{e037}',
            Key::F8 => '\u{e038}',
            Key::F9 => '\u{e039}',
            Key::F10 => '\u{e03a}',
            Key::F11 => '\u{e03b}',
            Key::F12 => '\u{e03c}',
            Key::Meta => '\u{e03d}',
            Key::Command => '\u{e03d}',
        }
    }
}

/// Every key has a character of the private-use area.
pub proof fn lemma_key_range(k: Key)
    ensures
        '\u{e000}' <= k.char() <= '\u{e03d}',
{
}

/// Different keys have different characters, but for `Meta` and `Command`, which are the same key.
pub proof fn lemma_key_distinct(a: Key, b: Key)
    ensures
        a.char() == b.char() <==> a == b || (a is Meta && b is Command) || (a is Command
            && b is Meta),
{
}

/// What can be typed.
pub trait IntoTyping: Sized {
    /// The characters that are typed.
    spec fn typed(&self) -> Seq<char>;

    /// The typing data with those characters.
    fn into_typing(self) -> (r: TypingData)
        ensures
            r@ == self.typed(),
    ;
}

/// TypingData is a wrapper around a Vec<char> that can be used to send Key to the browser.
#[derive(Debug)]
pub struct TypingData {
    data: Vec<char>,
}

impl TypingData {
    /// The characters that are typed.
    pub closed spec fn view(&self) -> Seq<char> {
        self.data@
    }

    /// The typing data for something that can be typed.
    pub fn from<S: IntoTyping>(value: S) -> (r: TypingData)
        ensures
            r@ == value.typed(),
    {
        value.into_typing()
    }

    /// Get the underlying Vec<char>.
    pub fn as_vec(&self) -> (r: Vec<char>)
        ensures
            r@ == self@,
    {
        let mut r: Vec<char> = Vec::new();
        let mut i: usize = 0;
        while i < self.data.len()
            invariant
                i <= self.data.len(),
                r@ == self.data@.take(i as int),
            decreases self.data.len() - i,
        {
            r.push(self.data[i]);
            i = i + 1;
            assert(self.data@.take(i as int) == self.data@.take(i as int - 1).push(
                self.data@[i as int - 1],
            ));
        }
        assert(self.data@.take(self.data.len() as int) == self.data@);
        r
    }

    /// The text that is typed.
    pub fn to_text(&self) -> (r: String)
        ensures
            r@ == self@,
    {
        text_of_chars(&self.data)
    }

    /// This typing data, and then more.
    pub fn plus<S: IntoTyping>(self, rhs: S) -> (r: TypingData)
        ensures
            r@ == self@ + rhs.typed(),
    {
        let mut data: Vec<char> = self.data;
        let mut more: Vec<char> = rhs.into_typing().data;
        data.append(&mut more);
        TypingData { data }
    }
}

impl IntoTyping for &str {
    open spec fn typed(&self) -> Seq<char> {
        self@
    }

    fn into_typing(self) -> (r: TypingData) {
        TypingData { data: chars_of(self) }
    }
}

impl IntoTyping for String {
    open spec fn typed(&self) -> Seq<char> {
        self@
    }

    fn into_typing(self) -> (r: TypingData) {
        TypingData { data: chars_of(self.as_str()) }
    }
}

impl IntoTyping for &String {
    open spec fn typed(&self) -> Seq<char> {
        self@
    }

    fn into_typing(self) -> (r: TypingData) {
        TypingData { data: chars_of(self.as_str()) }
    }
}

impl IntoTyping for Key {
    open spec fn typed(&self) -> Seq<char> {
        seq![self.char()]
    }

    fn into_typing(self) -> (r: TypingData) {
        let mut data: Vec<char> = Vec::new();
        data.push(self.value());
        assert(data@ == seq![self.char()]);
        TypingData { data }
    }
}

impl IntoTyping for TypingData {
    open spec fn typed(&self) -> Seq<char> {
        self@
    }

    fn into_typing(self) -> (r: TypingData) {
        self
    }
}

impl<S: IntoTyping> vstd::std_specs::ops::AddSpecImpl<S> for Key {
    open spec fn obeys_add_spec() -> bool {
        false
    }

    open spec fn add_req(self, rhs: S) -> bool {
        true
    }

    open spec fn add_spec(self, rhs: S) -> TypingData {
        arbitrary()
    }
}

impl<S: IntoTyping> std::ops::Add<S> for Key {
    type Output = TypingData;

    fn add(self, rhs: S) -> (r: TypingData)
        ensures
            r@ == seq![self.char()] + rhs.typed(),
    {
        self.into_typing().plus(rhs)
    }
}

impl<S: IntoTyping> vstd::std_specs::ops::AddSpecImpl<S> for TypingData {
    open spec fn obeys_add_spec() -> bool {
        false
    }

    open spec fn add_req(self, rhs: S) -> bool {
        true
    }

    open spec fn add_spec(self, rhs: S) -> TypingData {
        arbitrary()
    }
}

impl<S: IntoTyping> std::ops::Add<S> for TypingData {
    type Output = TypingData;

    fn add(self, rhs: S) -> (r: TypingData)
        ensures
            r@ == self@ + rhs.typed(),
    {
        self.plus(rhs)
    }
}

/// What can stand for one character to press: a character, or a key.
pub trait IntoKeyChar: Sized {
    /// The character.
    spec fn key_char(&self) -> char;

    /// The character.
    fn into_char(self) -> (r: char)
        ensures
            r == self.key_char(),
    ;
}

impl IntoKeyChar for char {
    open spec fn key_char(&self) -> char {
        *self
    }

    fn into_char(self) -> (r: char) {
        self
    }
}

impl IntoKeyChar for Key {
    open spec fn key_char(&self) -> char {
        self.char()
    }

    fn into_char(self) -> (r: char) {
        self.value()
    }
}

} // verus!
