use vstd::prelude::*;
use crate::error::Error;
use crate::stdin::{byte_read, StdinRawMode};

verus! {

/// The key that ends a session: `q`.
pub const QUIT_KEY: u8 = 113;

/// A control byte: below the first printable character, or the delete code.
pub open spec fn is_control(b: u8) -> bool {
    b < 32 || b == 127
}

/// The character that writes the decimal digit `d`.
pub open spec fn digit(d: nat) -> char {
    ((d + 48) as u8) as char
}

/// The decimal notation of `n`, without leading zeros.
pub open spec fn decimal(n: nat) -> Seq<char>
    decreases n,
{
    if n < 10 {
        seq![digit(n)]
    } else {
        decimal(n / 10).push(digit(n % 10))
    }
}

/// Carriage return and line feed: raw mode leaves line ends to the caller.
pub open spec fn line_end() -> Seq<char> {
    seq!['\r', '\n']
}

/// The marker written for a control byte, before its decimal value.
pub open spec fn control_prefix() -> Seq<char> {
    seq!['<', 'C', 'T', 'R', 'L', '>', ':', ' ']
}

/// What a key press produces: `None` ends the session, `Some(text)` is the text to show.
pub open spec fn key_text(key: Option<u8>) -> Option<Seq<char>> {
    match key {
        None => None,
        Some(b) => if is_control(b) {
            Some(control_prefix() + decimal(b as nat) + line_end())
        } else if b == QUIT_KEY {
            None
        } else {
            Some(seq![b as char] + line_end())
        },
    }
}

/// The text held by an optional string.
pub open spec fn text_view(t: Option<String>) -> Option<Seq<char>> {
    match t {
        None => None,
        Some(s) => Some(s@),
    }
}

/// Appends one character to a string.
/// Relies on `String::push`, which adds the character at the end.
#[verifier::external_body]
fn push_char(s: &mut String, c: char)
    ensures
        final(s)@ == old(s)@.push(c),
{
    s.push(c);
}

fn digit_char(d: u8) -> (c: char)
    requires
        d < 10,
    ensures
        c == digit(d as nat),
{
    (d + 48) as char
}

/// Appends the decimal notation of `n`.
fn push_decimal(s: &mut String, n: u8)
    ensures
        final(s)@ == old(s)@ + decimal(n as nat),
{
    let ghost start = s@;
    if n >= 100 {
        push_char(s, digit_char(n / 100));
        push_char(s, digit_char((n / 10) % 10));
        push_char(s, digit_char(n % 10));
        assert(decimal((n / 100) as nat) == seq![digit((n / 100) as nat)]);
        assert(decimal((n / 10) as nat) == decimal((n / 100) as nat).push(digit(((n / 10) % 10) as nat)));
    } else if n >= 10 {
        push_char(s, digit_char(n / 10));
        push_char(s, digit_char(n % 10));
        assert(decimal((n / 10) as nat) == seq![digit((n / 10) as nat)]);
    } else {
        push_char(s, digit_char(n));
    }
    assert(s@ =~= start + decimal(n as nat));
}

/// The text for one key press: `None` for the end of input or the quit key, a
/// control marker with the byte's decimal value for a control byte, and the byte
/// as a character otherwise; every text ends with a carriage return and line feed.
pub fn key_press_text(key: Option<u8>) -> (r: Option<String>)
    ensures
        text_view(r) == key_text(key),
{
    match key {
        None => None,
        Some(b) => {
            if b < 32 || b == 127 {
                let mut s = String::new();
                push_char(&mut s, '<');
                push_char(&mut s, 'C');
                push_char(&mut s, 'T');
                push_char(&mut s, 'R');
                push_char(&mut s, 'L');
                push_char(&mut s, '>');
                push_char(&mut s, ':');
                push_char(&mut s, ' ');
                push_decimal(&mut s, b);
                push_char(&mut s, '\r');
                push_char(&mut s, '\n');
                assert(s@ =~= control_prefix() + decimal(b as nat) + line_end());
                Some(s)
            } else if b == QUIT_KEY {
                None
            } else {
                let mut s = String::new();
                push_char(&mut s, b as char);
                push_char(&mut s, '\r');
                push_char(&mut s, '\n');
                assert(s@ =~= seq![b as char] + line_end());
                Some(s)
            }
        },
    }
}

/// The outcome of a key press as text: the error of the read, or the text for the key.
pub open spec fn key_press(read: Result<Option<u8>, Error>) -> Result<Option<Seq<char>>, Error> {
    match read {
        Ok(key) => Ok(key_text(key)),
        Err(e) => Err(e),
    }
}

/// The text view of a key press's result.
pub open spec fn press_view(r: Result<Option<String>, Error>) -> Result<Option<Seq<char>>, Error> {
    match r {
        Ok(t) => Ok(text_view(t)),
        Err(e) => Err(e),
    }
}

/// Turns key presses read from a raw-mode terminal into the text to show.
pub struct Editor {
    stdin: StdinRawMode,
}

impl Editor {
    /// The raw-mode handle the editor reads from.
    pub closed spec fn stdin(&self) -> StdinRawMode {
        self.stdin
    }

    /// An editor reading from `stdin`.
    pub fn new(stdin: StdinRawMode) -> (r: Result<Editor, Error>)
        ensures
            r matches Ok(e) && e.stdin() == stdin,
    {
        Ok(Editor { stdin })
    }

    /// Handles one key press: `outcome` is what the single-byte read of the
    /// terminal reported and `buffer` the buffer it read into. `Ok(None)` ends the
    /// session; `Ok(Some(text))` is the text to write.
    pub fn process_key_press(&mut self, outcome: Result<usize, std::io::Error>, buffer: [u8; 1]) -> (r: Result<Option<String>, Error>)
        ensures
            press_view(r) == key_press(byte_read(outcome, buffer)),
            final(self).stdin() == old(self).stdin(),
    {
        match self.stdin.read_byte(outcome, buffer) {
            Ok(key) => Ok(key_press_text(key)),
            Err(e) => Err(e),
        }
    }
}

/// What a read key means to a session that ends on `quit_key`: the quit key gives
/// `Error::Quit`, any other key or the end of input is passed on, and a read error
/// stays an error.
pub open spec fn session_key(read: Result<Option<u8>, Error>, quit_key: u8) -> Result<Option<u8>, Error> {
    match read {
        Ok(Some(k)) => if k == quit_key {
            Err(Error::Quit)
        } else {
            Ok(Some(k))
        },
        Ok(None) => Ok(None),
        Err(e) => Err(e),
    }
}

/// Decides on a key read from the terminal, ending the session on `quit_key`.
pub fn editor_process_key_press(read: Result<Option<u8>, Error>, quit_key: u8) -> (r: Result<Option<u8>, Error>)
    ensures
        r == session_key(read, quit_key),
{
    match read {
        Ok(Some(key)) => if key == quit_key {
            Err(Error::Quit)
        } else {
            Ok(Some(key))
        },
        Ok(None) => Ok(None),
        Err(e) => Err(e),
    }
}

/// The byte that a key pressed together with Control sends: its low five bits.
pub fn ctrl_key(key: u8) -> (r: u8)
    ensures
        r == key % 32,
{
    assert(key & 0x1f == key % 32) by (bit_vector);
    key & 0x1f
}

} // verus!

verus! {

/// A control byte gives a line that shows the byte's decimal value and ends with a
/// carriage return and line feed; the session goes on.
pub proof fn control_byte_shows_its_value(b: u8)
    requires
        is_control(b),
    ensures
        key_text(Some(b)) matches Some(t) && {
            let start = control_prefix().len() as int;
            &&& t.subrange(start, start + decimal(b as nat).len()) == decimal(b as nat)
            &&& t.len() >= 2
            &&& t.subrange(t.len() - 2, t.len() as int) == line_end()
        },
{
    let t = control_prefix() + decimal(b as nat) + line_end();
    let start = control_prefix().len() as int;
    assert(t.subrange(start, start + decimal(b as nat).len()) =~= decimal(b as nat));
    assert(t.subrange(t.len() - 2, t.len() as int) =~= line_end());
}

/// A printable byte other than the quit key gives exactly that character followed
/// by a carriage return and line feed; the session goes on.
pub proof fn printable_byte_shows_itself(b: u8)
    requires
        32 <= b <= 126,
        b != QUIT_KEY,
    ensures
        key_text(Some(b)) == Some(seq![b as char, '\r', '\n']),
{
    assert(seq![b as char] + line_end() =~= seq![b as char, '\r', '\n']);
}

/// Reading the quit key ends the session with no text, whatever came before: the
/// result of a key press depends on that one read alone.
pub proof fn quit_key_ends_session(outcome: Result<usize, std::io::Error>, buffer: [u8; 1])
    requires
        byte_read(outcome, buffer) == Ok::<Option<u8>, Error>(Some(QUIT_KEY)),
    ensures
        key_press(byte_read(outcome, buffer)) == Ok::<Option<Seq<char>>, Error>(None),
{
}

/// A read of zero bytes, the end of input, ends the session with no text.
pub proof fn end_of_input_ends_session(buffer: [u8; 1])
    ensures
        key_press(byte_read(Ok(0), buffer)) == Ok::<Option<Seq<char>>, Error>(None),
{
}

} // verus!
