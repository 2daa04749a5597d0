//! The input line of the terminal interface: what each key press does to the
//! line being typed, and what it asks of the client.
use vstd::prelude::*;

use crate::codec::chars_of;

verus! {

/// How long the typed line may grow, in bytes of UTF-8: a character is
/// typed only while the line is shorter than this, so the line ends at most
/// three bytes past it.
pub const MAX_INPUT: usize = 140;

/// A key press, as far as the input line cares.
#[derive(Clone, Copy, Debug, PartialEq, Eq, Structural)]
pub enum Key {
    Char(char),
    Backspace,
    Esc,
    Up,
    Other,
}

/// What a key press asks of the client and of the screen.
#[derive(Clone, Debug, PartialEq, Eq)]
pub enum KeyOutcome {
    /// Nothing beyond the change to the line.
    Idle,
    /// Send this text as a chat message.
    Send(String),
    /// Leave the chat.
    Exit,
    /// Clear the shown messages.
    ClearMessages,
    /// The line was a `:` command that does not exist; it is named here.
    UnknownCommand(String),
}

/// The model of a [`KeyOutcome`].
pub enum KeyOutcomeView {
    Idle,
    Send(Seq<char>),
    Exit,
    ClearMessages,
    UnknownCommand(Seq<char>),
}

impl View for KeyOutcome {
    type V = KeyOutcomeView;

    open spec fn view(&self) -> KeyOutcomeView {
        match self {
            KeyOutcome::Idle => KeyOutcomeView::Idle,
            KeyOutcome::Send(t) => KeyOutcomeView::Send(t@),
            KeyOutcome::Exit => KeyOutcomeView::Exit,
            KeyOutcome::ClearMessages => KeyOutcomeView::ClearMessages,
            KeyOutcome::UnknownCommand(c) => KeyOutcomeView::UnknownCommand(c@),
        }
    }
}

/// The line being typed, and the last line entered.
pub struct InputLine {
    input: Vec<char>,
    last_input: Vec<char>,
}

/// The model of an [`InputLine`].
pub struct InputLineView {
    pub input: Seq<char>,
    pub last_input: Seq<char>,
}

impl View for InputLine {
    type V = InputLineView;

    closed spec fn view(&self) -> InputLineView {
        InputLineView { input: self.input@, last_input: self.last_input@ }
    }
}

/// What `str::to_lowercase` makes of a text.
pub uninterp spec fn lowercase_of(s: Seq<char>) -> Seq<char>;

/// Relies on `str::to_lowercase`, whose result depends on the characters
/// alone.
#[verifier::external_body]
fn to_lowercase(s: &str) -> (r: String)
    ensures
        r@ == lowercase_of(s@),
{
    s.to_lowercase()
}

/// Relies on `String`'s `FromIterator<char>`: the string of exactly these
/// characters, in order.
#[verifier::external_body]
fn string_of(cs: &Vec<char>) -> (r: String)
    ensures
        r@ == cs@,
{
    cs.iter().collect()
}

/// The number of bytes that UTF-8 takes for `c`.
pub open spec fn utf8_width(c: char) -> nat {
    if (c as u32) < 0x80 {
        1
    } else if (c as u32) < 0x800 {
        2
    } else if (c as u32) < 0x10000 {
        3
    } else {
        4
    }
}

/// The number of bytes that UTF-8 takes for `s`.
pub open spec fn utf8_len(s: Seq<char>) -> nat
    decreases s.len(),
{
    if s.len() == 0 {
        0
    } else {
        utf8_len(s.drop_last()) + utf8_width(s.last())
    }
}

/// A prefix takes no more bytes than the whole.
proof fn lemma_utf8_len_prefix(s: Seq<char>, i: int)
    requires
        0 <= i <= s.len(),
    ensures
        utf8_len(s.take(i)) <= utf8_len(s),
    decreases s.len(),
{
    if i < s.len() {
        assert(s.drop_last().take(i) =~= s.take(i));
        lemma_utf8_len_prefix(s.drop_last(), i);
    } else {
        assert(s.take(i) =~= s);
    }
}

/// Whether the line `cs` is shorter than [`MAX_INPUT`] bytes of UTF-8.
fn has_room(cs: &Vec<char>) -> (r: bool)
    ensures
        r == (utf8_len(cs@) < MAX_INPUT),
{
    let mut n: usize = 0;
    let mut i: usize = 0;
    while i < cs.len()
        invariant
            i <= cs@.len(),
            n == utf8_len(cs@.take(i as int)),
            n < MAX_INPUT,
        decreases cs@.len() - i,
    {
        assert(cs@.take(i + 1).drop_last() =~= cs@.take(i as int));
        let code = cs[i] as u32;
        let width: usize = if code < 0x80 {
            1
        } else if code < 0x800 {
            2
        } else if code < 0x10000 {
            3
        } else {
            4
        };
        n = n + width;
        i = i + 1;
        if n >= MAX_INPUT {
            proof {
                lemma_utf8_len_prefix(cs@, i as int);
            }
            return false;
        }
    }
    assert(cs@.take(i as int) =~= cs@);
    true
}

/// What entering the non-empty line `text` asks for.
pub open spec fn entered(text: Seq<char>) -> KeyOutcomeView {
    if text[0] == ':' {
        let cmd = lowercase_of(text.drop_first());
        if cmd == "exit"@ {
            KeyOutcomeView::Exit
        } else if cmd == "clear"@ {
            KeyOutcomeView::ClearMessages
        } else {
            KeyOutcomeView::UnknownCommand(cmd)
        }
    } else {
        KeyOutcomeView::Send(text)
    }
}

/// The line after the key `k`.
pub open spec fn next_line(l: InputLineView, k: Key) -> InputLineView {
    match k {
        Key::Char('\n') => if l.input.len() == 0 {
            l
        } else {
            InputLineView { input: Seq::empty(), last_input: l.input }
        },
        Key::Char(c) => if utf8_len(l.input) < MAX_INPUT {
            InputLineView { input: l.input.push(c), ..l }
        } else {
            l
        },
        Key::Backspace => if l.input.len() > 0 {
            InputLineView { input: l.input.drop_last(), ..l }
        } else {
            l
        },
        Key::Up => if l.input.len() == 0 {
            InputLineView { input: l.last_input, ..l }
        } else {
            l
        },
        _ => l,
    }
}

/// What the key `k` asks for, on the line `l`.
pub open spec fn key_outcome(l: InputLineView, k: Key) -> KeyOutcomeView {
    match k {
        Key::Char('\n') => if l.input.len() == 0 {
            KeyOutcomeView::Idle
        } else {
            entered(l.input)
        },
        Key::Esc => KeyOutcomeView::Exit,
        _ => KeyOutcomeView::Idle,
    }
}

impl InputLine {
    /// An empty line, with nothing entered before.
    pub fn new() -> (r: InputLine)
        ensures
            r@.input == Seq::<char>::empty(),
            r@.last_input == Seq::<char>::empty(),
    {
        InputLine { input: Vec::new(), last_input: Vec::new() }
    }

    /// The line being typed.
    pub fn text(&self) -> (r: String)
        ensures
            r@ == self@.input,
    {
        string_of(&self.input)
    }

    /// Whether nothing is typed.
    pub fn is_empty(&self) -> (r: bool)
        ensures
            r == (self@.input.len() == 0),
    {
        self.input.len() == 0
    }

    /// Applies a key press. Any character, whitespace included, is typed
    /// while the line is shorter than [`MAX_INPUT`] bytes of UTF-8;
    /// `Backspace` deletes the last one; `Up` on an empty line recalls the
    /// last line entered; a newline enters a non-empty line. An entered line
    /// that starts with `:` is a command: `:exit` and `:clear`, in any case,
    /// and any other is reported as unknown. Any other line is a chat
    /// message. `Esc` leaves.
    pub fn press(&mut self, k: Key) -> (r: KeyOutcome)
        ensures
            final(self)@ == next_line(old(self)@, k),
            r@ == key_outcome(old(self)@, k),
    {
        match k {
            Key::Char('\n') => {
                if self.input.len() == 0 {
                    return KeyOutcome::Idle;
                }
                let text = string_of(&self.input);
                self.last_input = self.input.clone();
                self.input = Vec::new();
                Self::outcome_of_entered(text)
            },
            Key::Char(c) => {
                if has_room(&self.input) {
                    self.input.push(c);
                }
                KeyOutcome::Idle
            },
            Key::Backspace => {
                if self.input.len() > 0 {
                    self.input.pop();
                }
                KeyOutcome::Idle
            },
            Key::Up => {
                if self.input.len() == 0 {
                    self.input = self.last_input.clone();
                }
                KeyOutcome::Idle
            },
            Key::Esc => KeyOutcome::Exit,
            Key::Other => KeyOutcome::Idle,
        }
    }

    /// What entering the non-empty line `text` asks for.
    fn outcome_of_entered(text: String) -> (r: KeyOutcome)
        requires
            text@.len() > 0,
        ensures
            r@ == entered(text@),
    {
        let cs = chars_of(text.as_str());
        if cs[0] != ':' {
            return KeyOutcome::Send(text);
        }
        let rest = text.as_str().substring_char(1, cs.len());
        let cmd = to_lowercase(rest);
        assert(rest@ == text@.drop_first());
        if cmd == "exit".to_string() {
            KeyOutcome::Exit
        } else if cmd == "clear".to_string() {
            KeyOutcome::ClearMessages
        } else {
            KeyOutcome::UnknownCommand(cmd)
        }
    }
}

} // verus!
