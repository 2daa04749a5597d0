//! Chat messages as they travel between users.
use vstd::prelude::*;

verus! {

/// A display name of a user; it may be empty until the user sets one.
pub type User = String;

/// All kinds of ordinary chat messages.
#[derive(Clone, Debug, PartialEq, Eq)]
pub enum Message {
    Text(String),
}

/// The mathematical model of a [`Message`].
pub enum MessageView {
    Text(Seq<char>),
}

impl View for Message {
    type V = MessageView;

    open spec fn view(&self) -> MessageView {
        match self {
            Message::Text(t) => MessageView::Text(t@),
        }
    }
}

/// What `str::trim` makes of a text: the same characters without leading and
/// trailing whitespace.
pub uninterp spec fn trimmed(s: Seq<char>) -> Seq<char>;

/// Whether `c` is a visible ASCII character, which is never whitespace.
pub open spec fn is_ascii_graphic(c: char) -> bool {
    '!' <= c && c <= '~'
}

/// Relies on `str::trim`, whose result depends on the characters alone: a
/// text that starts and ends with a visible ASCII character has no
/// whitespace to remove.
#[verifier::external_body]
fn trim_text(s: &str) -> (r: &str)
    ensures
        r@ == trimmed(s@),
        s@.len() > 0 && is_ascii_graphic(s@[0]) && is_ascii_graphic(s@.last()) ==> r@ == s@,
{
    s.trim()
}

impl Message {
    /// A copy of this message, equal to it in the model.
    pub fn duplicate(&self) -> (r: Message)
        ensures
            r@ == self@,
    {
        match self {
            Message::Text(t) => Message::Text(t.clone()),
        }
    }

    /// The text shown to a reader: the message's text without surrounding
    /// whitespace.
    pub fn display_text(&self) -> (r: String)
        ensures
            r@ == trimmed(self.text_view()),
    {
        match self {
            Message::Text(t) => trim_text(t.as_str()).to_string(),
        }
    }

    /// The text that the message carries.
    pub open spec fn text_view(&self) -> Seq<char> {
        match self {
            Message::Text(t) => t@,
        }
    }
}

} // verus!
