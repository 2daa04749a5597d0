//! The wire codec: each command travels as one line of JSON text.
//!
//! Client to server: `{"SetName":"<name>"}`, `{"SendMessage":{"Text":"<text>"}}`.
//! Server to client: `{"UserMessage":["<user>",{"Text":"<text>"}]}`,
//! `{"ServerMessage":{"Text":"<text>"}}`, `{"UserList":[["<user>","<addr>"],...]}`,
//! `{"Error":"<text>"}`, `{"ServerName":"<name>"}`.
use vstd::prelude::*;

use crate::error::Error;
use crate::message::{Message, MessageView};
use crate::protocol::{
    entries_view, ClientCommand, ClientCommandView, PeerAddr, ServerCommand, ServerCommandView,
    UserEntryView,
};

verus! {

/// The JSON string literal that `serde_json` writes for the text `s`, quotes
/// included.
pub uninterp spec fn json_literal(s: Seq<char>) -> Seq<char>;

/// Whether `s` is written unchanged between quotes in a JSON string
/// literal: it holds no quote, no backslash and no character below U+0020.
pub open spec fn plain_json_text(s: Seq<char>) -> bool {
    forall|i: int|
        0 <= i < s.len() ==> #[trigger] s[i] != '"' && s[i] != '\\' && (s[i] as u32) >= 0x20
}

/// `s` between double quotes.
pub open spec fn quoted(s: Seq<char>) -> Seq<char> {
    seq!['"'] + s + seq!['"']
}

/// No line break in `s`.
pub open spec fn single_line(s: Seq<char>) -> bool {
    forall|i: int| 0 <= i < s.len() ==> #[trigger] s[i] != '\n' && s[i] != '\r'
}

/// Relies on `serde_json::to_string`, which cannot fail on a `str`: its
/// documentation names only failing `Serialize` impls and maps with
/// non-string keys. Its escape table writes every control character, line
/// feed and carriage return included, as an escape sequence, and leaves
/// every character but the quote and the backslash unescaped otherwise.
#[verifier::external_body]
fn quote(s: &str) -> (r: String)
    ensures
        r@ == json_literal(s@),
        single_line(r@),
        plain_json_text(s@) ==> r@ == quoted(s@),
{
    serde_json::to_string(s).unwrap()
}

proof fn lemma_single_line_concat(a: Seq<char>, b: Seq<char>)
    requires
        single_line(a),
        single_line(b),
    ensures
        single_line(a + b),
{
    assert forall|i: int| 0 <= i < (a + b).len() implies #[trigger] (a + b)[i] != '\n' && (a
        + b)[i] != '\r' by {
        if i >= a.len() {
            assert((a + b)[i] == b[i - a.len()]);
        }
    }
}

/// The line for a chat message: `{"Text":"<text>"}`.
pub open spec fn message_line(m: MessageView) -> Seq<char> {
    match m {
        MessageView::Text(t) => "{\"Text\":"@ + json_literal(t) + "}"@,
    }
}

/// The line for a client command.
pub open spec fn client_line(c: ClientCommandView) -> Seq<char> {
    match c {
        ClientCommandView::SetName(n) => "{\"SetName\":"@ + json_literal(n) + "}"@,
        ClientCommandView::SendMessage(m) => "{\"SendMessage\":"@ + message_line(m) + "}"@,
    }
}

/// One entry of a user list: `["<user>","<addr>"]`.
pub open spec fn entry_line(e: UserEntryView) -> Seq<char> {
    "["@ + json_literal(e.0) + ","@ + json_literal(e.1) + "]"@
}

/// The entries of a user list, separated by commas.
pub open spec fn entries_line(es: Seq<UserEntryView>) -> Seq<char>
    decreases es.len(),
{
    if es.len() == 0 {
        Seq::empty()
    } else if es.len() == 1 {
        entry_line(es[0])
    } else {
        entries_line(es.drop_last()) + ","@ + entry_line(es.last())
    }
}

/// The line for a server command.
pub open spec fn server_line(c: ServerCommandView) -> Seq<char> {
    match c {
        ServerCommandView::UserMessage(u, m) => "{\"UserMessage\":["@ + json_literal(u) + ","@
            + message_line(m) + "]}"@,
        ServerCommandView::ServerMessage(m) => "{\"ServerMessage\":"@ + message_line(m) + "}"@,
        ServerCommandView::UserList(es) => "{\"UserList\":["@ + entries_line(es) + "]}"@,
        ServerCommandView::Error(e) => "{\"Error\":"@ + json_literal(e) + "}"@,
        ServerCommandView::ServerName(n) => "{\"ServerName\":"@ + json_literal(n) + "}"@,
    }
}

/// `head`, then the quoted `s`, then `tail`.
fn framed(head: &str, s: &str, tail: &str) -> (r: String)
    requires
        single_line(head@),
        single_line(tail@),
    ensures
        r@ == head@ + json_literal(s@) + tail@,
        single_line(r@),
{
    let q = quote(s);
    let mut r = head.to_string();
    r.append(q.as_str());
    r.append(tail);
    proof {
        lemma_single_line_concat(head@, q@);
        lemma_single_line_concat(head@ + q@, tail@);
    }
    r
}

/// Encodes a chat message.
fn encode_message(m: &Message) -> (r: String)
    ensures
        r@ == message_line(m@),
        single_line(r@),
{
    proof {
        reveal_strlit("{\"Text\":");
        reveal_strlit("}");
    }
    match m {
        Message::Text(t) => framed("{\"Text\":", t.as_str(), "}"),
    }
}

/// Encodes a client command as one line, without the line terminator.
pub fn encode_client_command(c: &ClientCommand) -> (r: String)
    ensures
        r@ == client_line(c@),
        single_line(r@),
{
    proof {
        reveal_strlit("{\"SetName\":");
        reveal_strlit("{\"SendMessage\":");
        reveal_strlit("}");
    }
    match c {
        ClientCommand::SetName(n) => framed("{\"SetName\":", n.as_str(), "}"),
        ClientCommand::SendMessage(m) => {
            let inner = encode_message(m);
            wrapped("{\"SendMessage\":", inner.as_str(), "}")
        },
    }
}

/// `head`, then `body`, then `tail`.
fn wrapped(head: &str, body: &str, tail: &str) -> (r: String)
    requires
        single_line(head@),
        single_line(body@),
        single_line(tail@),
    ensures
        r@ == head@ + body@ + tail@,
        single_line(r@),
{
    let mut r = head.to_string();
    r.append(body);
    r.append(tail);
    proof {
        lemma_single_line_concat(head@, body@);
        lemma_single_line_concat(head@ + body@, tail@);
    }
    r
}

/// Encodes the entries of a user list.
fn encode_entries(es: &Vec<(String, PeerAddr)>) -> (r: String)
    ensures
        r@ == entries_line(entries_view(es@)),
        single_line(r@),
{
    proof {
        reveal_strlit("[");
        reveal_strlit(",");
        reveal_strlit("]");
    }
    let ghost all = entries_view(es@);
    let mut r = String::new();
    let mut i: usize = 0;
    while i < es.len()
        invariant
            i <= es@.len(),
            all == entries_view(es@),
            r@ == entries_line(all.take(i as int)),
            single_line(r@),
            single_line(","@),
            single_line("["@),
            single_line("]"@),
        decreases es@.len() - i,
    {
        let quoted_name = framed("[", es[i].0.as_str(), ",");
        let entry = framed(quoted_name.as_str(), es[i].1.as_str(), "]");
        assert(entry@ == entry_line(all[i as int]));
        let ghost prev = r@;
        if i > 0 {
            r.append(",");
            proof {
                lemma_single_line_concat(prev, ","@);
            }
        }
        let ghost mid = r@;
        r.append(entry.as_str());
        proof {
            lemma_single_line_concat(mid, entry@);
            assert(all.take(i + 1).drop_last() =~= all.take(i as int));
            if i == 0 {
                assert(r@ =~= entry@);
            }
        }
        i = i + 1;
    }
    assert(all.take(i as int) =~= all);
    r
}

/// Encodes a server command as one line, without the line terminator.
pub fn encode_server_command(c: &ServerCommand) -> (r: String)
    ensures
        r@ == server_line(c@),
        single_line(r@),
{
    proof {
        reveal_strlit("{\"UserMessage\":[");
        reveal_strlit("{\"ServerMessage\":");
        reveal_strlit("{\"UserList\":[");
        reveal_strlit("{\"Error\":");
        reveal_strlit("{\"ServerName\":");
        reveal_strlit(",");
        reveal_strlit("}");
        reveal_strlit("]}");
    }
    match c {
        ServerCommand::UserMessage(u, m) => {
            let head = framed("{\"UserMessage\":[", u.as_str(), ",");
            let body = encode_message(m);
            wrapped(head.as_str(), body.as_str(), "]}")
        },
        ServerCommand::ServerMessage(m) => {
            let body = encode_message(m);
            wrapped("{\"ServerMessage\":", body.as_str(), "}")
        },
        ServerCommand::UserList(es) => {
            let body = encode_entries(es);
            wrapped("{\"UserList\":[", body.as_str(), "]}")
        },
        ServerCommand::Error(e) => framed("{\"Error\":", e.as_str(), "}"),
        ServerCommand::ServerName(n) => framed("{\"ServerName\":", n.as_str(), "}"),
    }
}

/// What `serde_json` reads from `s` as a JSON string, if `s` is one.
pub uninterp spec fn json_string_value(s: Seq<char>) -> Option<Seq<char>>;

/// Relies on `serde_json::from_str::<String>`: the text of the JSON string
/// literal `s`, or an error when `s` is not one. Between the quotes, a
/// character that is not a quote, a backslash or below U+0020 is
/// taken as it stands.
#[verifier::external_body]
fn unquote(s: &str) -> (r: Option<String>)
    ensures
        match r {
            Some(v) => json_string_value(s@) == Some(v@),
            None => json_string_value(s@) is None,
        },
        s@.len() >= 2 && s@ == quoted(s@.subrange(1, s@.len() - 1)) && plain_json_text(
            s@.subrange(1, s@.len() - 1),
        ) ==> r is Some && r->Some_0@ == s@.subrange(1, s@.len() - 1),
{
    serde_json::from_str::<String>(s).ok()
}

/// JSON's insignificant whitespace.
pub open spec fn is_json_space(c: char) -> bool {
    c == ' ' || c == '\t' || c == '\n' || c == '\r'
}

/// The first position at or after `i` that is not whitespace.
pub open spec fn skip_space(s: Seq<char>, i: int) -> int
    decreases s.len() - i,
{
    if 0 <= i < s.len() && is_json_space(s[i]) {
        skip_space(s, i + 1)
    } else {
        i
    }
}

/// The position just after the token `c`, whitespace before it skipped.
pub open spec fn after_token(s: Seq<char>, i: int, c: char) -> Option<int> {
    let j = skip_space(s, i);
    if 0 <= j < s.len() && s[j] == c {
        Some(j + 1)
    } else {
        None
    }
}

/// The position of the quote that closes a string literal whose text starts
/// at `i`; a backslash escapes the character after it.
pub open spec fn closing_quote(s: Seq<char>, i: int) -> Option<int>
    decreases s.len() - i,
{
    if i < 0 || i >= s.len() {
        None
    } else if s[i] == '"' {
        Some(i)
    } else if s[i] == '\\' {
        if i + 1 < s.len() {
            closing_quote(s, i + 2)
        } else {
            None
        }
    } else {
        closing_quote(s, i + 1)
    }
}

/// A string literal at `i` (whitespace before it skipped): the position after
/// it, and its text.
pub open spec fn string_at(s: Seq<char>, i: int) -> Option<(int, Seq<char>)> {
    let j = skip_space(s, i);
    if 0 <= j < s.len() && s[j] == '"' {
        match closing_quote(s, j + 1) {
            Some(k) => match json_string_value(s.subrange(j, k + 1)) {
                Some(v) => Some((k + 1, v)),
                None => None,
            },
            None => None,
        }
    } else {
        None
    }
}

/// The opening of a tagged value at `i`, `{"<tag>":`: the position after the
/// colon, and the tag.
pub open spec fn tag_at(s: Seq<char>, i: int) -> Option<(int, Seq<char>)> {
    match after_token(s, i, '{') {
        Some(i1) => match string_at(s, i1) {
            Some((i2, tag)) => match after_token(s, i2, ':') {
                Some(i3) => Some((i3, tag)),
                None => None,
            },
            None => None,
        },
        None => None,
    }
}

/// Whether the tagged value is closed by the `}` at `i`, with nothing but
/// whitespace after it.
pub open spec fn closes_line(s: Seq<char>, i: int) -> bool {
    match after_token(s, i, '}') {
        Some(j) => skip_space(s, j) == s.len(),
        None => false,
    }
}

/// A chat message at `i`, `{"Text":"<text>"}`: the position after it, and
/// the message.
pub open spec fn message_at(s: Seq<char>, i: int) -> Option<(int, MessageView)> {
    match tag_at(s, i) {
        Some((i1, tag)) => if tag == "Text"@ {
            match string_at(s, i1) {
                Some((i2, t)) => match after_token(s, i2, '}') {
                    Some(i3) => Some((i3, MessageView::Text(t))),
                    None => None,
                },
                None => None,
            }
        } else {
            None
        },
        None => None,
    }
}

/// The body of a client command tagged `tag`, at `i`.
pub open spec fn client_body_at(s: Seq<char>, i: int, tag: Seq<char>) -> Option<
    (int, ClientCommandView),
> {
    if tag == "SetName"@ {
        match string_at(s, i) {
            Some((j, n)) => Some((j, ClientCommandView::SetName(n))),
            None => None,
        }
    } else if tag == "SendMessage"@ {
        match message_at(s, i) {
            Some((j, m)) => Some((j, ClientCommandView::SendMessage(m))),
            None => None,
        }
    } else {
        None
    }
}

/// The client command that the line `s` holds, if it holds one.
pub open spec fn client_command_of(s: Seq<char>) -> Option<ClientCommandView> {
    match tag_at(s, 0) {
        Some((i, tag)) => match client_body_at(s, i, tag) {
            Some((j, c)) => if closes_line(s, j) {
                Some(c)
            } else {
                None
            },
            None => None,
        },
        None => None,
    }
}

/// One user-list entry at `i`, `["<user>","<addr>"]`: the position after it,
/// and the entry.
pub open spec fn entry_at(s: Seq<char>, i: int) -> Option<(int, UserEntryView)> {
    match after_token(s, i, '[') {
        Some(i1) => match string_at(s, i1) {
            Some((i2, n)) => match after_token(s, i2, ',') {
                Some(i3) => match string_at(s, i3) {
                    Some((i4, a)) => match after_token(s, i4, ']') {
                        Some(i5) => Some((i5, (n, a))),
                        None => None,
                    },
                    None => None,
                },
                None => None,
            },
            None => None,
        },
        None => None,
    }
}

/// The rest of a non-empty user list at `i`, after the entries `acc`:
/// further entries, each after a comma, up to the closing `]`.
pub open spec fn more_entries_at(s: Seq<char>, i: int, acc: Seq<UserEntryView>) -> Option<
    (int, Seq<UserEntryView>),
>
    decreases s.len() - i,
{
    match after_token(s, i, ']') {
        Some(j) => Some((j, acc)),
        None => match after_token(s, i, ',') {
            Some(j) => match entry_at(s, j) {
                Some((k, e)) => if i < k <= s.len() {
                    more_entries_at(s, k, acc.push(e))
                } else {
                    None
                },
                None => None,
            },
            None => None,
        },
    }
}

/// A user list at `i`, `[` entries separated by commas `]`: the position
/// after it, and the entries.
pub open spec fn entries_at(s: Seq<char>, i: int) -> Option<(int, Seq<UserEntryView>)> {
    match after_token(s, i, '[') {
        Some(i1) => match after_token(s, i1, ']') {
            Some(i2) => Some((i2, Seq::empty())),
            None => match entry_at(s, i1) {
                Some((k, e)) => more_entries_at(s, k, seq![e]),
                None => None,
            },
        },
        None => None,
    }
}

/// The body of a chat message relayed from a user, `["<user>",<message>]`.
pub open spec fn user_message_at(s: Seq<char>, i: int) -> Option<(int, ServerCommandView)> {
    match after_token(s, i, '[') {
        Some(i1) => match string_at(s, i1) {
            Some((i2, u)) => match after_token(s, i2, ',') {
                Some(i3) => match message_at(s, i3) {
                    Some((i4, m)) => match after_token(s, i4, ']') {
                        Some(i5) => Some((i5, ServerCommandView::UserMessage(u, m))),
                        None => None,
                    },
                    None => None,
                },
                None => None,
            },
            None => None,
        },
        None => None,
    }
}

/// The body of a server command tagged `tag`, at `i`.
pub open spec fn server_body_at(s: Seq<char>, i: int, tag: Seq<char>) -> Option<
    (int, ServerCommandView),
> {
    if tag == "UserMessage"@ {
        user_message_at(s, i)
    } else if tag == "ServerMessage"@ {
        match message_at(s, i) {
            Some((j, m)) => Some((j, ServerCommandView::ServerMessage(m))),
            None => None,
        }
    } else if tag == "UserList"@ {
        match entries_at(s, i) {
            Some((j, es)) => Some((j, ServerCommandView::UserList(es))),
            None => None,
        }
    } else if tag == "Error"@ {
        match string_at(s, i) {
            Some((j, e)) => Some((j, ServerCommandView::Error(e))),
            None => None,
        }
    } else if tag == "ServerName"@ {
        match string_at(s, i) {
            Some((j, n)) => Some((j, ServerCommandView::ServerName(n))),
            None => None,
        }
    } else {
        None
    }
}

/// The server command that the line `s` holds, if it holds one.
pub open spec fn server_command_of(s: Seq<char>) -> Option<ServerCommandView> {
    match tag_at(s, 0) {
        Some((i, tag)) => match server_body_at(s, i, tag) {
            Some((j, c)) => if closes_line(s, j) {
                Some(c)
            } else {
                None
            },
            None => None,
        },
        None => None,
    }
}

proof fn lemma_skip_space_bounds(s: Seq<char>, i: int)
    requires
        0 <= i <= s.len(),
    ensures
        i <= skip_space(s, i) <= s.len(),
    decreases s.len() - i,
{
    if i < s.len() && is_json_space(s[i]) {
        lemma_skip_space_bounds(s, i + 1);
    }
}

proof fn lemma_closing_quote_bounds(s: Seq<char>, i: int)
    requires
        0 <= i,
    ensures
        closing_quote(s, i) matches Some(k) ==> i <= k < s.len() && s[k] == '"',
    decreases s.len() - i,
{
    if 0 <= i < s.len() && s[i] != '"' {
        if s[i] == '\\' {
            if i + 1 < s.len() {
                lemma_closing_quote_bounds(s, i + 2);
            }
        } else {
            lemma_closing_quote_bounds(s, i + 1);
        }
    }
}

/// The characters of `s`, one by one.
pub(crate) fn chars_of(s: &str) -> (r: Vec<char>)
    ensures
        r@ == s@,
{
    let mut r: Vec<char> = Vec::new();
    for c in it: s.chars()
        invariant
            it.seq() == s@,
            r@ == it.seq().take(it.index() as int),
    {
        r.push(c);
    }
    r
}

/// Whether `tag` reads `name`.
fn is_tag(tag: &String, name: &str) -> (r: bool)
    ensures
        r == (tag@ == name@),
{
    *tag == name.to_string()
}

fn skip_space_exec(cs: &Vec<char>, i: usize) -> (r: usize)
    requires
        i <= cs@.len(),
    ensures
        r == skip_space(cs@, i as int),
        i <= r <= cs@.len(),
{
    proof {
        lemma_skip_space_bounds(cs@, i as int);
    }
    let mut j = i;
    while j < cs.len() && (cs[j] == ' ' || cs[j] == '\t' || cs[j] == '\n' || cs[j] == '\r')
        invariant
            i <= j <= cs@.len(),
            skip_space(cs@, j as int) == skip_space(cs@, i as int),
        decreases cs@.len() - j,
    {
        j = j + 1;
    }
    j
}

fn after_token_exec(cs: &Vec<char>, i: usize, c: char) -> (r: Option<usize>)
    requires
        i <= cs@.len(),
    ensures
        r matches Some(k) ==> k <= cs@.len(),
        match r {
            Some(k) => after_token(cs@, i as int, c) == Some(k as int),
            None => after_token(cs@, i as int, c) is None,
        },
{
    let j = skip_space_exec(cs, i);
    if j < cs.len() && cs[j] == c {
        Some(j + 1)
    } else {
        None
    }
}

fn closing_quote_exec(cs: &Vec<char>, i: usize) -> (r: Option<usize>)
    requires
        i <= cs@.len(),
    ensures
        match r {
            Some(k) => closing_quote(cs@, i as int) == Some(k as int),
            None => closing_quote(cs@, i as int) is None,
        },
{
    let mut j = i;
    while j < cs.len()
        invariant
            i <= j <= cs@.len(),
            closing_quote(cs@, j as int) == closing_quote(cs@, i as int),
        decreases cs@.len() - j,
    {
        if cs[j] == '"' {
            return Some(j);
        } else if cs[j] == '\\' {
            if j + 1 < cs.len() {
                j = j + 2;
            } else {
                return None;
            }
        } else {
            j = j + 1;
        }
    }
    None
}

fn string_at_exec(line: &str, cs: &Vec<char>, i: usize) -> (r: Option<(usize, String)>)
    requires
        cs@ == line@,
        i <= cs@.len(),
    ensures
        r matches Some((k, _)) ==> k <= cs@.len(),
        match r {
            Some((k, v)) => string_at(cs@, i as int) == Some((k as int, v@)),
            None => string_at(cs@, i as int) is None,
        },
{
    let j = skip_space_exec(cs, i);
    if j < cs.len() && cs[j] == '"' {
        match closing_quote_exec(cs, j + 1) {
            Some(k) => {
                proof {
                    lemma_closing_quote_bounds(cs@, j + 1);
                }
                match unquote(line.substring_char(j, k + 1)) {
                    Some(v) => Some((k + 1, v)),
                    None => None,
                }
            },
            None => None,
        }
    } else {
        None
    }
}

fn tag_at_exec(line: &str, cs: &Vec<char>, i: usize) -> (r: Option<(usize, String)>)
    requires
        cs@ == line@,
        i <= cs@.len(),
    ensures
        r matches Some((k, _)) ==> k <= cs@.len(),
        match r {
            Some((k, v)) => tag_at(cs@, i as int) == Some((k as int, v@)),
            None => tag_at(cs@, i as int) is None,
        },
{
    let i1 = match after_token_exec(cs, i, '{') {
        Some(i1) => i1,
        None => return None,
    };
    let (i2, tag) = match string_at_exec(line, cs, i1) {
        Some(p) => p,
        None => return None,
    };
    match after_token_exec(cs, i2, ':') {
        Some(i3) => Some((i3, tag)),
        None => None,
    }
}

fn closes_line_exec(cs: &Vec<char>, i: usize) -> (r: bool)
    requires
        i <= cs@.len(),
    ensures
        r == closes_line(cs@, i as int),
{
    match after_token_exec(cs, i, '}') {
        Some(j) => skip_space_exec(cs, j) == cs.len(),
        None => false,
    }
}

fn message_at_exec(line: &str, cs: &Vec<char>, i: usize) -> (r: Option<(usize, Message)>)
    requires
        cs@ == line@,
        i <= cs@.len(),
    ensures
        r matches Some((k, _)) ==> k <= cs@.len(),
        match r {
            Some((k, m)) => message_at(cs@, i as int) == Some((k as int, m@)),
            None => message_at(cs@, i as int) is None,
        },
{
    let (i1, tag) = match tag_at_exec(line, cs, i) {
        Some(p) => p,
        None => return None,
    };
    if !is_tag(&tag, "Text") {
        return None;
    }
    let (i2, t) = match string_at_exec(line, cs, i1) {
        Some(p) => p,
        None => return None,
    };
    match after_token_exec(cs, i2, '}') {
        Some(i3) => Some((i3, Message::Text(t))),
        None => None,
    }
}

/// Decodes one line from a client.
pub fn decode_client_command(line: &str) -> (r: Result<ClientCommand, Error>)
    ensures
        match r {
            Ok(c) => client_command_of(line@) == Some(c@),
            Err(e) => client_command_of(line@) is None && e == Error::SerdeError,
        },
{
    let cs = chars_of(line);
    let (i, tag) = match tag_at_exec(line, &cs, 0) {
        Some(p) => p,
        None => return Err(Error::SerdeError),
    };
    let (j, c) = if is_tag(&tag, "SetName") {
        match string_at_exec(line, &cs, i) {
            Some((j, n)) => (j, ClientCommand::SetName(n)),
            None => return Err(Error::SerdeError),
        }
    } else if is_tag(&tag, "SendMessage") {
        match message_at_exec(line, &cs, i) {
            Some((j, m)) => (j, ClientCommand::SendMessage(m)),
            None => return Err(Error::SerdeError),
        }
    } else {
        return Err(Error::SerdeError);
    };
    if closes_line_exec(&cs, j) {
        Ok(c)
    } else {
        Err(Error::SerdeError)
    }
}

fn entry_at_exec(line: &str, cs: &Vec<char>, i: usize) -> (r: Option<(usize, (String, PeerAddr))>)
    requires
        cs@ == line@,
        i <= cs@.len(),
    ensures
        r matches Some((k, _)) ==> k <= cs@.len(),
        match r {
            Some((k, e)) => entry_at(cs@, i as int) == Some((k as int, (e.0@, e.1@))),
            None => entry_at(cs@, i as int) is None,
        },
{
    let i1 = match after_token_exec(cs, i, '[') {
        Some(i1) => i1,
        None => return None,
    };
    let (i2, n) = match string_at_exec(line, cs, i1) {
        Some(p) => p,
        None => return None,
    };
    let i3 = match after_token_exec(cs, i2, ',') {
        Some(i3) => i3,
        None => return None,
    };
    let (i4, a) = match string_at_exec(line, cs, i3) {
        Some(p) => p,
        None => return None,
    };
    match after_token_exec(cs, i4, ']') {
        Some(i5) => Some((i5, (n, PeerAddr::new(a)))),
        None => None,
    }
}

fn entries_at_exec(line: &str, cs: &Vec<char>, i: usize) -> (r: Option<(usize, Vec<(String, PeerAddr)>)>)
    requires
        cs@ == line@,
        i <= cs@.len(),
    ensures
        r matches Some((k, _)) ==> k <= cs@.len(),
        match r {
            Some((k, es)) => entries_at(cs@, i as int) == Some((k as int, entries_view(es@))),
            None => entries_at(cs@, i as int) is None,
        },
{
    let i1 = match after_token_exec(cs, i, '[') {
        Some(i1) => i1,
        None => return None,
    };
    if let Some(i2) = after_token_exec(cs, i1, ']') {
        let none: Vec<(String, PeerAddr)> = Vec::new();
        assert(entries_view(none@) =~= Seq::<UserEntryView>::empty());
        return Some((i2, none));
    }
    let (k0, first) = match entry_at_exec(line, cs, i1) {
        Some(p) => p,
        None => return None,
    };
    let mut acc: Vec<(String, PeerAddr)> = Vec::new();
    acc.push(first);
    assert(entries_view(acc@) =~= seq![(acc@[0].0@, acc@[0].1@)]);
    let mut k = k0;
    loop
        invariant
            k <= cs@.len(),
            cs@ == line@,
            more_entries_at(cs@, k as int, entries_view(acc@)) == entries_at(cs@, i as int),
        decreases cs@.len() - k,
    {
        if let Some(j) = after_token_exec(cs, k, ']') {
            return Some((j, acc));
        }
        let j = match after_token_exec(cs, k, ',') {
            Some(j) => j,
            None => return None,
        };
        let (next, e) = match entry_at_exec(line, cs, j) {
            Some(p) => p,
            None => return None,
        };
        if next <= k {
            return None;
        }
        let ghost prev = entries_view(acc@);
        acc.push(e);
        assert(entries_view(acc@) =~= prev.push((e.0@, e.1@)));
        k = next;
    }
}

fn user_message_at_exec(line: &str, cs: &Vec<char>, i: usize) -> (r: Option<(usize, ServerCommand)>)
    requires
        cs@ == line@,
        i <= cs@.len(),
    ensures
        r matches Some((k, _)) ==> k <= cs@.len(),
        match r {
            Some((k, c)) => user_message_at(cs@, i as int) == Some((k as int, c@)),
            None => user_message_at(cs@, i as int) is None,
        },
{
    let i1 = match after_token_exec(cs, i, '[') {
        Some(i1) => i1,
        None => return None,
    };
    let (i2, u) = match string_at_exec(line, cs, i1) {
        Some(p) => p,
        None => return None,
    };
    let i3 = match after_token_exec(cs, i2, ',') {
        Some(i3) => i3,
        None => return None,
    };
    let (i4, m) = match message_at_exec(line, cs, i3) {
        Some(p) => p,
        None => return None,
    };
    match after_token_exec(cs, i4, ']') {
        Some(i5) => Some((i5, ServerCommand::UserMessage(u, m))),
        None => None,
    }
}

/// Decodes one line from the server.
pub fn decode_server_command(line: &str) -> (r: Result<ServerCommand, Error>)
    ensures
        match r {
            Ok(c) => server_command_of(line@) == Some(c@),
            Err(e) => server_command_of(line@) is None && e == Error::SerdeError,
        },
{
    let cs = chars_of(line);
    let (i, tag) = match tag_at_exec(line, &cs, 0) {
        Some(p) => p,
        None => return Err(Error::SerdeError),
    };
    let body = if is_tag(&tag, "UserMessage") {
        user_message_at_exec(line, &cs, i)
    } else if is_tag(&tag, "ServerMessage") {
        match message_at_exec(line, &cs, i) {
            Some((j, m)) => Some((j, ServerCommand::ServerMessage(m))),
            None => None,
        }
    } else if is_tag(&tag, "UserList") {
        match entries_at_exec(line, &cs, i) {
            Some((j, es)) => Some((j, ServerCommand::UserList(es))),
            None => None,
        }
    } else if is_tag(&tag, "Error") {
        match string_at_exec(line, &cs, i) {
            Some((j, e)) => Some((j, ServerCommand::Error(e))),
            None => None,
        }
    } else if is_tag(&tag, "ServerName") {
        match string_at_exec(line, &cs, i) {
            Some((j, n)) => Some((j, ServerCommand::ServerName(n))),
            None => None,
        }
    } else {
        None
    };
    match body {
        Some((j, c)) => if closes_line_exec(&cs, j) {
            Ok(c)
        } else {
            Err(Error::SerdeError)
        },
        None => Err(Error::SerdeError),
    }
}

} // verus!
