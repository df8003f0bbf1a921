//! The wire frame of one message: `<sender>%%<body>` as raw bytes, with no
//! length prefix and no escaping.
//!
//! Decoding takes the text before the first delimiter as the sender and the
//! text after it, up to the next delimiter if there is one, as the body. A
//! frame that is empty or only whitespace is a keep-alive and decodes to no
//! message.

use vstd::prelude::*;
use vstd::string::{StrSliceExecFns, StringExecFns};
use vstd::utf8::{decode_utf8, valid_utf8};

use crate::text::{is_blank, is_blank_text};

verus! {

/// The two characters that separate the sender from the body in a frame.
pub const DELIMITER: &'static str = "%%";

/// The delimiter as a sequence of characters.
pub open spec fn delimiter() -> Seq<char> {
    seq!['%', '%']
}

/// A message as delivered: who sent it and what it says.
pub struct Message {
    pub sender: String,
    pub body: String,
}

/// The mathematical value of a [`Message`].
pub struct MessageView {
    pub sender: Seq<char>,
    pub body: Seq<char>,
}

impl View for Message {
    type V = MessageView;

    open spec fn view(&self) -> MessageView {
        MessageView { sender: self.sender@, body: self.body@ }
    }
}

impl Message {
    /// The line that shows this message to a user: `<sender>: body`.
    pub fn render(&self) -> (r: String)
        ensures
            r@ == "<"@ + self.sender@ + ">: "@ + self.body@,
    {
        let mut line = String::from_str("<");
        line.append(self.sender.as_str());
        line.append(">: ");
        line.append(self.body.as_str());
        line
    }
}

/// The view of a message that may be absent.
pub open spec fn maybe_view(m: Option<Message>) -> Option<MessageView> {
    match m {
        Some(m) => Some(m@),
        None => None,
    }
}

/// The frame that carries `body` from `sender`.
pub open spec fn frame_of(sender: Seq<char>, body: Seq<char>) -> Seq<char> {
    sender + delimiter() + body
}

/// Whether a delimiter starts at position `i` of `t`.
pub open spec fn delim_at(t: Seq<char>, i: int) -> bool {
    0 <= i && i + 1 < t.len() && t[i] == '%' && t[i + 1] == '%'
}

/// Whether no delimiter occurs anywhere in `s`.
pub open spec fn free_of_delimiter(s: Seq<char>) -> bool {
    forall|i: int| !#[trigger] delim_at(s, i)
}

/// The position of the first delimiter at or after `i`, or the length of `t`
/// when none follows.
pub open spec fn next_delim(t: Seq<char>, i: int) -> int
    decreases t.len() - i,
{
    if i + 1 >= t.len() {
        t.len() as int
    } else if delim_at(t, i) {
        i
    } else {
        next_delim(t, i + 1)
    }
}

/// The sender field of a frame: everything before the first delimiter.
pub open spec fn sender_field(t: Seq<char>) -> Seq<char> {
    t.subrange(0, next_delim(t, 0))
}

/// The body field of a frame: what lies between the first delimiter and the
/// next one (or the end); empty when the frame has no delimiter.
pub open spec fn body_field(t: Seq<char>) -> Seq<char> {
    let k = next_delim(t, 0);
    if k >= t.len() {
        Seq::empty()
    } else {
        t.subrange(k + 2, next_delim(t, k + 2))
    }
}

/// What a received frame decodes to: nothing for a blank frame, else its two fields.
pub open spec fn decoded(t: Seq<char>) -> Option<MessageView> {
    if is_blank(t) {
        None
    } else {
        Some(MessageView { sender: sender_field(t), body: body_field(t) })
    }
}

/// The text that `String::from_utf8_lossy` makes of `bytes`.
pub uninterp spec fn lossy_text(bytes: Seq<u8>) -> Seq<char>;

/// Relies on `String::from_utf8_lossy`: valid UTF-8 comes back as the text it
/// encodes; other input gets replacement characters, depending on the bytes alone.
#[verifier::external_body]
fn text_from_bytes(bytes: &[u8]) -> (r: String)
    ensures
        r@ == lossy_text(bytes@),
        valid_utf8(bytes@) ==> r@ == decode_utf8(bytes@),
{
    String::from_utf8_lossy(bytes).into_owned()
}

proof fn lemma_next_delim_bounds(t: Seq<char>, i: int)
    requires
        0 <= i <= t.len(),
    ensures
        i <= next_delim(t, i) <= t.len(),
        next_delim(t, i) < t.len() ==> delim_at(t, next_delim(t, i)),
    decreases t.len() - i,
{
    if i + 1 < t.len() && !delim_at(t, i) {
        lemma_next_delim_bounds(t, i + 1);
    }
}

/// Scanning from `i` finds `k` when no delimiter starts in `[i, k)` and `k`
/// is a delimiter or the end.
proof fn lemma_next_delim_is(t: Seq<char>, i: int, k: int)
    requires
        0 <= i <= k <= t.len(),
        forall|j: int| i <= j < k ==> !#[trigger] delim_at(t, j),
        k == t.len() || delim_at(t, k),
    ensures
        next_delim(t, i) == k,
    decreases k - i,
{
    if i < k && i + 1 < t.len() {
        assert(!delim_at(t, i));
        lemma_next_delim_is(t, i + 1, k);
    }
}

/// Finds the first delimiter at or after `from`.
fn find_delimiter(t: &str, n: usize, from: usize) -> (r: usize)
    requires
        n == t@.len(),
        from <= n,
    ensures
        r == next_delim(t@, from as int),
{
    let mut i = from;
    while n - i > 1
        invariant
            n == t@.len(),
            from <= i <= n,
            next_delim(t@, from as int) == next_delim(t@, i as int),
        decreases n - i,
    {
        if t.get_char(i) == '%' && t.get_char(i + 1) == '%' {
            return i;
        }
        i = i + 1;
    }
    n
}

/// Builds the frame that carries `body` from `sender`.
pub fn encode(sender: &str, body: &str) -> (r: String)
    ensures
        r@ == frame_of(sender@, body@),
{
    proof {
        reveal_strlit("%%");
    }
    let mut frame = String::from_str(sender);
    frame.append(DELIMITER);
    frame.append(body);
    frame
}

/// Decodes a received frame; a blank frame gives no message.
pub fn decode(text: &str) -> (r: Option<Message>)
    ensures
        maybe_view(r) == decoded(text@),
{
    if is_blank_text(text) {
        return None;
    }
    let n = text.unicode_len();
    let k = find_delimiter(text, n, 0);
    proof {
        lemma_next_delim_bounds(text@, 0);
    }
    let sender = text.substring_char(0, k).to_string();
    let body = if k >= n {
        String::new()
    } else {
        let j = find_delimiter(text, n, k + 2);
        proof {
            lemma_next_delim_bounds(text@, k + 2);
        }
        text.substring_char(k + 2, j).to_string()
    };
    let m = Message { sender, body };
    assert(m@ == decoded(text@).unwrap());
    Some(m)
}

/// Decodes the bytes of a received frame, read as UTF-8 with invalid
/// sequences replaced.
pub fn decode_frame(bytes: &[u8]) -> (r: Option<Message>)
    ensures
        maybe_view(r) == decoded(lossy_text(bytes@)),
{
    let text = text_from_bytes(bytes);
    decode(text.as_str())
}

/// Decoding an encoded frame gives back its sender and body, whenever
/// neither holds the delimiter and the sender does not end in `%` (which
/// would merge with the delimiter).
pub proof fn lemma_round_trip(sender: Seq<char>, body: Seq<char>)
    requires
        free_of_delimiter(sender),
        free_of_delimiter(body),
        sender.len() > 0 ==> sender.last() != '%',
    ensures
        decoded(frame_of(sender, body)) == Some(MessageView { sender, body }),
{
    let t = frame_of(sender, body);
    let s = sender.len() as int;
    assert(t[s] == '%' && t[s + 1] == '%');
    assert forall|j: int| 0 <= j < s implies !#[trigger] delim_at(t, j) by {
        if j + 1 < s {
            assert(!delim_at(sender, j));
        } else {
            assert(t[j] == sender.last());
        }
    }
    lemma_next_delim_is(t, 0, s);
    assert forall|j: int| s + 2 <= j < t.len() implies !#[trigger] delim_at(t, j) by {
        assert(t[j] == body[j - s - 2]);
        assert(!delim_at(body, j - s - 2));
        if j + 1 < t.len() {
            assert(t[j + 1] == body[j - s - 1]);
        }
    }
    lemma_next_delim_is(t, s + 2, t.len() as int);
    assert(!is_blank(t)) by {
        assert(t[s] == '%');
    }
    assert(t.subrange(0, s) =~= sender);
    assert(t.subrange(s + 2, t.len() as int) =~= body);
}

/// A frame that is empty or only whitespace never yields a message.
pub proof fn lemma_blank_frame_discarded(t: Seq<char>)
    requires
        is_blank(t),
    ensures
        decoded(t) is None,
{
}

} // verus!
