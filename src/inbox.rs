//! The inbox: the ordered messages received since the last drain.
//!
//! The inbox itself is a plain value; a program that shares it between a
//! listener and a reader puts it behind one lock, so that each append and each
//! drain happens whole.

use vstd::prelude::*;

use crate::codec::{decode_frame, decoded, lossy_text, Message, MessageView};

verus! {

/// The messages received since the last drain, in arrival order.
pub struct Inbox {
    messages: Vec<Message>,
}

impl View for Inbox {
    type V = Seq<MessageView>;

    closed spec fn view(&self) -> Seq<MessageView> {
        self.messages@.map_values(|m: Message| m@)
    }
}

/// The contents after one message `m` arrives.
pub open spec fn appended(s: Seq<MessageView>, m: MessageView) -> Seq<MessageView> {
    s.push(m)
}

/// The contents after the messages `ms` arrive one by one, in that order.
pub open spec fn append_all(s: Seq<MessageView>, ms: Seq<MessageView>) -> Seq<MessageView>
    decreases ms.len(),
{
    if ms.len() == 0 {
        s
    } else {
        appended(append_all(s, ms.drop_last()), ms.last())
    }
}

/// The line that shows a message to a user.
pub open spec fn rendered(m: MessageView) -> Seq<char> {
    "<"@ + m.sender + ">: "@ + m.body
}

impl Inbox {
    /// An empty inbox.
    pub fn new() -> (r: Inbox)
        ensures
            r@ == Seq::<MessageView>::empty(),
    {
        let r = Inbox { messages: Vec::new() };
        assert(r@ =~= Seq::<MessageView>::empty());
        r
    }

    /// The number of messages waiting.
    pub fn len(&self) -> (r: usize)
        ensures
            r == self@.len(),
    {
        self.messages.len()
    }

    /// Whether no message is waiting.
    pub fn is_empty(&self) -> (r: bool)
        ensures
            r == (self@.len() == 0),
    {
        self.messages.len() == 0
    }

    /// Adds one message after all that are waiting.
    pub fn append(&mut self, m: Message)
        ensures
            final(self)@ == appended(old(self)@, m@),
    {
        self.messages.push(m);
        assert(self@ =~= appended(old(self)@, m@));
    }

    /// Takes every waiting message, in arrival order, and leaves the inbox empty.
    pub fn drain(&mut self) -> (r: Vec<Message>)
        ensures
            r@.map_values(|m: Message| m@) == old(self)@,
            r@.len() == old(self)@.len(),
            final(self)@ == Seq::<MessageView>::empty(),
    {
        let mut taken: Vec<Message> = Vec::new();
        std::mem::swap(&mut taken, &mut self.messages);
        assert(self@ =~= Seq::<MessageView>::empty());
        taken
    }

    /// Takes every waiting message, as in [`Inbox::drain`], and gives for each,
    /// in order, the line that shows it.
    pub fn drain_lines(&mut self) -> (r: Vec<String>)
        ensures
            r@.len() == old(self)@.len(),
            forall|i: int| 0 <= i < r@.len() ==> #[trigger] r@[i]@ == rendered(old(self)@[i]),
            final(self)@ == Seq::<MessageView>::empty(),
    {
        let taken = self.drain();
        let mut lines: Vec<String> = Vec::new();
        let mut i: usize = 0;
        while i < taken.len()
            invariant
                i <= taken@.len(),
                taken@.map_values(|m: Message| m@) == old(self)@,
                lines@.len() == i,
                forall|j: int| 0 <= j < i ==> #[trigger] lines@[j]@ == rendered(old(self)@[j]),
            decreases taken@.len() - i,
        {
            let line = taken[i].render();
            assert(taken@.map_values(|m: Message| m@)[i as int] == taken@[i as int]@);
            lines.push(line);
            i = i + 1;
        }
        lines
    }

    /// Handles the bytes of one received frame: the message that decodes from
    /// them is appended, a blank frame is dropped. Tells whether a message was
    /// appended.
    pub fn receive(&mut self, frame: &[u8]) -> (r: bool)
        ensures
            match decoded(lossy_text(frame@)) {
                Some(m) => r && final(self)@ == appended(old(self)@, m),
                None => !r && final(self)@ == old(self)@,
            },
    {
        match decode_frame(frame) {
            Some(m) => {
                self.append(m);
                true
            },
            None => false,
        }
    }
}

/// Messages that arrive one at a time after the contents `s`, in whatever
/// order concurrent senders reach the inbox, are all there, after `s` and in
/// arrival order, so that one drain yields each exactly as often as it arrived.
pub proof fn lemma_append_all(s: Seq<MessageView>, ms: Seq<MessageView>)
    ensures
        append_all(s, ms) == s + ms,
        append_all(s, ms).len() == s.len() + ms.len(),
        append_all(s, ms).to_multiset() == s.to_multiset().add(ms.to_multiset()),
    decreases ms.len(),
{
    if ms.len() == 0 {
        assert(s + ms =~= s);
    } else {
        lemma_append_all(s, ms.drop_last());
        assert(s + ms =~= (s + ms.drop_last()).push(ms.last()));
    }
    vstd::seq_lib::lemma_multiset_commutative(s, ms);
}

/// Appending `ms` to an empty inbox and then draining it once yields exactly
/// `ms`: as many messages as were appended, none missing and none twice.
pub proof fn lemma_drain_after_appends(ms: Seq<MessageView>)
    ensures
        append_all(Seq::empty(), ms) == ms,
        append_all(Seq::empty(), ms).to_multiset() == ms.to_multiset(),
{
    lemma_append_all(Seq::empty(), ms);
    assert(Seq::<MessageView>::empty() + ms =~= ms);
}

} // verus!
