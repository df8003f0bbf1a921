//! The command dispatcher: one line typed by the user becomes an action.
//!
//! A line is trimmed and split at double quotes; the words of the text before
//! the first quote name the command and its arguments, and the text between
//! the first and the second quote is the body of a message.

use vstd::prelude::*;
use vstd::string::StringExecFns;

use crate::address::is_address;
use crate::directory::{
    contacts_view, lemma_lookup_absent, resolve, resolved, Contact, ContactView,
};
use crate::text::{
    lemma_split_on_nonempty, split_char, split_on, split_words, str_equals, trim, trimmed,
    views_of, words,
};

verus! {

/// What the program does after a command line has been handled.
pub enum Action {
    /// Nothing more to do (a contact was added).
    Continue,
    /// End the program.
    Quit,
    /// Show incoming messages until the user enters a line.
    Listen,
    /// Show the list of commands.
    Help,
    /// Show the saved contacts.
    ListContacts,
    /// `print` was given something other than `contacts`.
    InvalidPrint,
    /// The line names no command.
    InvalidInput,
    /// The recipient is neither a raw address nor a saved contact.
    UnknownRecipient,
    /// Send `body` to `address`.
    Deliver { address: String, body: String },
}

/// The mathematical value of an [`Action`].
pub enum ActionView {
    Continue,
    Quit,
    Listen,
    Help,
    ListContacts,
    InvalidPrint,
    InvalidInput,
    UnknownRecipient,
    Deliver { address: Seq<char>, body: Seq<char> },
}

impl View for Action {
    type V = ActionView;

    open spec fn view(&self) -> ActionView {
        match self {
            Action::Continue => ActionView::Continue,
            Action::Quit => ActionView::Quit,
            Action::Listen => ActionView::Listen,
            Action::Help => ActionView::Help,
            Action::ListContacts => ActionView::ListContacts,
            Action::InvalidPrint => ActionView::InvalidPrint,
            Action::InvalidInput => ActionView::InvalidInput,
            Action::UnknownRecipient => ActionView::UnknownRecipient,
            Action::Deliver { address, body } => ActionView::Deliver {
                address: address@,
                body: body@,
            },
        }
    }
}

/// The view of the result of a command.
pub open spec fn outcome_view(r: Result<Action, String>) -> Result<ActionView, Seq<char>> {
    match r {
        Ok(a) => Ok(a@),
        Err(e) => Err(e@),
    }
}

/// The pieces of a command line between double quotes, after trimming.
pub open spec fn quoted_parts(line: Seq<char>) -> Seq<Seq<char>> {
    split_on(trimmed(line), '"')
}

/// The words of a command line before its first double quote.
pub open spec fn command_words(line: Seq<char>) -> Seq<Seq<char>> {
    words(quoted_parts(line)[0])
}

/// The outcome of `send <recipient> "<body>"`, given its words and quoted pieces.
pub open spec fn send_outcome(
    words: Seq<Seq<char>>,
    quoted: Seq<Seq<char>>,
    cs: Seq<ContactView>,
) -> Result<ActionView, Seq<char>> {
    if words.len() < 2 {
        Err("Recipient not specified"@)
    } else if quoted.len() < 2 {
        Err("Message not specified"@)
    } else {
        match resolved(cs, words[1]) {
            Some(address) => Ok(ActionView::Deliver { address, body: quoted[1] }),
            None => Ok(ActionView::UnknownRecipient),
        }
    }
}

/// The contact that `add <name> <address>` saves, or the complaint about it.
pub open spec fn add_outcome(words: Seq<Seq<char>>) -> Result<ContactView, Seq<char>> {
    if words.len() < 2 {
        Err("Name not specified"@)
    } else if words.len() < 3 {
        Err("Address not specified"@)
    } else {
        Ok(ContactView { name: words[1], address: words[2] })
    }
}

/// What `print <what>` shows.
pub open spec fn print_outcome(words: Seq<Seq<char>>) -> ActionView {
    if words.len() >= 2 && words[1] == "contacts"@ {
        ActionView::ListContacts
    } else {
        ActionView::InvalidPrint
    }
}

/// The contacts after a command line and what the program does next.
pub open spec fn dispatch(line: Seq<char>, cs: Seq<ContactView>) -> (
    Seq<ContactView>,
    Result<ActionView, Seq<char>>,
) {
    let quoted = quoted_parts(line);
    let words = command_words(line);
    let verb = if words.len() > 0 {
        words[0]
    } else {
        ""@
    };
    if verb == "send"@ {
        (cs, send_outcome(words, quoted, cs))
    } else if verb == "add"@ {
        match add_outcome(words) {
            Ok(c) => (cs.push(c), Ok(ActionView::Continue)),
            Err(e) => (cs, Err(e)),
        }
    } else if verb == "print"@ {
        (cs, Ok(print_outcome(words)))
    } else if verb == "help"@ {
        (cs, Ok(ActionView::Help))
    } else if verb == "quit"@ {
        (cs, Ok(ActionView::Quit))
    } else if verb == "listen"@ {
        (cs, Ok(ActionView::Listen))
    } else {
        (cs, Ok(ActionView::InvalidInput))
    }
}

/// A `send` whose recipient is neither a well-formed raw address nor the name
/// of a saved contact is answered as an unknown recipient: no address comes
/// out of it, so nothing is probed, connected to or written.
pub proof fn lemma_unknown_recipient(
    words: Seq<Seq<char>>,
    quoted: Seq<Seq<char>>,
    cs: Seq<ContactView>,
)
    requires
        words.len() >= 2,
        quoted.len() >= 2,
        !is_address(words[1]),
        forall|i: int| 0 <= i < cs.len() ==> #[trigger] cs[i].name != words[1],
    ensures
        send_outcome(words, quoted, cs) == Ok::<ActionView, Seq<char>>(ActionView::UnknownRecipient),
{
    lemma_lookup_absent(cs, words[1]);
}

/// Handles `send <recipient> "<body>"`: resolves the recipient and says where
/// the body goes. An unknown recipient is reported and nothing is sent.
pub fn send_message_command(
    separated_by_spaces: &[&str],
    separated_by_quotes: &[&str],
    contacts: &Vec<Contact>,
) -> (r: Result<Action, String>)
    ensures
        outcome_view(r) == send_outcome(
            views_of(separated_by_spaces@),
            views_of(separated_by_quotes@),
            contacts_view(contacts@),
        ),
{
    if separated_by_spaces.len() < 2 {
        return Err(String::from_str("Recipient not specified"));
    }
    if separated_by_quotes.len() < 2 {
        return Err(String::from_str("Message not specified"));
    }
    let recipient = separated_by_spaces[1];
    let body = separated_by_quotes[1];
    assert(views_of(separated_by_spaces@)[1] == recipient@);
    assert(views_of(separated_by_quotes@)[1] == body@);
    match resolve(recipient, contacts) {
        Some(address) => Ok(Action::Deliver { address, body: body.to_string() }),
        None => Ok(Action::UnknownRecipient),
    }
}

/// Handles `add <name> <address>`: saves the contact at the end of the list.
pub fn add_contact_command(contacts: &mut Vec<Contact>, separated_by_spaces: &[&str]) -> (r:
    Result<(), String>)
    ensures
        match add_outcome(views_of(separated_by_spaces@)) {
            Ok(c) => r is Ok && contacts_view(final(contacts)@) == contacts_view(
                old(contacts)@,
            ).push(c),
            Err(e) => r matches Err(m) && m@ == e && final(contacts)@ == old(contacts)@,
        },
{
    if separated_by_spaces.len() < 2 {
        return Err(String::from_str("Name not specified"));
    }
    if separated_by_spaces.len() < 3 {
        return Err(String::from_str("Address not specified"));
    }
    let name = separated_by_spaces[1].to_string();
    let address = separated_by_spaces[2].to_string();
    assert(views_of(separated_by_spaces@)[1] == name@);
    assert(views_of(separated_by_spaces@)[2] == address@);
    let c = Contact { name, address };
    contacts.push(c);
    assert(contacts_view(contacts@) =~= contacts_view(old(contacts)@).push(c@));
    Ok(())
}

/// Handles `print <what>`: only `print contacts` is known.
pub fn print_command(separated_by_spaces: &[&str]) -> (r: Action)
    ensures
        r@ == print_outcome(views_of(separated_by_spaces@)),
{
    if separated_by_spaces.len() >= 2 {
        let what = separated_by_spaces[1];
        assert(views_of(separated_by_spaces@)[1] == what@);
        if str_equals(what, "contacts") {
            return Action::ListContacts;
        }
    }
    Action::InvalidPrint
}

/// Handles one line typed by the user: runs the command it names against the
/// contacts and says what the program does next.
pub fn handle_user_input(line: &str, contacts: &mut Vec<Contact>) -> (r: Result<Action, String>)
    ensures
        (contacts_view(final(contacts)@), outcome_view(r)) == dispatch(
            line@,
            contacts_view(old(contacts)@),
        ),
{
    let input = trim(line);
    let separated_by_quotes = split_char(input, '"');
    proof {
        lemma_split_on_nonempty(input@, '"');
    }
    let first = separated_by_quotes[0];
    assert(views_of(separated_by_quotes@)[0] == first@);
    let separated_by_spaces = split_words(first);
    let verb: &str = if separated_by_spaces.len() > 0 {
        let w = separated_by_spaces[0];
        assert(views_of(separated_by_spaces@)[0] == w@);
        w
    } else {
        ""
    };
    if str_equals(verb, "send") {
        send_message_command(separated_by_spaces.as_slice(), separated_by_quotes.as_slice(), contacts)
    } else if str_equals(verb, "add") {
        match add_contact_command(contacts, separated_by_spaces.as_slice()) {
            Ok(()) => Ok(Action::Continue),
            Err(e) => Err(e),
        }
    } else if str_equals(verb, "print") {
        Ok(print_command(separated_by_spaces.as_slice()))
    } else if str_equals(verb, "help") {
        Ok(Action::Help)
    } else if str_equals(verb, "quit") {
        Ok(Action::Quit)
    } else if str_equals(verb, "listen") {
        Ok(Action::Listen)
    } else {
        Ok(Action::InvalidInput)
    }
}

} // verus!
