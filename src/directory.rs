//! Contacts and the resolution of a recipient to an address.

use vstd::prelude::*;

use crate::address::{is_address, is_ip_addr};
use crate::text::str_equals;

verus! {

/// A saved peer: a name and the `host:port` address it stands for.
pub struct Contact {
    pub name: String,
    pub address: String,
}

/// The mathematical value of a [`Contact`].
pub struct ContactView {
    pub name: Seq<char>,
    pub address: Seq<char>,
}

impl View for Contact {
    type V = ContactView;

    open spec fn view(&self) -> ContactView {
        ContactView { name: self.name@, address: self.address@ }
    }
}

/// The view of a list of contacts.
pub open spec fn contacts_view(cs: Seq<Contact>) -> Seq<ContactView> {
    cs.map_values(|c: Contact| c@)
}

/// The address of the first contact named exactly `name`, if any.
pub open spec fn lookup(cs: Seq<ContactView>, name: Seq<char>) -> Option<Seq<char>>
    decreases cs.len(),
{
    if cs.len() == 0 {
        None
    } else if cs[0].name == name {
        Some(cs[0].address)
    } else {
        lookup(cs.drop_first(), name)
    }
}

/// No address is found for a name that no contact has.
pub proof fn lemma_lookup_absent(cs: Seq<ContactView>, name: Seq<char>)
    requires
        forall|i: int| 0 <= i < cs.len() ==> #[trigger] cs[i].name != name,
    ensures
        lookup(cs, name) is None,
    decreases cs.len(),
{
    if cs.len() > 0 {
        assert forall|i: int| 0 <= i < cs.drop_first().len() implies #[trigger] cs.drop_first()[i].name
            != name by {
            assert(cs.drop_first()[i] == cs[i + 1]);
        }
        lemma_lookup_absent(cs.drop_first(), name);
    }
}

/// Where a message to `recipient` goes: the recipient itself when it is a raw
/// address, else the address of the first contact of that name.
pub open spec fn resolved(cs: Seq<ContactView>, recipient: Seq<char>) -> Option<Seq<char>> {
    if is_address(recipient) {
        Some(recipient)
    } else {
        lookup(cs, recipient)
    }
}

/// Looks up the address of the first contact named exactly `name`.
pub fn find_contact(contacts: &Vec<Contact>, name: &str) -> (r: Option<String>)
    ensures
        r.deep_view() == lookup(contacts_view(contacts@), name@),
{
    let ghost cs = contacts_view(contacts@);
    let mut i: usize = 0;
    assert(cs.skip(0) =~= cs);
    while i < contacts.len()
        invariant
            i <= contacts@.len(),
            cs == contacts_view(contacts@),
            lookup(cs, name@) == lookup(cs.skip(i as int), name@),
        decreases contacts@.len() - i,
    {
        let c = &contacts[i];
        assert(cs.skip(i as int)[0] == c@);
        assert(cs.skip(i as int).drop_first() =~= cs.skip(i + 1));
        if str_equals(c.name.as_str(), name) {
            return Some(c.address.clone());
        }
        i = i + 1;
    }
    assert(cs.skip(i as int).len() == 0);
    None
}

/// Resolves a recipient to the address a message to it is sent to.
pub fn resolve(recipient: &str, contacts: &Vec<Contact>) -> (r: Option<String>)
    ensures
        r.deep_view() == resolved(contacts_view(contacts@), recipient@),
{
    if is_ip_addr(recipient) {
        Some(recipient.to_string())
    } else {
        find_contact(contacts, recipient)
    }
}

} // verus!
