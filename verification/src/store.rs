//! The in-memory store of user, contact and address rows, together with its
//! well-formedness invariant and the spec-level lookups that every
//! operation's contract is phrased over.

use vstd::prelude::*;
use crate::models::{Address, AddressView, Contact, ContactView, User, UserView};

verus! {

/// The store: one table per row kind, plus the id counters for the two
/// generated-id tables.
pub struct Db {
    pub users: Vec<User>,
    pub contacts: Vec<Contact>,
    pub addresses: Vec<Address>,
    pub next_contact_id: i32,
    pub next_address_id: i32,
}

/// The mathematical view of the whole store.
pub ghost struct DbView {
    pub users: Seq<UserView>,
    pub contacts: Seq<ContactView>,
    pub addresses: Seq<AddressView>,
    pub next_contact_id: int,
    pub next_address_id: int,
}

impl View for Db {
    type V = DbView;

    open spec fn view(&self) -> DbView {
        DbView {
            users: self.users@.map_values(|u: User| u@),
            contacts: self.contacts@.map_values(|c: Contact| c@),
            addresses: self.addresses@.map_values(|a: Address| a@),
            next_contact_id: self.next_contact_id as int,
            next_address_id: self.next_address_id as int,
        }
    }
}

impl DbView {
    /// Usernames are unique; generated ids are unique, positive and below
    /// their counter; and each table stays small enough that a row count
    /// fits the response types.
    pub open spec fn wf(self) -> bool {
        &&& forall|i: int, j: int|
            0 <= i < j < self.users.len() ==> (#[trigger] self.users[i]).username != (
            #[trigger] self.users[j]).username
        &&& forall|i: int|
            0 <= i < self.contacts.len() ==> 1 <= (#[trigger] self.contacts[i]).id
                < self.next_contact_id
        &&& forall|i: int, j: int|
            0 <= i < j < self.contacts.len() ==> (#[trigger] self.contacts[i]).id != (
            #[trigger] self.contacts[j]).id
        &&& self.contacts.len() < self.next_contact_id
        &&& forall|i: int|
            0 <= i < self.addresses.len() ==> 1 <= (#[trigger] self.addresses[i]).id
                < self.next_address_id
        &&& forall|i: int, j: int|
            0 <= i < j < self.addresses.len() ==> (#[trigger] self.addresses[i]).id != (
            #[trigger] self.addresses[j]).id
        &&& self.addresses.len() < self.next_address_id
        &&& 1 <= self.next_contact_id <= i32::MAX
        &&& 1 <= self.next_address_id <= i32::MAX
    }
}

/// Some user row carries this username.
pub open spec fn username_taken(users: Seq<UserView>, username: Seq<char>) -> bool {
    exists|i: int| 0 <= i < users.len() && (#[trigger] users[i]).username == username
}

/// The index of the user row with this username (unique under [`DbView::wf`]).
pub open spec fn user_idx(users: Seq<UserView>, username: Seq<char>) -> int {
    choose|i: int| 0 <= i < users.len() && (#[trigger] users[i]).username == username
}

/// Some user row holds this session token.
pub open spec fn token_held(users: Seq<UserView>, token: Seq<char>) -> bool {
    exists|i: int| 0 <= i < users.len() && (#[trigger] users[i]).token == Some(token)
}

/// Some contact row carries this id and is owned by `owner`.
pub open spec fn contact_found(contacts: Seq<ContactView>, id: int, owner: Seq<char>) -> bool {
    exists|i: int|
        0 <= i < contacts.len() && (#[trigger] contacts[i]).id == id && contacts[i].username
            == owner
}

/// The index of the contact row with this id and owner.
pub open spec fn contact_idx(contacts: Seq<ContactView>, id: int, owner: Seq<char>) -> int {
    choose|i: int|
        0 <= i < contacts.len() && (#[trigger] contacts[i]).id == id && contacts[i].username
            == owner
}

/// Some address row carries this id under this parent contact.
pub open spec fn address_found(addresses: Seq<AddressView>, id: int, contact_id: int) -> bool {
    exists|i: int|
        0 <= i < addresses.len() && (#[trigger] addresses[i]).id == id && addresses[i].contact_id
            == contact_id
}

/// The index of the address row with this id and parent contact.
pub open spec fn address_idx(addresses: Seq<AddressView>, id: int, contact_id: int) -> int {
    choose|i: int|
        0 <= i < addresses.len() && (#[trigger] addresses[i]).id == id && addresses[i].contact_id
            == contact_id
}

/// In a well-formed store, the row at `i` is the one [`user_idx`] names for
/// its username.
pub proof fn lemma_user_idx(d: DbView, i: int)
    requires
        d.wf(),
        0 <= i < d.users.len(),
    ensures
        username_taken(d.users, d.users[i].username),
        user_idx(d.users, d.users[i].username) == i,
{
    assert(username_taken(d.users, d.users[i].username));
    let k = user_idx(d.users, d.users[i].username);
    if k != i {
        assert(d.users[k].username == d.users[i].username);
        assert(false);
    }
}

/// In a well-formed store, the row at `i` is the one [`contact_idx`] names
/// for its id and owner.
pub proof fn lemma_contact_idx(d: DbView, i: int)
    requires
        d.wf(),
        0 <= i < d.contacts.len(),
    ensures
        contact_found(d.contacts, d.contacts[i].id, d.contacts[i].username),
        contact_idx(d.contacts, d.contacts[i].id, d.contacts[i].username) == i,
{
    assert(contact_found(d.contacts, d.contacts[i].id, d.contacts[i].username));
    let k = contact_idx(d.contacts, d.contacts[i].id, d.contacts[i].username);
    if k != i {
        assert(d.contacts[k].id == d.contacts[i].id);
        assert(false);
    }
}

/// In a well-formed store, the row at `i` is the one [`address_idx`] names
/// for its id and parent contact.
pub proof fn lemma_address_idx(d: DbView, i: int)
    requires
        d.wf(),
        0 <= i < d.addresses.len(),
    ensures
        address_found(d.addresses, d.addresses[i].id, d.addresses[i].contact_id),
        address_idx(d.addresses, d.addresses[i].id, d.addresses[i].contact_id) == i,
{
    assert(address_found(d.addresses, d.addresses[i].id, d.addresses[i].contact_id));
    let k = address_idx(d.addresses, d.addresses[i].id, d.addresses[i].contact_id);
    if k != i {
        assert(d.addresses[k].id == d.addresses[i].id);
        assert(false);
    }
}

impl Db {
    /// An empty store.
    pub fn new() -> (db: Db)
        ensures
            db@.wf(),
            db@.users.len() == 0,
            db@.contacts.len() == 0,
            db@.addresses.len() == 0,
            db@.next_contact_id == 1,
            db@.next_address_id == 1,
    {
        Db {
            users: Vec::new(),
            contacts: Vec::new(),
            addresses: Vec::new(),
            next_contact_id: 1,
            next_address_id: 1,
        }
    }
}

} // verus!
