//! The data model: stored rows, request payloads and response shapes,
//! together with the mathematical view of each stored row.

use vstd::prelude::*;

verus! {

/// The view of an optional string: `None`, or the character sequence.
pub open spec fn opt_view(o: Option<String>) -> Option<Seq<char>> {
    match o {
        Some(s) => Some(s@),
        None => None,
    }
}

/// Clones an optional string, keeping the value.
pub fn clone_opt_str(o: &Option<String>) -> (r: Option<String>)
    ensures
        r == *o,
{
    match o {
        Some(s) => Some(s.clone()),
        None => None,
    }
}

// ---------------------------------------------------------------------------
// Stored rows
// ---------------------------------------------------------------------------

/// A stored user row: the unique username, the password hash, the display
/// name, and the session token granted at login (`None` while logged out).
#[derive(Debug)]
pub struct User {
    pub username: String,
    pub password: String,
    pub name: String,
    pub token: Option<String>,
}

/// The mathematical view of a [`User`] row.
pub ghost struct UserView {
    pub username: Seq<char>,
    pub password: Seq<char>,
    pub name: Seq<char>,
    pub token: Option<Seq<char>>,
}

impl View for User {
    type V = UserView;

    open spec fn view(&self) -> UserView {
        UserView {
            username: self.username@,
            password: self.password@,
            name: self.name@,
            token: opt_view(self.token),
        }
    }
}

/// A stored contact row, owned by the user named in `username`.
pub struct Contact {
    pub id: i32,
    pub first_name: String,
    pub last_name: Option<String>,
    pub email: Option<String>,
    pub phone: Option<String>,
    pub username: String,
}

/// The mathematical view of a [`Contact`] row.
pub ghost struct ContactView {
    pub id: int,
    pub first_name: Seq<char>,
    pub last_name: Option<Seq<char>>,
    pub email: Option<Seq<char>>,
    pub phone: Option<Seq<char>>,
    pub username: Seq<char>,
}

impl View for Contact {
    type V = ContactView;

    open spec fn view(&self) -> ContactView {
        ContactView {
            id: self.id as int,
            first_name: self.first_name@,
            last_name: opt_view(self.last_name),
            email: opt_view(self.email),
            phone: opt_view(self.phone),
            username: self.username@,
        }
    }
}

/// A stored address row, owned transitively through its parent contact.
pub struct Address {
    pub id: i32,
    pub street: Option<String>,
    pub city: Option<String>,
    pub province: Option<String>,
    pub country: String,
    pub postal_code: String,
    pub contact_id: i32,
}

/// The mathematical view of an [`Address`] row.
pub ghost struct AddressView {
    pub id: int,
    pub street: Option<Seq<char>>,
    pub city: Option<Seq<char>>,
    pub province: Option<Seq<char>>,
    pub country: Seq<char>,
    pub postal_code: Seq<char>,
    pub contact_id: int,
}

impl View for Address {
    type V = AddressView;

    open spec fn view(&self) -> AddressView {
        AddressView {
            id: self.id as int,
            street: opt_view(self.street),
            city: opt_view(self.city),
            province: opt_view(self.province),
            country: self.country@,
            postal_code: self.postal_code@,
            contact_id: self.contact_id as int,
        }
    }
}

// ---------------------------------------------------------------------------
// Request payloads
// ---------------------------------------------------------------------------

pub struct RegisterRequest {
    pub username: String,
    pub password: String,
    pub name: String,
}

pub struct LoginRequest {
    pub username: String,
    pub password: String,
}

pub struct UpdateUserRequest {
    pub name: Option<String>,
    pub password: Option<String>,
}

pub struct CreateContactRequest {
    pub first_name: String,
    pub last_name: Option<String>,
    pub email: Option<String>,
    pub phone: Option<String>,
}

pub struct UpdateContactRequest {
    pub first_name: String,
    pub last_name: Option<String>,
    pub email: Option<String>,
    pub phone: Option<String>,
}

pub struct SearchContactRequest {
    pub name: Option<String>,
    pub email: Option<String>,
    pub phone: Option<String>,
    pub page: Option<i32>,
    pub size: Option<i32>,
}

pub struct CreateAddressRequest {
    pub street: Option<String>,
    pub city: Option<String>,
    pub province: Option<String>,
    pub country: String,
    pub postal_code: String,
}

pub struct UpdateAddressRequest {
    pub street: Option<String>,
    pub city: Option<String>,
    pub province: Option<String>,
    pub country: String,
    pub postal_code: String,
}

// ---------------------------------------------------------------------------
// Response shapes
// ---------------------------------------------------------------------------

/// The public view of a user: the password hash is never returned.
#[derive(Debug)]
pub struct UserResponse {
    pub username: String,
    pub name: String,
}

#[derive(Debug)]
pub struct LoginResponse {
    pub token: String,
}

#[derive(Debug)]
pub struct ContactResponse {
    pub id: i32,
    pub first_name: String,
    pub last_name: Option<String>,
    pub email: Option<String>,
    pub phone: Option<String>,
}

/// The abstract contents of a [`ContactResponse`].
pub ghost struct ContactData {
    pub id: int,
    pub first_name: Seq<char>,
    pub last_name: Option<Seq<char>>,
    pub email: Option<Seq<char>>,
    pub phone: Option<Seq<char>>,
}

impl View for ContactResponse {
    type V = ContactData;

    open spec fn view(&self) -> ContactData {
        ContactData {
            id: self.id as int,
            first_name: self.first_name@,
            last_name: opt_view(self.last_name),
            email: opt_view(self.email),
            phone: opt_view(self.phone),
        }
    }
}

/// What a contact row looks like to a client: everything but the owner.
pub open spec fn contact_data_of(c: ContactView) -> ContactData {
    ContactData {
        id: c.id,
        first_name: c.first_name,
        last_name: c.last_name,
        email: c.email,
        phone: c.phone,
    }
}

#[derive(Debug)]
pub struct PagingResponse {
    pub page: i32,
    pub total_page: i32,
    pub total_item: i64,
}

#[derive(Debug)]
pub struct ContactSearchResponse {
    pub data: Vec<ContactResponse>,
    pub paging: PagingResponse,
}

#[derive(Debug)]
pub struct AddressResponse {
    pub id: i32,
    pub street: Option<String>,
    pub city: Option<String>,
    pub province: Option<String>,
    pub country: String,
    pub postal_code: String,
}

/// The abstract contents of an [`AddressResponse`].
pub ghost struct AddressData {
    pub id: int,
    pub street: Option<Seq<char>>,
    pub city: Option<Seq<char>>,
    pub province: Option<Seq<char>>,
    pub country: Seq<char>,
    pub postal_code: Seq<char>,
}

impl View for AddressResponse {
    type V = AddressData;

    open spec fn view(&self) -> AddressData {
        AddressData {
            id: self.id as int,
            street: opt_view(self.street),
            city: opt_view(self.city),
            province: opt_view(self.province),
            country: self.country@,
            postal_code: self.postal_code@,
        }
    }
}

/// What an address row looks like to a client: everything but the parent id.
pub open spec fn address_data_of(a: AddressView) -> AddressData {
    AddressData {
        id: a.id,
        street: a.street,
        city: a.city,
        province: a.province,
        country: a.country,
        postal_code: a.postal_code,
    }
}

/// The generic success envelope.
pub struct ApiResponse<T> {
    pub data: T,
}

/// The error envelope.
#[derive(Debug)]
pub struct ErrorResponse {
    pub errors: String,
}

// ---------------------------------------------------------------------------
// Row-to-response conversions
// ---------------------------------------------------------------------------

impl From<Contact> for ContactResponse {
    fn from(contact: Contact) -> (r: Self) {
        Self {
            id: contact.id,
            first_name: contact.first_name,
            last_name: contact.last_name,
            email: contact.email,
            phone: contact.phone,
        }
    }
}

impl vstd::std_specs::convert::FromSpecImpl<Contact> for ContactResponse {
    open spec fn obeys_from_spec() -> bool {
        true
    }

    open spec fn from_spec(contact: Contact) -> Self {
        ContactResponse {
            id: contact.id,
            first_name: contact.first_name,
            last_name: contact.last_name,
            email: contact.email,
            phone: contact.phone,
        }
    }
}

impl From<Address> for AddressResponse {
    fn from(address: Address) -> (r: Self) {
        Self {
            id: address.id,
            street: address.street,
            city: address.city,
            province: address.province,
            country: address.country,
            postal_code: address.postal_code,
        }
    }
}

impl vstd::std_specs::convert::FromSpecImpl<Address> for AddressResponse {
    open spec fn obeys_from_spec() -> bool {
        true
    }

    open spec fn from_spec(address: Address) -> Self {
        AddressResponse {
            id: address.id,
            street: address.street,
            city: address.city,
            province: address.province,
            country: address.country,
            postal_code: address.postal_code,
        }
    }
}

impl From<User> for UserResponse {
    fn from(user: User) -> (r: Self) {
        Self {
            username: user.username,
            name: user.name,
        }
    }
}

impl vstd::std_specs::convert::FromSpecImpl<User> for UserResponse {
    open spec fn obeys_from_spec() -> bool {
        true
    }

    open spec fn from_spec(user: User) -> Self {
        UserResponse {
            username: user.username,
            name: user.name,
        }
    }
}

} // verus!
