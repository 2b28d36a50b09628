//! The address repository. Every operation first confirms that the parent
//! contact exists and belongs to the acting user: that check is the sole
//! ownership boundary, since address rows carry no owner of their own.

use vstd::prelude::*;
use vstd::pervasive::VecAdditionalExecFns;
use crate::errors::{AppError, AppResult};
use crate::models::{
    Address, AddressResponse, AddressView, CreateAddressRequest, UpdateAddressRequest,
    address_data_of, clone_opt_str, opt_view,
};
use crate::store::{
    Db, address_found, address_idx, contact_found, lemma_address_idx,
};
use crate::text::str_eq;

verus! {

/// Confirms that the contact exists and belongs to the acting user.
fn check_contact_exists(db: &Db, username: &str, contact_id: i32) -> (r: AppResult<()>)
    ensures
        r is Ok <==> contact_found(db@.contacts, contact_id as int, username@),
        r matches Err(e) ==> e matches AppError::NotFound(m) && m@ == "contact is not found"@,
{
    let n: usize = db.contacts.len();
    let mut i: usize = 0;
    while i < n
        invariant
            n == db@.contacts.len(),
            i <= n,
            forall|j: int|
                0 <= j < i ==> !((#[trigger] db@.contacts[j]).id == contact_id as int
                    && db@.contacts[j].username == username@),
        decreases n - i,
    {
        if db.contacts[i].id == contact_id && str_eq(db.contacts[i].username.as_str(), username) {
            assert(db@.contacts[i as int].id == contact_id as int && db@.contacts[i as int].username
                == username@);
            return Ok(());
        }
        i = i + 1;
    }
    Err(AppError::NotFound(String::from_str("contact is not found")))
}

/// The index of the address row with this id under this contact, if any.
fn find_address(db: &Db, contact_id: i32, address_id: i32) -> (r: Option<usize>)
    ensures
        r matches Some(i) ==> i < db@.addresses.len() && db@.addresses[i as int].id
            == address_id as int && db@.addresses[i as int].contact_id == contact_id as int,
        r is None ==> !address_found(db@.addresses, address_id as int, contact_id as int),
{
    let n: usize = db.addresses.len();
    let mut i: usize = 0;
    while i < n
        invariant
            n == db@.addresses.len(),
            i <= n,
            forall|j: int|
                0 <= j < i ==> !((#[trigger] db@.addresses[j]).id == address_id as int
                    && db@.addresses[j].contact_id == contact_id as int),
        decreases n - i,
    {
        if db.addresses[i].id == address_id && db.addresses[i].contact_id == contact_id {
            return Some(i);
        }
        i = i + 1;
    }
    None
}

/// An owned copy of the client-visible part of an address row.
fn address_response_of(a: &Address) -> (r: AddressResponse)
    ensures
        r@ == address_data_of(a@),
{
    AddressResponse {
        id: a.id,
        street: clone_opt_str(&a.street),
        city: clone_opt_str(&a.city),
        province: clone_opt_str(&a.province),
        country: a.country.clone(),
        postal_code: a.postal_code.clone(),
    }
}

/// Inserts an address row under the contact, which must be owned by the
/// acting user, and echoes the fields back under the generated id.
pub fn create(db: &mut Db, username: &str, contact_id: i32, req: &CreateAddressRequest) -> (r:
    AppResult<AddressResponse>)
    requires
        old(db)@.wf(),
    ensures
        final(db)@.wf(),
        final(db)@.users == old(db)@.users,
        final(db)@.contacts == old(db)@.contacts,
        final(db)@.next_contact_id == old(db)@.next_contact_id,
        r is Err ==> final(db)@ == old(db)@,
        r is Ok <==> contact_found(old(db)@.contacts, contact_id as int, username@) && old(
            db,
        )@.next_address_id < i32::MAX,
        !contact_found(old(db)@.contacts, contact_id as int, username@) ==> (r matches Err(e)
            && e matches AppError::NotFound(m) && m@ == "contact is not found"@),
        r matches Err(e) ==> (e is Internal ==> contact_found(
            old(db)@.contacts,
            contact_id as int,
            username@,
        )),
        r matches Err(e) ==> e is NotFound || e is Internal,
        r matches Ok(resp) ==> ({
            let a = AddressView {
                id: old(db)@.next_address_id,
                street: opt_view(req.street),
                city: opt_view(req.city),
                province: opt_view(req.province),
                country: req.country@,
                postal_code: req.postal_code@,
                contact_id: contact_id as int,
            };
            &&& final(db)@.addresses == old(db)@.addresses.push(a)
            &&& final(db)@.next_address_id == old(db)@.next_address_id + 1
            &&& resp@ == address_data_of(a)
        }),
{
    match check_contact_exists(db, username, contact_id) {
        Ok(()) => {},
        Err(e) => {
            return Err(e);
        },
    }
    if db.next_address_id == i32::MAX {
        return Err(AppError::Internal);
    }
    let id = db.next_address_id;
    let address = Address {
        id,
        street: clone_opt_str(&req.street),
        city: clone_opt_str(&req.city),
        province: clone_opt_str(&req.province),
        country: req.country.clone(),
        postal_code: req.postal_code.clone(),
        contact_id,
    };
    let ghost av = address@;
    db.addresses.push(address);
    db.next_address_id = id + 1;
    proof {
        assert(db@.addresses =~= old(db)@.addresses.push(av));
        assert forall|i: int, j: int|
            0 <= i < j < db@.addresses.len() implies (#[trigger] db@.addresses[i]).id != (
        #[trigger] db@.addresses[j]).id by {
            if j < old(db)@.addresses.len() as int {
                assert(old(db)@.addresses[i].id != old(db)@.addresses[j].id);
            } else {
                assert(db@.addresses[j] == av);
                assert(old(db)@.addresses[i].id < old(db)@.next_address_id);
            }
        }
    }
    Ok(AddressResponse {
        id,
        street: clone_opt_str(&req.street),
        city: clone_opt_str(&req.city),
        province: clone_opt_str(&req.province),
        country: req.country.clone(),
        postal_code: req.postal_code.clone(),
    })
}

/// Fetches the address with this id under the contact, which must be owned
/// by the acting user.
pub fn get(db: &Db, username: &str, contact_id: i32, address_id: i32) -> (r: AppResult<
    AddressResponse,
>)
    requires
        db@.wf(),
    ensures
        r is Ok <==> contact_found(db@.contacts, contact_id as int, username@) && address_found(
            db@.addresses,
            address_id as int,
            contact_id as int,
        ),
        !contact_found(db@.contacts, contact_id as int, username@) ==> (r matches Err(e)
            && e matches AppError::NotFound(m) && m@ == "contact is not found"@),
        contact_found(db@.contacts, contact_id as int, username@) && !address_found(
            db@.addresses,
            address_id as int,
            contact_id as int,
        ) ==> (r matches Err(e) && e matches AppError::NotFound(m) && m@
            == "address is not found"@),
        r matches Err(e) ==> e is NotFound,
        r matches Ok(resp) ==> resp@ == address_data_of(
            db@.addresses[address_idx(db@.addresses, address_id as int, contact_id as int)],
        ),
{
    match check_contact_exists(db, username, contact_id) {
        Ok(()) => {},
        Err(e) => {
            return Err(e);
        },
    }
    match find_address(db, contact_id, address_id) {
        Some(i) => {
            proof {
                lemma_address_idx(db@, i as int);
            }
            Ok(address_response_of(&db.addresses[i]))
        },
        None => Err(AppError::NotFound(String::from_str("address is not found"))),
    }
}

/// Replaces every mutable field of the address with this id under the
/// contact, which must be owned by the acting user; id and parent are kept.
pub fn update(
    db: &mut Db,
    username: &str,
    contact_id: i32,
    address_id: i32,
    req: &UpdateAddressRequest,
) -> (r: AppResult<AddressResponse>)
    requires
        old(db)@.wf(),
    ensures
        final(db)@.wf(),
        final(db)@.users == old(db)@.users,
        final(db)@.contacts == old(db)@.contacts,
        final(db)@.next_contact_id == old(db)@.next_contact_id,
        final(db)@.next_address_id == old(db)@.next_address_id,
        r is Err ==> final(db)@ == old(db)@,
        r is Ok <==> contact_found(old(db)@.contacts, contact_id as int, username@)
            && address_found(old(db)@.addresses, address_id as int, contact_id as int),
        !contact_found(old(db)@.contacts, contact_id as int, username@) ==> (r matches Err(e)
            && e matches AppError::NotFound(m) && m@ == "contact is not found"@),
        contact_found(old(db)@.contacts, contact_id as int, username@) && !address_found(
            old(db)@.addresses,
            address_id as int,
            contact_id as int,
        ) ==> (r matches Err(e) && e matches AppError::NotFound(m) && m@
            == "address is not found"@),
        r matches Err(e) ==> e is NotFound,
        r matches Ok(resp) ==> ({
            let a = AddressView {
                id: address_id as int,
                street: opt_view(req.street),
                city: opt_view(req.city),
                province: opt_view(req.province),
                country: req.country@,
                postal_code: req.postal_code@,
                contact_id: contact_id as int,
            };
            &&& final(db)@.addresses == old(db)@.addresses.update(
                address_idx(old(db)@.addresses, address_id as int, contact_id as int),
                a,
            )
            &&& resp@ == address_data_of(a)
        }),
{
    match check_contact_exists(db, username, contact_id) {
        Ok(()) => {},
        Err(e) => {
            return Err(e);
        },
    }
    let idx = match find_address(db, contact_id, address_id) {
        Some(i) => i,
        None => {
            return Err(AppError::NotFound(String::from_str("address is not found")));
        },
    };
    proof {
        lemma_address_idx(db@, idx as int);
    }
    let updated = Address {
        id: address_id,
        street: clone_opt_str(&req.street),
        city: clone_opt_str(&req.city),
        province: clone_opt_str(&req.province),
        country: req.country.clone(),
        postal_code: req.postal_code.clone(),
        contact_id,
    };
    let ghost av = updated@;
    db.addresses.set(idx, updated);
    proof {
        assert(db@.addresses =~= old(db)@.addresses.update(idx as int, av));
        assert forall|i: int, j: int|
            0 <= i < j < db@.addresses.len() implies (#[trigger] db@.addresses[i]).id != (
        #[trigger] db@.addresses[j]).id by {
            assert(old(db)@.addresses[i].id != old(db)@.addresses[j].id);
        }
    }
    Ok(AddressResponse {
        id: address_id,
        street: clone_opt_str(&req.street),
        city: clone_opt_str(&req.city),
        province: clone_opt_str(&req.province),
        country: req.country.clone(),
        postal_code: req.postal_code.clone(),
    })
}

/// Deletes the address with this id under the contact, which must be owned
/// by the acting user.
pub fn remove(db: &mut Db, username: &str, contact_id: i32, address_id: i32) -> (r: AppResult<()>)
    requires
        old(db)@.wf(),
    ensures
        final(db)@.wf(),
        final(db)@.users == old(db)@.users,
        final(db)@.contacts == old(db)@.contacts,
        final(db)@.next_contact_id == old(db)@.next_contact_id,
        final(db)@.next_address_id == old(db)@.next_address_id,
        r is Err ==> final(db)@ == old(db)@,
        r is Ok <==> contact_found(old(db)@.contacts, contact_id as int, username@)
            && address_found(old(db)@.addresses, address_id as int, contact_id as int),
        !contact_found(old(db)@.contacts, contact_id as int, username@) ==> (r matches Err(e)
            && e matches AppError::NotFound(m) && m@ == "contact is not found"@),
        contact_found(old(db)@.contacts, contact_id as int, username@) && !address_found(
            old(db)@.addresses,
            address_id as int,
            contact_id as int,
        ) ==> (r matches Err(e) && e matches AppError::NotFound(m) && m@
            == "address is not found"@),
        r matches Err(e) ==> e is NotFound,
        r is Ok ==> final(db)@.addresses == old(db)@.addresses.remove(
            address_idx(old(db)@.addresses, address_id as int, contact_id as int),
        ),
{
    match check_contact_exists(db, username, contact_id) {
        Ok(()) => {},
        Err(e) => {
            return Err(e);
        },
    }
    let idx = match find_address(db, contact_id, address_id) {
        Some(i) => i,
        None => {
            return Err(AppError::NotFound(String::from_str("address is not found")));
        },
    };
    proof {
        lemma_address_idx(db@, idx as int);
    }
    db.addresses.remove(idx);
    proof {
        assert(db@.addresses =~= old(db)@.addresses.remove(idx as int));
        assert forall|i: int, j: int|
            0 <= i < j < db@.addresses.len() implies (#[trigger] db@.addresses[i]).id != (
        #[trigger] db@.addresses[j]).id by {
            let oi = if i < idx as int {
                i
            } else {
                i + 1
            };
            let oj = if j < idx as int {
                j
            } else {
                j + 1
            };
            assert(db@.addresses[i] == old(db)@.addresses[oi]);
            assert(db@.addresses[j] == old(db)@.addresses[oj]);
            assert(old(db)@.addresses[oi].id != old(db)@.addresses[oj].id);
        }
        assert forall|i: int| 0 <= i < db@.addresses.len() implies 1 <= (
        #[trigger] db@.addresses[i]).id < db@.next_address_id by {
            let oi = if i < idx as int {
                i
            } else {
                i + 1
            };
            assert(db@.addresses[i] == old(db)@.addresses[oi]);
        }
    }
    Ok(())
}

/// The address rows under this contact, in storage order.
pub open spec fn addresses_of(addresses: Seq<AddressView>, contact_id: int) -> Seq<AddressView>
    decreases addresses.len(),
{
    if addresses.len() == 0 {
        Seq::empty()
    } else {
        let prefix = addresses_of(addresses.drop_last(), contact_id);
        if addresses.last().contact_id == contact_id {
            prefix.push(addresses.last())
        } else {
            prefix
        }
    }
}

/// Lists every address under the contact, which must be owned by the acting
/// user.
pub fn list(db: &Db, username: &str, contact_id: i32) -> (r: AppResult<Vec<AddressResponse>>)
    requires
        db@.wf(),
    ensures
        r is Ok <==> contact_found(db@.contacts, contact_id as int, username@),
        r matches Err(e) ==> e matches AppError::NotFound(m) && m@ == "contact is not found"@,
        r matches Ok(resp) ==> ({
            let m = addresses_of(db@.addresses, contact_id as int);
            &&& resp@.len() == m.len()
            &&& forall|i: int|
                0 <= i < resp@.len() ==> (#[trigger] resp@[i])@ == address_data_of(m[i])
        }),
{
    match check_contact_exists(db, username, contact_id) {
        Ok(()) => {},
        Err(e) => {
            return Err(e);
        },
    }
    let n: usize = db.addresses.len();
    let mut out: Vec<AddressResponse> = Vec::new();
    let mut i: usize = 0;
    while i < n
        invariant
            n == db@.addresses.len(),
            i <= n,
            out@.len() == addresses_of(db@.addresses.subrange(0, i as int), contact_id as int).len(),
            forall|k: int|
                0 <= k < out@.len() ==> (#[trigger] out@[k])@ == address_data_of(
                    addresses_of(db@.addresses.subrange(0, i as int), contact_id as int)[k],
                ),
        decreases n - i,
    {
        let ghost pre = db@.addresses.subrange(0, i as int);
        let ghost post = db@.addresses.subrange(0, i as int + 1);
        proof {
            assert(post.drop_last() =~= pre);
            assert(post.last() == db@.addresses[i as int]);
        }
        if db.addresses[i].contact_id == contact_id {
            out.push(address_response_of(&db.addresses[i]));
        }
        i = i + 1;
    }
    proof {
        assert(db@.addresses.subrange(0, n as int) =~= db@.addresses);
    }
    Ok(out)
}

/// Round trip: the row just created under a fresh id is exactly the row a
/// fetch by that id finds, so by `create`'s and `get`'s contracts the fetch
/// echoes the created fields under the generated id.
pub proof fn lemma_address_round_trip(addresses: Seq<AddressView>, a: AddressView)
    requires
        forall|j: int| 0 <= j < addresses.len() ==> (#[trigger] addresses[j]).id != a.id,
    ensures
        address_found(addresses.push(a), a.id, a.contact_id),
        addresses.push(a)[address_idx(addresses.push(a), a.id, a.contact_id)] == a,
{
    let pushed = addresses.push(a);
    assert(pushed[addresses.len() as int] == a);
    let k = address_idx(pushed, a.id, a.contact_id);
    if k != addresses.len() as int {
        assert(pushed[k] == addresses[k]);
        assert(false);
    }
}

} // verus!
