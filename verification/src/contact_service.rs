//! The contact repository: create, read, update, delete and a filtered,
//! paginated search, every operation scoped to the acting user.

use vstd::prelude::*;
use vstd::pervasive::VecAdditionalExecFns;
use crate::errors::{AppError, AppResult};
use crate::models::{
    Contact, ContactResponse, ContactSearchResponse, ContactView, CreateContactRequest,
    PagingResponse, SearchContactRequest, UpdateContactRequest, clone_opt_str, contact_data_of,
    opt_view,
};
use crate::store::{Db, DbView, contact_found, contact_idx, lemma_contact_idx};
use crate::text::{contains_ci, str_contains_ci, str_eq};

verus! {

/// The index of the contact row with this id owned by `username`, if any.
fn find_contact(db: &Db, username: &str, contact_id: i32) -> (r: Option<usize>)
    ensures
        r matches Some(i) ==> i < db@.contacts.len() && db@.contacts[i as int].id
            == contact_id as int && db@.contacts[i as int].username == username@,
        r is None ==> !contact_found(db@.contacts, contact_id as int, username@),
{
    let n: usize = db.contacts.len();
    let mut i: usize = 0;
    while i < n
        invariant
            n == db@.contacts.len(),
            i <= n,
            forall|j: int|
                0 <= j < i ==> !((#[trigger] db@.contacts[j]).id == contact_id as int
                    && db@.contacts[j].username == username@),
        decreases n - i,
    {
        if db.contacts[i].id == contact_id && str_eq(db.contacts[i].username.as_str(), username) {
            return Some(i);
        }
        i = i + 1;
    }
    None
}

/// An owned copy of the client-visible part of a contact row.
fn contact_response_of(c: &Contact) -> (r: ContactResponse)
    ensures
        r@ == contact_data_of(c@),
{
    ContactResponse {
        id: c.id,
        first_name: c.first_name.clone(),
        last_name: clone_opt_str(&c.last_name),
        email: clone_opt_str(&c.email),
        phone: clone_opt_str(&c.phone),
    }
}

/// Inserts a contact row under the next generated id and echoes it back.
pub fn create(db: &mut Db, username: &str, req: &CreateContactRequest) -> (r: AppResult<
    ContactResponse,
>)
    requires
        old(db)@.wf(),
    ensures
        final(db)@.wf(),
        final(db)@.users == old(db)@.users,
        final(db)@.addresses == old(db)@.addresses,
        final(db)@.next_address_id == old(db)@.next_address_id,
        r is Ok <==> old(db)@.next_contact_id < i32::MAX,
        r is Err ==> final(db)@ == old(db)@,
        r matches Err(e) ==> e is Internal,
        r matches Ok(resp) ==> ({
            let c = ContactView {
                id: old(db)@.next_contact_id,
                first_name: req.first_name@,
                last_name: opt_view(req.last_name),
                email: opt_view(req.email),
                phone: opt_view(req.phone),
                username: username@,
            };
            &&& final(db)@.contacts == old(db)@.contacts.push(c)
            &&& final(db)@.next_contact_id == old(db)@.next_contact_id + 1
            &&& resp@ == contact_data_of(c)
        }),
{
    if db.next_contact_id == i32::MAX {
        return Err(AppError::Internal);
    }
    let id = db.next_contact_id;
    let contact = Contact {
        id,
        first_name: req.first_name.clone(),
        last_name: clone_opt_str(&req.last_name),
        email: clone_opt_str(&req.email),
        phone: clone_opt_str(&req.phone),
        username: String::from_str(username),
    };
    let ghost cv = contact@;
    db.contacts.push(contact);
    db.next_contact_id = id + 1;
    proof {
        assert(db@.contacts =~= old(db)@.contacts.push(cv));
        assert forall|i: int, j: int|
            0 <= i < j < db@.contacts.len() implies (#[trigger] db@.contacts[i]).id != (
        #[trigger] db@.contacts[j]).id by {
            if j < old(db)@.contacts.len() as int {
                assert(old(db)@.contacts[i].id != old(db)@.contacts[j].id);
            } else {
                assert(db@.contacts[j] == cv);
                assert(old(db)@.contacts[i].id < old(db)@.next_contact_id);
            }
        }
    }
    Ok(ContactResponse {
        id,
        first_name: req.first_name.clone(),
        last_name: clone_opt_str(&req.last_name),
        email: clone_opt_str(&req.email),
        phone: clone_opt_str(&req.phone),
    })
}

/// Fetches the contact with this id, if the acting user owns it.
pub fn get(db: &Db, username: &str, contact_id: i32) -> (r: AppResult<ContactResponse>)
    requires
        db@.wf(),
    ensures
        r is Ok <==> contact_found(db@.contacts, contact_id as int, username@),
        r matches Ok(resp) ==> resp@ == contact_data_of(
            db@.contacts[contact_idx(db@.contacts, contact_id as int, username@)],
        ),
        r matches Err(e) ==> e matches AppError::NotFound(m) && m@ == "contact is not found"@,
{
    match find_contact(db, username, contact_id) {
        Some(i) => {
            proof {
                lemma_contact_idx(db@, i as int);
            }
            Ok(contact_response_of(&db.contacts[i]))
        },
        None => Err(AppError::NotFound(String::from_str("contact is not found"))),
    }
}

/// Replaces the mutable fields of the contact with this id, if the acting
/// user owns it; id and owner are kept.
pub fn update(db: &mut Db, username: &str, contact_id: i32, req: &UpdateContactRequest) -> (r:
    AppResult<ContactResponse>)
    requires
        old(db)@.wf(),
    ensures
        final(db)@.wf(),
        final(db)@.users == old(db)@.users,
        final(db)@.addresses == old(db)@.addresses,
        final(db)@.next_contact_id == old(db)@.next_contact_id,
        final(db)@.next_address_id == old(db)@.next_address_id,
        r is Ok <==> contact_found(old(db)@.contacts, contact_id as int, username@),
        r is Err ==> final(db)@ == old(db)@,
        r matches Err(e) ==> e matches AppError::NotFound(m) && m@ == "contact is not found"@,
        r matches Ok(resp) ==> ({
            let c = ContactView {
                id: contact_id as int,
                first_name: req.first_name@,
                last_name: opt_view(req.last_name),
                email: opt_view(req.email),
                phone: opt_view(req.phone),
                username: username@,
            };
            &&& final(db)@.contacts == old(db)@.contacts.update(
                contact_idx(old(db)@.contacts, contact_id as int, username@),
                c,
            )
            &&& resp@ == contact_data_of(c)
        }),
{
    let idx = match find_contact(db, username, contact_id) {
        Some(i) => i,
        None => {
            return Err(AppError::NotFound(String::from_str("contact is not found")));
        },
    };
    proof {
        lemma_contact_idx(db@, idx as int);
    }
    let updated = Contact {
        id: contact_id,
        first_name: req.first_name.clone(),
        last_name: clone_opt_str(&req.last_name),
        email: clone_opt_str(&req.email),
        phone: clone_opt_str(&req.phone),
        username: String::from_str(username),
    };
    let ghost cv = updated@;
    db.contacts.set(idx, updated);
    proof {
        assert(db@.contacts =~= old(db)@.contacts.update(idx as int, cv));
        assert forall|i: int, j: int|
            0 <= i < j < db@.contacts.len() implies (#[trigger] db@.contacts[i]).id != (
        #[trigger] db@.contacts[j]).id by {
            assert(old(db)@.contacts[i].id != old(db)@.contacts[j].id);
        }
    }
    Ok(ContactResponse {
        id: contact_id,
        first_name: req.first_name.clone(),
        last_name: clone_opt_str(&req.last_name),
        email: clone_opt_str(&req.email),
        phone: clone_opt_str(&req.phone),
    })
}

/// Deletes the contact with this id, if the acting user owns it. Address
/// rows under it are not cascaded, mirroring the storage behaviour.
pub fn remove(db: &mut Db, username: &str, contact_id: i32) -> (r: AppResult<()>)
    requires
        old(db)@.wf(),
    ensures
        final(db)@.wf(),
        final(db)@.users == old(db)@.users,
        final(db)@.addresses == old(db)@.addresses,
        final(db)@.next_contact_id == old(db)@.next_contact_id,
        final(db)@.next_address_id == old(db)@.next_address_id,
        r is Ok <==> contact_found(old(db)@.contacts, contact_id as int, username@),
        r is Err ==> final(db)@ == old(db)@,
        r matches Err(e) ==> e matches AppError::NotFound(m) && m@ == "contact is not found"@,
        r is Ok ==> final(db)@.contacts == old(db)@.contacts.remove(
            contact_idx(old(db)@.contacts, contact_id as int, username@),
        ),
{
    let idx = match find_contact(db, username, contact_id) {
        Some(i) => i,
        None => {
            return Err(AppError::NotFound(String::from_str("contact is not found")));
        },
    };
    proof {
        lemma_contact_idx(db@, idx as int);
    }
    db.contacts.remove(idx);
    proof {
        assert(db@.contacts =~= old(db)@.contacts.remove(idx as int));
        assert forall|i: int, j: int|
            0 <= i < j < db@.contacts.len() implies (#[trigger] db@.contacts[i]).id != (
        #[trigger] db@.contacts[j]).id by {
            let oi = if i < idx as int {
                i
            } else {
                i + 1
            };
            let oj = if j < idx as int {
                j
            } else {
                j + 1
            };
            assert(db@.contacts[i] == old(db)@.contacts[oi]);
            assert(db@.contacts[j] == old(db)@.contacts[oj]);
            assert(old(db)@.contacts[oi].id != old(db)@.contacts[oj].id);
        }
        assert forall|i: int| 0 <= i < db@.contacts.len() implies 1 <= (
        #[trigger] db@.contacts[i]).id < db@.next_contact_id by {
            let oi = if i < idx as int {
                i
            } else {
                i + 1
            };
            assert(db@.contacts[i] == old(db)@.contacts[oi]);
        }
    }
    Ok(())
}

/// A contact row passes the conjunctive search filter: it is owned by
/// `owner`, and each given criterion matches case-insensitively as a
/// substring — the name criterion against first or last name, the email and
/// phone criteria against their fields (absent fields never match).
pub open spec fn matches_filters(
    c: ContactView,
    owner: Seq<char>,
    namef: Option<Seq<char>>,
    emailf: Option<Seq<char>>,
    phonef: Option<Seq<char>>,
) -> bool {
    &&& c.username == owner
    &&& (match namef {
        Some(n) => contains_ci(c.first_name, n) || (c.last_name matches Some(l) && contains_ci(
            l,
            n,
        )),
        None => true,
    })
    &&& (match emailf {
        Some(e) => c.email matches Some(ce) && contains_ci(ce, e),
        None => true,
    })
    &&& (match phonef {
        Some(p) => c.phone matches Some(cp) && contains_ci(cp, p),
        None => true,
    })
}

/// The rows that pass the filter, in storage order.
pub open spec fn matching(
    contacts: Seq<ContactView>,
    owner: Seq<char>,
    namef: Option<Seq<char>>,
    emailf: Option<Seq<char>>,
    phonef: Option<Seq<char>>,
) -> Seq<ContactView>
    decreases contacts.len(),
{
    if contacts.len() == 0 {
        Seq::empty()
    } else {
        let prefix = matching(contacts.drop_last(), owner, namef, emailf, phonef);
        if matches_filters(contacts.last(), owner, namef, emailf, phonef) {
            prefix.push(contacts.last())
        } else {
            prefix
        }
    }
}

/// Every row in the filtered set passes the filter; in particular every row
/// a search returns is owned by the acting user.
pub proof fn lemma_matching_sound(
    contacts: Seq<ContactView>,
    owner: Seq<char>,
    namef: Option<Seq<char>>,
    emailf: Option<Seq<char>>,
    phonef: Option<Seq<char>>,
)
    ensures
        forall|k: int|
            0 <= k < matching(contacts, owner, namef, emailf, phonef).len()
                ==> matches_filters(
                #[trigger] matching(contacts, owner, namef, emailf, phonef)[k],
                owner,
                namef,
                emailf,
                phonef,
            ),
    decreases contacts.len(),
{
    if contacts.len() > 0 {
        lemma_matching_sound(contacts.drop_last(), owner, namef, emailf, phonef);
        let prefix = matching(contacts.drop_last(), owner, namef, emailf, phonef);
        let m = matching(contacts, owner, namef, emailf, phonef);
        if matches_filters(contacts.last(), owner, namef, emailf, phonef) {
            assert(m == prefix.push(contacts.last()));
            assert forall|k: int| 0 <= k < m.len() implies matches_filters(
                #[trigger] m[k],
                owner,
                namef,
                emailf,
                phonef,
            ) by {
                if k < prefix.len() {
                    assert(m[k] == prefix[k]);
                } else {
                    assert(m[k] == contacts.last());
                }
            }
        } else {
            assert(m == prefix);
        }
    }
}

/// The requested page number, defaulted to 1 and floored at 1.
pub open spec fn effective_page(page: Option<i32>) -> int {
    match page {
        Some(p) => if p < 1 {
            1
        } else {
            p as int
        },
        None => 1,
    }
}

/// The requested page size, defaulted to 10 and clamped to `1 ..= 100`.
pub open spec fn effective_size(size: Option<i32>) -> int {
    match size {
        Some(s) => if s < 1 {
            1
        } else if s > 100 {
            100
        } else {
            s as int
        },
        None => 10,
    }
}

/// How many pages of `size` rows hold `total` rows; zero when nothing
/// matched.
pub open spec fn total_pages(total: int, size: int) -> int {
    if total == 0 {
        0
    } else {
        (total - 1) / size + 1
    }
}

/// The window of `m` shown on `page`: rows `(page-1)*size` up to `size` of
/// them, empty past the end.
pub open spec fn page_slice(m: Seq<ContactView>, page: int, size: int) -> Seq<ContactView> {
    let off = (page - 1) * size;
    if off >= m.len() {
        Seq::empty()
    } else if off + size <= m.len() {
        m.subrange(off, off + size)
    } else {
        m.subrange(off, m.len() as int)
    }
}

/// Whatever the caller asks for, the page number is floored at 1 and the
/// page size is clamped to `1 ..= 100`; absent values default to page 1 and
/// size 10.
pub proof fn lemma_paging_clamps(page: Option<i32>, size: Option<i32>)
    ensures
        1 <= effective_page(page),
        1 <= effective_size(size) <= 100,
        page is None ==> effective_page(page) == 1,
        size is None ==> effective_size(size) == 10,
{
}

/// `total_pages` is the ceiling of `total / size`: the pages hold all the
/// rows, and every page before the last is needed.
pub proof fn lemma_total_pages_is_ceiling(total: int, size: int)
    requires
        0 <= total,
        1 <= size,
    ensures
        total_pages(total, size) * size >= total,
        total > 0 ==> (total_pages(total, size) - 1) * size < total,
        total == 0 ==> total_pages(total, size) == 0,
{
    if total > 0 {
        let q = (total - 1) / size;
        vstd::arithmetic::div_mod::lemma_fundamental_div_mod(total - 1, size);
        vstd::arithmetic::div_mod::lemma_mod_division_less_than_divisor(total - 1, size);
        assert((q + 1) * size == q * size + size) by (nonlinear_arith);
        assert(q * size == size * q) by (nonlinear_arith);
    }
}

/// Whether a contact row passes the search filter.
fn contact_matches(
    c: &Contact,
    username: &str,
    name: &Option<String>,
    email: &Option<String>,
    phone: &Option<String>,
) -> (b: bool)
    ensures
        b == matches_filters(c@, username@, opt_view(*name), opt_view(*email), opt_view(*phone)),
{
    if !str_eq(c.username.as_str(), username) {
        return false;
    }
    match name {
        Some(n) => {
            let hit_first = str_contains_ci(c.first_name.as_str(), n.as_str());
            let hit_last = match &c.last_name {
                Some(l) => str_contains_ci(l.as_str(), n.as_str()),
                None => false,
            };
            if !hit_first && !hit_last {
                return false;
            }
        },
        None => {},
    }
    match email {
        Some(e) => {
            let hit = match &c.email {
                Some(ce) => str_contains_ci(ce.as_str(), e.as_str()),
                None => false,
            };
            if !hit {
                return false;
            }
        },
        None => {},
    }
    match phone {
        Some(p) => {
            let hit = match &c.phone {
                Some(cp) => str_contains_ci(cp.as_str(), p.as_str()),
                None => false,
            };
            if !hit {
                return false;
            }
        },
        None => {},
    }
    true
}

/// An owned copy of a contact response.
fn clone_response(c: &ContactResponse) -> (r: ContactResponse)
    ensures
        r == *c,
{
    ContactResponse {
        id: c.id,
        first_name: c.first_name.clone(),
        last_name: clone_opt_str(&c.last_name),
        email: clone_opt_str(&c.email),
        phone: clone_opt_str(&c.phone),
    }
}

/// Runs the conjunctive filter over the acting user's contacts and returns
/// the requested page, together with the page number, the total match count
/// and the total page count over the whole filtered set.
pub fn search(db: &Db, username: &str, req: &SearchContactRequest) -> (r: AppResult<
    ContactSearchResponse,
>)
    requires
        db@.wf(),
    ensures
        r is Ok,
        r matches Ok(resp) ==> ({
            let pg = effective_page(req.page);
            let sz = effective_size(req.size);
            let m = matching(
                db@.contacts,
                username@,
                opt_view(req.name),
                opt_view(req.email),
                opt_view(req.phone),
            );
            &&& resp.paging.page == pg
            &&& resp.paging.total_item == m.len()
            &&& resp.paging.total_page == total_pages(m.len() as int, sz)
            &&& resp.data@.len() == page_slice(m, pg, sz).len()
            &&& forall|i: int|
                0 <= i < resp.data@.len() ==> (#[trigger] resp.data@[i])@ == contact_data_of(
                    page_slice(m, pg, sz)[i],
                )
        }),
{
    let page: i32 = match req.page {
        Some(p) => if p < 1 {
            1
        } else {
            p
        },
        None => 1,
    };
    let size: i32 = match req.size {
        Some(s) => if s < 1 {
            1
        } else if s > 100 {
            100
        } else {
            s
        },
        None => 10,
    };
    let ghost gm = matching(
        db@.contacts,
        username@,
        opt_view(req.name),
        opt_view(req.email),
        opt_view(req.phone),
    );

    let n: usize = db.contacts.len();
    let mut all: Vec<ContactResponse> = Vec::new();
    let mut i: usize = 0;
    while i < n
        invariant
            db@.wf(),
            n == db@.contacts.len(),
            i <= n,
            all@.len() <= i,
            all@.len() == matching(
                db@.contacts.subrange(0, i as int),
                username@,
                opt_view(req.name),
                opt_view(req.email),
                opt_view(req.phone),
            ).len(),
            forall|k: int|
                0 <= k < all@.len() ==> (#[trigger] all@[k])@ == contact_data_of(
                    matching(
                        db@.contacts.subrange(0, i as int),
                        username@,
                        opt_view(req.name),
                        opt_view(req.email),
                        opt_view(req.phone),
                    )[k],
                ),
        decreases n - i,
    {
        let ghost pre = db@.contacts.subrange(0, i as int);
        let ghost post = db@.contacts.subrange(0, i as int + 1);
        proof {
            assert(post.drop_last() =~= pre);
            assert(post.last() == db@.contacts[i as int]);
        }
        if contact_matches(&db.contacts[i], username, &req.name, &req.email, &req.phone) {
            all.push(contact_response_of(&db.contacts[i]));
        }
        i = i + 1;
    }
    proof {
        assert(db@.contacts.subrange(0, n as int) =~= db@.contacts);
    }

    let total: usize = all.len();
    let total_item: i64 = total as i64;
    let total_page: i32 = if total == 0 {
        0
    } else {
        (((total - 1) / (size as usize)) + 1) as i32
    };

    proof {
        assert(0 <= (page as int - 1) * (size as int) <= 0x7fffffff * 100) by (nonlinear_arith)
            requires
                1 <= page as int <= 0x7fffffff,
                1 <= size as int <= 100,
        ;
    }
    let off_i64: i64 = (page as i64 - 1) * (size as i64);
    assert((page as int - 1) * (size as int) == off_i64 as int);
    let mut data: Vec<ContactResponse> = Vec::new();
    if off_i64 < total as i64 {
        let off: usize = off_i64 as usize;
        let end: usize = if off + (size as usize) <= total {
            off + (size as usize)
        } else {
            total
        };
        let mut k: usize = off;
        while k < end
            invariant
                off <= k <= end <= total,
                total == all@.len(),
                data@.len() == k - off,
                forall|t: int| 0 <= t < data@.len() ==> #[trigger] data@[t] == all@[off + t],
            decreases end - k,
        {
            data.push(clone_response(&all[k]));
            k = k + 1;
        }
        proof {
            assert(page_slice(gm, effective_page(req.page), effective_size(req.size))
                =~= gm.subrange(off as int, end as int));
        }
    }
    Ok(ContactSearchResponse { data, paging: PagingResponse { page, total_page, total_item } })
}

/// A contact owned by one user is invisible to every other user: no row
/// carries its id under another owner, so by the repository contracts the
/// other user's get, update, remove and address calls all answer `NotFound`.
pub proof fn lemma_owner_scoping(d: DbView, i: int, other: Seq<char>)
    requires
        d.wf(),
        0 <= i < d.contacts.len(),
        d.contacts[i].username != other,
    ensures
        !contact_found(d.contacts, d.contacts[i].id, other),
{
    if contact_found(d.contacts, d.contacts[i].id, other) {
        let k = contact_idx(d.contacts, d.contacts[i].id, other);
        assert(d.contacts[k].id == d.contacts[i].id);
        assert(k != i);
        assert(false);
    }
}

} // verus!
