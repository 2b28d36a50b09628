//! The credential store operations: registration, login, profile update,
//! logout, and session authentication.

use vstd::prelude::*;
use vstd::pervasive::VecAdditionalExecFns;
use crate::crypto::{bcrypt_verifies, hash_password, verify_password};
use crate::errors::{AppError, AppResult};
use crate::models::{
    LoginRequest, LoginResponse, RegisterRequest, UpdateUserRequest, User, UserResponse, UserView,
    clone_opt_str, opt_view,
};
use crate::store::{Db, lemma_user_idx, token_held, user_idx, username_taken};
use crate::text::str_eq;
use crate::token::generate_token;

verus! {

/// The index of the user row carrying `username`, if any.
fn find_user(db: &Db, username: &str) -> (r: Option<usize>)
    ensures
        r matches Some(i) ==> i < db@.users.len() && db@.users[i as int].username == username@,
        r is None ==> !username_taken(db@.users, username@),
{
    let n: usize = db.users.len();
    let mut i: usize = 0;
    while i < n
        invariant
            n == db@.users.len(),
            i <= n,
            forall|j: int| 0 <= j < i ==> (#[trigger] db@.users[j]).username != username@,
        decreases n - i,
    {
        if str_eq(db.users[i].username.as_str(), username) {
            return Some(i);
        }
        i = i + 1;
    }
    None
}

/// Creates a user row. The username must be free; the stored password is a
/// salted hash that `bcrypt` will verify against the submitted password.
pub fn register(db: &mut Db, req: &RegisterRequest) -> (r: AppResult<UserResponse>)
    requires
        old(db)@.wf(),
    ensures
        final(db)@.wf(),
        final(db)@.contacts == old(db)@.contacts,
        final(db)@.addresses == old(db)@.addresses,
        final(db)@.next_contact_id == old(db)@.next_contact_id,
        final(db)@.next_address_id == old(db)@.next_address_id,
        r is Err ==> final(db)@ == old(db)@,
        r matches Err(e) ==> (e is BadRequest <==> username_taken(old(db)@.users, req.username@))
            && (e is BadRequest || e is Internal),
        r matches Err(e) ==> (e matches AppError::BadRequest(m) ==> m@
            == "Username already exists"@),
        username_taken(old(db)@.users, req.username@) ==> r is Err,
        r matches Ok(resp) ==> ({
            &&& !username_taken(old(db)@.users, req.username@)
            &&& resp.username@ == req.username@
            &&& resp.name@ == req.name@
            &&& final(db)@.users.len() == old(db)@.users.len() + 1
            &&& final(db)@.users == old(db)@.users.push(final(db)@.users.last())
            &&& final(db)@.users.last().username == req.username@
            &&& final(db)@.users.last().name == req.name@
            &&& final(db)@.users.last().token is None
            &&& bcrypt_verifies(req.password@, final(db)@.users.last().password)
        }),
{
    match find_user(db, req.username.as_str()) {
        Some(_) => {
            proof {
                reveal_strlit("Username already exists");
            }
            return Err(AppError::BadRequest(String::from_str("Username already exists")));
        },
        None => {},
    }
    let hashed = match hash_password(req.password.as_str()) {
        Ok(h) => h,
        Err(e) => {
            return Err(e);
        },
    };
    let user = User {
        username: req.username.clone(),
        password: hashed,
        name: req.name.clone(),
        token: None,
    };
    let ghost uv = user@;
    db.users.push(user);
    proof {
        assert(db@.users =~= old(db)@.users.push(uv));
        assert forall|i: int, j: int|
            0 <= i < j < db@.users.len() implies (#[trigger] db@.users[i]).username != (
        #[trigger] db@.users[j]).username by {
            if j < old(db)@.users.len() as int {
                assert(old(db)@.users[i].username != old(db)@.users[j].username);
            } else {
                assert(db@.users[j] == uv);
                assert(old(db)@.users[i].username != uv.username);
            }
        }
    }
    Ok(UserResponse { username: req.username.clone(), name: req.name.clone() })
}

/// Verifies the password against the stored hash and, on success, grants a
/// fresh random session token, overwriting any prior one.
pub fn login(db: &mut Db, req: &LoginRequest) -> (r: AppResult<LoginResponse>)
    requires
        old(db)@.wf(),
    ensures
        final(db)@.wf(),
        final(db)@.contacts == old(db)@.contacts,
        final(db)@.addresses == old(db)@.addresses,
        final(db)@.next_contact_id == old(db)@.next_contact_id,
        final(db)@.next_address_id == old(db)@.next_address_id,
        r is Err ==> final(db)@ == old(db)@,
        r matches Err(e) ==> e is Unauthorized || e is Internal,
        !username_taken(old(db)@.users, req.username@) ==> (r matches Err(e) && e is Unauthorized),
        r matches Err(e) ==> (e is Internal ==> username_taken(old(db)@.users, req.username@)),
        r matches Err(e) ==> (e is Unauthorized && username_taken(old(db)@.users, req.username@)
            ==> !bcrypt_verifies(
            req.password@,
            old(db)@.users[user_idx(old(db)@.users, req.username@)].password,
        )),
        r matches Ok(resp) ==> ({
            let i = user_idx(old(db)@.users, req.username@);
            &&& username_taken(old(db)@.users, req.username@)
            &&& bcrypt_verifies(req.password@, old(db)@.users[i].password)
            &&& resp.token@.len() == 36
            &&& final(db)@.users == old(db)@.users.update(
                i,
                UserView { token: Some(resp.token@), ..old(db)@.users[i] },
            )
        }),
{
    let idx = match find_user(db, req.username.as_str()) {
        Some(i) => i,
        None => {
            return Err(AppError::Unauthorized);
        },
    };
    proof {
        lemma_user_idx(db@, idx as int);
    }
    let valid = match verify_password(req.password.as_str(), db.users[idx].password.as_str()) {
        Ok(b) => b,
        Err(e) => {
            return Err(e);
        },
    };
    if !valid {
        return Err(AppError::Unauthorized);
    }
    let t = generate_token();
    let updated = User {
        username: db.users[idx].username.clone(),
        password: db.users[idx].password.clone(),
        name: db.users[idx].name.clone(),
        token: Some(t.clone()),
    };
    db.users.set(idx, updated);
    proof {
        assert(db@.users =~= old(db)@.users.update(
            idx as int,
            UserView { token: Some(t@), ..old(db)@.users[idx as int] },
        ));
        assert forall|i: int, j: int|
            0 <= i < j < db@.users.len() implies (#[trigger] db@.users[i]).username != (
        #[trigger] db@.users[j]).username by {
            assert(old(db)@.users[i].username != old(db)@.users[j].username);
        }
    }
    Ok(LoginResponse { token: t })
}

/// Updates the fields present in the request and leaves the rest untouched;
/// an empty request is a no-op that returns the current view.
pub fn update(db: &mut Db, username: &str, req: &UpdateUserRequest) -> (r: AppResult<UserResponse>)
    requires
        old(db)@.wf(),
    ensures
        final(db)@.wf(),
        final(db)@.contacts == old(db)@.contacts,
        final(db)@.addresses == old(db)@.addresses,
        final(db)@.next_contact_id == old(db)@.next_contact_id,
        final(db)@.next_address_id == old(db)@.next_address_id,
        r is Err ==> final(db)@ == old(db)@,
        r matches Err(e) ==> (e is NotFound <==> !username_taken(old(db)@.users, username@)) && (
        e is NotFound || e is Internal),
        r matches Err(e) ==> (e matches AppError::NotFound(m) ==> m@ == "user is not found"@),
        r matches Err(e) ==> (e is Internal ==> req.password is Some),
        !username_taken(old(db)@.users, username@) ==> r is Err,
        req.name is None && req.password is None && username_taken(old(db)@.users, username@)
            ==> r is Ok && final(db)@ == old(db)@,
        r matches Ok(resp) ==> ({
            let i = user_idx(old(db)@.users, username@);
            let u = old(db)@.users[i];
            let nu = final(db)@.users[i];
            &&& username_taken(old(db)@.users, username@)
            &&& final(db)@.users == old(db)@.users.update(i, nu)
            &&& nu.username == u.username
            &&& nu.token == u.token
            &&& nu.name == (match opt_view(req.name) {
                Some(n) => n,
                None => u.name,
            })
            &&& (match opt_view(req.password) {
                Some(p) => bcrypt_verifies(p, nu.password),
                None => nu.password == u.password,
            })
            &&& resp.username@ == u.username
            &&& resp.name@ == nu.name
        }),
{
    let idx = match find_user(db, username) {
        Some(i) => i,
        None => {
            return Err(AppError::NotFound(String::from_str("user is not found")));
        },
    };
    proof {
        lemma_user_idx(db@, idx as int);
    }
    let new_name = match &req.name {
        Some(n) => n.clone(),
        None => db.users[idx].name.clone(),
    };
    let new_password = match &req.password {
        Some(p) => {
            match hash_password(p.as_str()) {
                Ok(h) => h,
                Err(e) => {
                    return Err(e);
                },
            }
        },
        None => db.users[idx].password.clone(),
    };
    let updated = User {
        username: db.users[idx].username.clone(),
        password: new_password,
        name: new_name.clone(),
        token: clone_opt_str(&db.users[idx].token),
    };
    let ghost uv = updated@;
    db.users.set(idx, updated);
    proof {
        assert(db@.users =~= old(db)@.users.update(idx as int, uv));
        if req.name is None && req.password is None {
            assert(uv =~= old(db)@.users[idx as int]);
            assert(db@.users =~= old(db)@.users);
        }
        assert forall|i: int, j: int|
            0 <= i < j < db@.users.len() implies (#[trigger] db@.users[i]).username != (
        #[trigger] db@.users[j]).username by {
            assert(old(db)@.users[i].username != old(db)@.users[j].username);
        }
    }
    Ok(UserResponse { username: username_string(username), name: new_name })
}

/// An owned copy of a borrowed username.
fn username_string(username: &str) -> (r: String)
    ensures
        r@ == username@,
{
    String::from_str(username)
}

/// Clears the session token, ending the user's session.
pub fn logout(db: &mut Db, username: &str) -> (r: AppResult<()>)
    requires
        old(db)@.wf(),
    ensures
        final(db)@.wf(),
        final(db)@.contacts == old(db)@.contacts,
        final(db)@.addresses == old(db)@.addresses,
        final(db)@.next_contact_id == old(db)@.next_contact_id,
        final(db)@.next_address_id == old(db)@.next_address_id,
        r is Ok <==> username_taken(old(db)@.users, username@),
        r matches Err(e) ==> e matches AppError::NotFound(m) && m@ == "user is not found"@,
        r is Err ==> final(db)@ == old(db)@,
        r is Ok ==> ({
            let i = user_idx(old(db)@.users, username@);
            final(db)@.users == old(db)@.users.update(
                i,
                UserView { token: None, ..old(db)@.users[i] },
            )
        }),
{
    let idx = match find_user(db, username) {
        Some(i) => i,
        None => {
            return Err(AppError::NotFound(String::from_str("user is not found")));
        },
    };
    proof {
        lemma_user_idx(db@, idx as int);
    }
    let updated = User {
        username: db.users[idx].username.clone(),
        password: db.users[idx].password.clone(),
        name: db.users[idx].name.clone(),
        token: None,
    };
    db.users.set(idx, updated);
    proof {
        assert(db@.users =~= old(db)@.users.update(
            idx as int,
            UserView { token: None, ..old(db)@.users[idx as int] },
        ));
        assert forall|i: int, j: int|
            0 <= i < j < db@.users.len() implies (#[trigger] db@.users[i]).username != (
        #[trigger] db@.users[j]).username by {
            assert(old(db)@.users[i].username != old(db)@.users[j].username);
        }
    }
    Ok(())
}

/// Resolves a bearer token to the first user row holding it; any request
/// without a matching row is refused.
pub fn authenticate(db: &Db, token: &str) -> (r: AppResult<User>)
    ensures
        r is Ok <==> token_held(db@.users, token@),
        r matches Ok(u) ==> exists|i: int|
            0 <= i < db@.users.len() && (#[trigger] db@.users[i]) == u@ && u@.token == Some(token@)
                && (forall|j: int| 0 <= j < i ==> (#[trigger] db@.users[j]).token != Some(token@)),
        r matches Err(e) ==> e is Unauthorized,
{
    let n: usize = db.users.len();
    let mut i: usize = 0;
    while i < n
        invariant
            n == db@.users.len(),
            i <= n,
            forall|j: int| 0 <= j < i ==> (#[trigger] db@.users[j]).token != Some(token@),
        decreases n - i,
    {
        let matched = match &db.users[i].token {
            Some(t) => str_eq(t.as_str(), token),
            None => false,
        };
        if matched {
            let u = User {
                username: db.users[i].username.clone(),
                password: db.users[i].password.clone(),
                name: db.users[i].name.clone(),
                token: clone_opt_str(&db.users[i].token),
            };
            assert(u@ == db@.users[i as int]);
            return Ok(u);
        }
        i = i + 1;
    }
    Err(AppError::Unauthorized)
}

/// After a logout clears the one row that held token `t`, no row holds it:
/// by `authenticate`'s contract, the token is rejected with `Unauthorized`
/// from then on.
pub proof fn lemma_logout_clears_session(users: Seq<UserView>, i: int, t: Seq<char>)
    requires
        0 <= i < users.len(),
        forall|j: int| 0 <= j < users.len() && j != i ==> (#[trigger] users[j]).token != Some(t),
    ensures
        !token_held(users.update(i, UserView { token: None, ..users[i] }), t),
{
    let nu = users.update(i, UserView { token: None, ..users[i] });
    assert forall|j: int| 0 <= j < nu.len() implies (#[trigger] nu[j]).token != Some(t) by {
        if j != i {
            assert(nu[j] == users[j]);
        }
    }
}

/// Once a row with this username is appended, the username is taken: a
/// second registration under the same name must therefore be refused with
/// `BadRequest` and leave the store unchanged, by `register`'s contract.
pub proof fn lemma_register_then_taken(users: Seq<UserView>, u: UserView)
    ensures
        username_taken(users.push(u), u.username),
{
    assert(users.push(u)[users.len() as int] == u);
}

} // verus!
