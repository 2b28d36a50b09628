//! Structural validation of request payloads. It runs strictly before any
//! store access, so a rejected payload has no side effect.

use vstd::prelude::*;
use vstd::string::StrSliceExecFns;
use crate::errors::{AppError, AppResult};
use crate::models::{
    CreateAddressRequest, CreateContactRequest, LoginRequest, RegisterRequest,
    UpdateAddressRequest, UpdateContactRequest, UpdateUserRequest, opt_view,
};

verus! {

/// The length of `s`, in characters, lies in `min ..= max`.
pub open spec fn len_in(s: Seq<char>, min: int, max: int) -> bool {
    min <= s.len() <= max
}

/// The field is absent, or its length lies in `min ..= max`.
pub open spec fn opt_len_in(o: Option<Seq<char>>, min: int, max: int) -> bool {
    match o {
        Some(s) => len_in(s, min, max),
        None => true,
    }
}

/// `i` splits `s` into a non-empty local part, one `'@'`, and a non-empty
/// domain part.
pub open spec fn is_email_split(s: Seq<char>, i: int) -> bool {
    &&& 1 <= i <= s.len() - 2
    &&& s[i] == '@'
    &&& forall|j: int| 0 <= j < s.len() && j != i ==> s[j] != '@'
}

/// The email shape this library accepts: exactly one `'@'`, with at least one
/// character on each side.
pub open spec fn valid_email(s: Seq<char>) -> bool {
    exists|i: int| #[trigger] is_email_split(s, i)
}

/// The field is absent, or a valid email of at most `max` characters.
pub open spec fn opt_email_in(o: Option<Seq<char>>, max: int) -> bool {
    match o {
        Some(s) => s.len() <= max && valid_email(s),
        None => true,
    }
}

fn check_len(s: &str, min: usize, max: usize) -> (r: bool)
    ensures
        r == len_in(s@, min as int, max as int),
{
    let l: usize = s.unicode_len();
    min <= l && l <= max
}

fn check_opt_len(o: &Option<String>, min: usize, max: usize) -> (r: bool)
    ensures
        r == opt_len_in(opt_view(*o), min as int, max as int),
{
    match o {
        Some(s) => check_len(s.as_str(), min, max),
        None => true,
    }
}

/// Decides [`valid_email`] by scanning for the `'@'` characters of `s`.
fn check_email(s: &str) -> (r: bool)
    ensures
        r == valid_email(s@),
{
    let len: usize = s.unicode_len();
    let mut count: usize = 0;
    let mut pos: usize = 0;
    let mut i: usize = 0;
    while i < len
        invariant
            len == s@.len(),
            i <= len,
            count <= i,
            count == 0 ==> forall|j: int| 0 <= j < i ==> s@[j] != '@',
            count == 1 ==> pos < i && s@[pos as int] == '@' && forall|j: int|
                0 <= j < i && j != pos ==> s@[j] != '@',
            count >= 2 ==> exists|a: int, b: int|
                0 <= a < b < i && #[trigger] s@[a] == '@' && #[trigger] s@[b] == '@',
        decreases len - i,
    {
        if s.get_char(i) == '@' {
            if count == 0 {
                pos = i;
            }
            count = count + 1;
        }
        i = i + 1;
    }
    if count == 1 && pos >= 1 && len >= 2 && pos <= len - 2 {
        assert(is_email_split(s@, pos as int));
        true
    } else {
        assert(!valid_email(s@)) by {
            if valid_email(s@) {
                let k = choose|k: int| #[trigger] is_email_split(s@, k);
                if count == 0 {
                    assert(s@[k] != '@');
                } else if count == 1 {
                    assert(k == pos);
                } else {
                    let (a, b) = choose|a: int, b: int|
                        0 <= a < b < len && #[trigger] s@[a] == '@' && #[trigger] s@[b] == '@';
                    assert(a != k || b != k);
                }
            }
        }
        false
    }
}

/// The constraints on a registration payload: username, password and name
/// must each be 1 to 100 characters.
pub open spec fn valid_register(r: RegisterRequest) -> bool {
    &&& len_in(r.username@, 1, 100)
    &&& len_in(r.password@, 1, 100)
    &&& len_in(r.name@, 1, 100)
}

pub fn validate_register(req: &RegisterRequest) -> (r: AppResult<()>)
    ensures
        r is Ok <==> valid_register(*req),
        r matches Err(e) ==> e is Validation,
{
    if !check_len(req.username.as_str(), 1, 100) {
        Err(AppError::Validation(String::from_str("username must be between 1 and 100 characters")))
    } else if !check_len(req.password.as_str(), 1, 100) {
        Err(AppError::Validation(String::from_str("password must be between 1 and 100 characters")))
    } else if !check_len(req.name.as_str(), 1, 100) {
        Err(AppError::Validation(String::from_str("name must be between 1 and 100 characters")))
    } else {
        Ok(())
    }
}

/// The constraints on a login payload: username and password must each be
/// 1 to 100 characters.
pub open spec fn valid_login(r: LoginRequest) -> bool {
    &&& len_in(r.username@, 1, 100)
    &&& len_in(r.password@, 1, 100)
}

pub fn validate_login(req: &LoginRequest) -> (r: AppResult<()>)
    ensures
        r is Ok <==> valid_login(*req),
        r matches Err(e) ==> e is Validation,
{
    if !check_len(req.username.as_str(), 1, 100) {
        Err(AppError::Validation(String::from_str("username must be between 1 and 100 characters")))
    } else if !check_len(req.password.as_str(), 1, 100) {
        Err(AppError::Validation(String::from_str("password must be between 1 and 100 characters")))
    } else {
        Ok(())
    }
}

/// The constraints on a user-update payload: each field, when present, must
/// be 1 to 100 characters.
pub open spec fn valid_update_user(r: UpdateUserRequest) -> bool {
    &&& opt_len_in(opt_view(r.name), 1, 100)
    &&& opt_len_in(opt_view(r.password), 1, 100)
}

pub fn validate_update_user(req: &UpdateUserRequest) -> (r: AppResult<()>)
    ensures
        r is Ok <==> valid_update_user(*req),
        r matches Err(e) ==> e is Validation,
{
    if !check_opt_len(&req.name, 1, 100) {
        Err(AppError::Validation(String::from_str("name must be between 1 and 100 characters")))
    } else if !check_opt_len(&req.password, 1, 100) {
        Err(AppError::Validation(String::from_str("password must be between 1 and 100 characters")))
    } else {
        Ok(())
    }
}

/// The constraints shared by contact payloads: first name 1 to 100
/// characters; last name at most 100; email, when present, a valid email of
/// at most 200; phone at most 20.
pub open spec fn valid_contact_fields(
    first_name: Seq<char>,
    last_name: Option<Seq<char>>,
    email: Option<Seq<char>>,
    phone: Option<Seq<char>>,
) -> bool {
    &&& len_in(first_name, 1, 100)
    &&& opt_len_in(last_name, 0, 100)
    &&& opt_email_in(email, 200)
    &&& opt_len_in(phone, 0, 20)
}

fn check_contact_fields(
    first_name: &String,
    last_name: &Option<String>,
    email: &Option<String>,
    phone: &Option<String>,
) -> (r: AppResult<()>)
    ensures
        r is Ok <==> valid_contact_fields(
            first_name@,
            opt_view(*last_name),
            opt_view(*email),
            opt_view(*phone),
        ),
        r matches Err(e) ==> e is Validation,
{
    if !check_len(first_name.as_str(), 1, 100) {
        return Err(AppError::Validation(
            String::from_str("first_name must be between 1 and 100 characters"),
        ));
    }
    if !check_opt_len(last_name, 0, 100) {
        return Err(AppError::Validation(
            String::from_str("last_name must be at most 100 characters"),
        ));
    }
    match email {
        Some(e) => {
            if !check_len(e.as_str(), 0, 200) {
                return Err(AppError::Validation(
                    String::from_str("email must be at most 200 characters"),
                ));
            }
            if !check_email(e.as_str()) {
                return Err(AppError::Validation(String::from_str("email must be a valid email")));
            }
        },
        None => {},
    }
    if !check_opt_len(phone, 0, 20) {
        return Err(AppError::Validation(String::from_str("phone must be at most 20 characters")));
    }
    Ok(())
}

pub fn validate_create_contact(req: &CreateContactRequest) -> (r: AppResult<()>)
    ensures
        r is Ok <==> valid_contact_fields(
            req.first_name@,
            opt_view(req.last_name),
            opt_view(req.email),
            opt_view(req.phone),
        ),
        r matches Err(e) ==> e is Validation,
{
    check_contact_fields(&req.first_name, &req.last_name, &req.email, &req.phone)
}

pub fn validate_update_contact(req: &UpdateContactRequest) -> (r: AppResult<()>)
    ensures
        r is Ok <==> valid_contact_fields(
            req.first_name@,
            opt_view(req.last_name),
            opt_view(req.email),
            opt_view(req.phone),
        ),
        r matches Err(e) ==> e is Validation,
{
    check_contact_fields(&req.first_name, &req.last_name, &req.email, &req.phone)
}

/// The constraints shared by address payloads: street at most 255, city and
/// province at most 100; country 1 to 100; postal code 1 to 10.
pub open spec fn valid_address_fields(
    street: Option<Seq<char>>,
    city: Option<Seq<char>>,
    province: Option<Seq<char>>,
    country: Seq<char>,
    postal_code: Seq<char>,
) -> bool {
    &&& opt_len_in(street, 0, 255)
    &&& opt_len_in(city, 0, 100)
    &&& opt_len_in(province, 0, 100)
    &&& len_in(country, 1, 100)
    &&& len_in(postal_code, 1, 10)
}

fn check_address_fields(
    street: &Option<String>,
    city: &Option<String>,
    province: &Option<String>,
    country: &String,
    postal_code: &String,
) -> (r: AppResult<()>)
    ensures
        r is Ok <==> valid_address_fields(
            opt_view(*street),
            opt_view(*city),
            opt_view(*province),
            country@,
            postal_code@,
        ),
        r matches Err(e) ==> e is Validation,
{
    if !check_opt_len(street, 0, 255) {
        return Err(AppError::Validation(
            String::from_str("street must be at most 255 characters"),
        ));
    }
    if !check_opt_len(city, 0, 100) {
        return Err(AppError::Validation(String::from_str("city must be at most 100 characters")));
    }
    if !check_opt_len(province, 0, 100) {
        return Err(AppError::Validation(
            String::from_str("province must be at most 100 characters"),
        ));
    }
    if !check_len(country.as_str(), 1, 100) {
        return Err(AppError::Validation(
            String::from_str("country must be between 1 and 100 characters"),
        ));
    }
    if !check_len(postal_code.as_str(), 1, 10) {
        return Err(AppError::Validation(
            String::from_str("postal_code must be between 1 and 10 characters"),
        ));
    }
    Ok(())
}

pub fn validate_create_address(req: &CreateAddressRequest) -> (r: AppResult<()>)
    ensures
        r is Ok <==> valid_address_fields(
            opt_view(req.street),
            opt_view(req.city),
            opt_view(req.province),
            req.country@,
            req.postal_code@,
        ),
        r matches Err(e) ==> e is Validation,
{
    check_address_fields(&req.street, &req.city, &req.province, &req.country, &req.postal_code)
}

pub fn validate_update_address(req: &UpdateAddressRequest) -> (r: AppResult<()>)
    ensures
        r is Ok <==> valid_address_fields(
            opt_view(req.street),
            opt_view(req.city),
            opt_view(req.province),
            req.country@,
            req.postal_code@,
        ),
        r matches Err(e) ==> e is Validation,
{
    check_address_fields(&req.street, &req.city, &req.province, &req.country, &req.postal_code)
}

} // verus!
