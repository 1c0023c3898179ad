use vstd::prelude::*;

use crate::errors::{error_message, spec_status, ApiError};
use crate::password::{bcrypt_verify_outcome, encode_password, is_stored_hash, verify_password};

verus! {

/// A user's gender.
#[derive(Debug, Clone, Copy, PartialEq, Eq, Structural)]
pub enum Gender {
    Male,
    Female,
}

/// A calendar date (proleptic Gregorian).
#[derive(Debug, Clone, Copy, PartialEq, Eq, Structural)]
pub struct Date {
    pub year: i32,
    pub month: u32,
    pub day: u32,
}

/// A stored user. `stored` holds the columns no request edits (such as
/// the creation time), whatever the table keeps there.
#[derive(Debug)]
pub struct UserRecord<M> {
    pub id: String,
    pub name: String,
    pub gender: Gender,
    pub account: String,
    /// The bcrypt hash of the user's password.
    pub password: String,
    pub mobile_phone: String,
    pub birthday: Date,
    pub enabled: bool,
    pub stored: M,
}

/// The fields a client sends to create or update a user.
#[derive(Debug)]
pub struct UserParams {
    pub name: String,
    pub gender: Gender,
    pub account: String,
    /// The plain password (empty on update: keep the stored one).
    pub password: String,
    pub mobile_phone: String,
    pub birthday: Date,
    pub enabled: bool,
}

/// The body of a login request.
#[derive(Debug)]
pub struct LoginParams {
    pub account: String,
    pub password: String,
}

/// The answer to a successful login.
#[derive(Debug)]
pub struct LoginResult {
    pub access_token: String,
}

/// Who a logged-in request acts for.
#[derive(Debug)]
pub struct Principal {
    pub id: String,
    pub name: String,
}

pub open spec fn is_biz(e: ApiError, text: Seq<char>) -> bool {
    e matches ApiError::Biz(m) && m@ == text
}

/// The single answer to a refused login, whatever the reason.
pub open spec fn is_invalid_credentials(e: ApiError) -> bool {
    is_biz(e, "Invalid account or password"@)
}

fn biz(text: &str) -> (r: ApiError)
    ensures
        is_biz(r, text@),
{
    ApiError::Biz(String::from_str(text))
}

pub open spec fn principal_of<M>(u: UserRecord<M>) -> Principal {
    Principal { id: u.id, name: u.name }
}

/// What a login answers for a found user once the password check has
/// answered `check`.
pub fn login_result<M>(user: UserRecord<M>, check: Result<bool, ApiError>) -> (r: Result<
    Principal,
    ApiError,
>)
    ensures
        match check {
            Ok(true) => r == Ok::<Principal, ApiError>(principal_of(user)),
            Ok(false) => r matches Err(e) && is_invalid_credentials(e),
            Err(e) => r == Err::<Principal, ApiError>(e),
        },
        check == Ok::<bool, ApiError>(true) ==> (r matches Ok(p) && p.id == user.id && p.name
            == user.name),
{
    match check {
        Ok(true) => Ok(Principal { id: user.id, name: user.name }),
        Ok(false) => Err(biz("Invalid account or password")),
        Err(e) => Err(e),
    }
}

/// Logs in with `password` as the user found for the account (`None` when
/// no user has it).
pub fn login<M>(found: Option<UserRecord<M>>, password: &str) -> (r: Result<Principal, ApiError>)
    ensures
        match found {
            None => r matches Err(e) && is_invalid_credentials(e),
            Some(u) => match bcrypt_verify_outcome(password@, u.password@) {
                Some(true) => r == Ok::<Principal, ApiError>(principal_of(u)),
                Some(false) => r matches Err(e) && is_invalid_credentials(e),
                None => r matches Err(e) && e is Bcrypt,
            },
        },
        match found {
            Some(u) => bcrypt_verify_outcome(password@, u.password@) == Some(true) ==> (r matches Ok(
                p,
            ) && p.id == u.id && p.name == u.name),
            None => true,
        },
{
    match found {
        None => Err(biz("Invalid account or password")),
        Some(u) => {
            let check = verify_password(password, u.password.as_str());
            login_result(u, check)
        },
    }
}

/// A refused login looks the same whether the account is unknown or the
/// password is wrong: same status, same text.
pub proof fn lemma_refusals_alike(unknown_account: ApiError, wrong_password: ApiError)
    requires
        is_invalid_credentials(unknown_account),
        is_invalid_credentials(wrong_password),
    ensures
        error_message(unknown_account) == error_message(wrong_password),
        spec_status(unknown_account) == spec_status(wrong_password),
        spec_status(unknown_account) == 200,
{
}

pub open spec fn with_password(p: UserParams, password: String) -> UserParams {
    UserParams {
        name: p.name,
        gender: p.gender,
        account: p.account,
        password,
        mobile_phone: p.mobile_phone,
        birthday: p.birthday,
        enabled: p.enabled,
    }
}

/// The user to insert once the password has been hashed (or hashing
/// failed).
pub fn created_user(params: UserParams, hashed: Result<String, ApiError>) -> (r: Result<
    UserParams,
    ApiError,
>)
    ensures
        match hashed {
            Ok(h) => r == Ok::<UserParams, ApiError>(with_password(params, h)),
            Err(e) => r == Err::<UserParams, ApiError>(e),
        },
        hashed matches Ok(h) ==> (r matches Ok(u) && u.name == params.name && u.gender
            == params.gender && u.account == params.account && u.password == h && u.mobile_phone
            == params.mobile_phone && u.birthday == params.birthday && u.enabled == params.enabled),
        hashed is Err ==> r is Err,
{
    match hashed {
        Ok(h) => Ok(
            UserParams {
                name: params.name,
                gender: params.gender,
                account: params.account,
                password: h,
                mobile_phone: params.mobile_phone,
                birthday: params.birthday,
                enabled: params.enabled,
            },
        ),
        Err(e) => Err(e),
    }
}

/// Prepares a new user for insertion: the password is required and is
/// stored hashed.
pub fn create(params: UserParams) -> (r: Result<UserParams, ApiError>)
    ensures
        params.password@.len() == 0 ==> (r matches Err(e) && is_biz(e, "Password cannot be empty"@)),
        params.password@.len() != 0 ==> match r {
            Ok(p) => p == with_password(params, p.password) && is_stored_hash(p.password@)
                && bcrypt_verify_outcome(
                params.password@,
                p.password@,
            ) == Some(true),
            Err(e) => e is Bcrypt,
        },
        r matches Ok(u) ==> u.name == params.name && u.gender == params.gender && u.account
            == params.account && u.mobile_phone == params.mobile_phone && u.birthday
            == params.birthday && u.enabled == params.enabled && params.password@.len() != 0
            && is_stored_hash(u.password@) && bcrypt_verify_outcome(params.password@, u.password@)
            == Some(true),
{
    if params.password.as_str().is_empty() {
        return Err(biz("Password cannot be empty"));
    }
    let hashed = encode_password(params.password.as_str());
    created_user(params, hashed)
}

/// The stored user after an update: the client's fields, the given id and
/// the given password hash.
pub open spec fn updated<M>(id: String, p: UserParams, password: String, stored: M) -> UserRecord<
    M,
> {
    UserRecord {
        id,
        name: p.name,
        gender: p.gender,
        account: p.account,
        password,
        mobile_phone: p.mobile_phone,
        birthday: p.birthday,
        enabled: p.enabled,
        stored,
    }
}

fn build_updated<M>(id: String, params: UserParams, password: String, stored: M) -> (r:
    UserRecord<M>)
    ensures
        r == updated(id, params, password, stored),
        r.id == id && r.name == params.name && r.gender == params.gender && r.account
            == params.account && r.password == password && r.mobile_phone == params.mobile_phone
            && r.birthday == params.birthday && r.enabled == params.enabled && r.stored == stored,
{
    UserRecord {
        id,
        name: params.name,
        gender: params.gender,
        account: params.account,
        password,
        mobile_phone: params.mobile_phone,
        birthday: params.birthday,
        enabled: params.enabled,
        stored,
    }
}

/// The user as stored after updating the user found under `id` (`None`
/// when there is none) with `params`. An empty password keeps the stored
/// hash; any other is hashed anew. The columns no request edits keep their
/// stored values.
pub fn update<M>(existing: Option<UserRecord<M>>, id: String, params: UserParams) -> (r: Result<
    UserRecord<M>,
    ApiError,
>)
    ensures
        match existing {
            None => r matches Err(e) && is_biz(e, "User to be updated does not exist"@),
            Some(u) => if params.password@.len() == 0 {
                r == Ok::<UserRecord<M>, ApiError>(updated(id, params, u.password, u.stored))
            } else {
                match r {
                    Ok(v) => v == updated(id, params, v.password, u.stored) && is_stored_hash(v.password@)
                        && bcrypt_verify_outcome(
                        params.password@,
                        v.password@,
                    ) == Some(true),
                    Err(e) => e is Bcrypt,
                }
            },
        },
        existing is None ==> r is Err,
        match existing {
            Some(u) => match r {
                Ok(v) => v.id == id && v.name == params.name && v.gender == params.gender
                    && v.account == params.account && v.mobile_phone == params.mobile_phone
                    && v.birthday == params.birthday && v.enabled == params.enabled && v.stored
                    == u.stored && (params.password@.len() == 0 ==> v.password == u.password) && (
                params.password@.len() != 0 ==> is_stored_hash(v.password@)
                    && bcrypt_verify_outcome(params.password@, v.password@) == Some(true)),
                Err(_) => true,
            },
            None => true,
        },
        existing is Some && params.password@.len() == 0 ==> r is Ok,
{
    match existing {
        None => Err(biz("User to be updated does not exist")),
        Some(u) => {
            if params.password.as_str().is_empty() {
                Ok(build_updated(id, params, u.password, u.stored))
            } else {
                match encode_password(params.password.as_str()) {
                    Ok(h) => Ok(build_updated(id, params, h, u.stored)),
                    Err(e) => Err(e),
                }
            }
        },
    }
}

/// The user to delete: the one found under the requested id.
pub fn delete<M>(found: Option<UserRecord<M>>) -> (r: Result<UserRecord<M>, ApiError>)
    ensures
        match found {
            Some(u) => r == Ok::<UserRecord<M>, ApiError>(u),
            None => r matches Err(e) && is_biz(e, "User to be deleted does not exist"@),
        },
{
    match found {
        Some(u) => Ok(u),
        None => Err(biz("User to be deleted does not exist")),
    }
}

/// The page a listing asks for: one-based page number and page size.
#[derive(Debug, Clone, Copy)]
pub struct PaginationParams {
    pub page: u64,
    pub size: u64,
}

/// The query of the user listing: an optional keyword matched against
/// names and accounts, and the page.
#[derive(Debug)]
pub struct UserQueryParams {
    pub keyword: Option<String>,
    pub pagination: PaginationParams,
}

/// The zero-based index of a one-based page number.
pub fn page_index(page: u64) -> (r: u64)
    requires
        page >= 1,
    ensures
        r == page - 1,
{
    page - 1
}

/// The zero-based page a listing asks for, or the refusal when the page
/// number or the page size is below one.
pub fn pagination_index(p: PaginationParams) -> (r: Result<u64, ApiError>)
    ensures
        p.page >= 1 && p.size >= 1 ==> r == Ok::<u64, ApiError>((p.page - 1) as u64),
        !(p.page >= 1 && p.size >= 1) ==> (r matches Err(e) && (e matches ApiError::Validation(m)
            && m@ == "page and size must be at least 1"@)),
{
    if p.page >= 1 && p.size >= 1 {
        Ok(page_index(p.page))
    } else {
        Err(ApiError::Validation(String::from_str("page and size must be at least 1")))
    }
}

} // verus!
