//! Account signup and login: credential hashing, tracking-token issue and
//! lookup.

use vstd::prelude::*;

use crate::codec::{lookup_opened_of, LookupCodec, LookupSealed, SEAL_MAX_LEN};

use rand::Rng;

verus! {

/// Length of a freshly generated tracking token or API key.
pub const TOKEN_LEN: usize = 64;

/// Whether `bcrypt::verify` accepts `password` against `hashed`. The
/// outcome depends on the two arguments alone.
pub uninterp spec fn bcrypt_match(password: Seq<char>, hashed: Seq<char>) -> bool;

/// A character the token generator can produce.
pub open spec fn is_token_char(c: char) -> bool {
    ('0' <= c && c <= '9') || ('a' <= c && c <= 'z') || ('A' <= c && c <= 'Z')
}

/// Relies on `bcrypt::hash` with `bcrypt::DEFAULT_COST`: the produced hash
/// verifies against the password it was made from (`bcrypt::verify`
/// recomputes the same salted digest); hashing fails only when the
/// operating system's randomness source fails.
#[verifier::external_body]
pub(crate) fn hash_password(password: &str) -> (r: Option<String>)
    ensures
        r matches Some(h) ==> bcrypt_match(password@, h@),
{
    bcrypt::hash(password, bcrypt::DEFAULT_COST).ok()
}

/// Relies on `bcrypt::verify`: the result is a function of the password and
/// the hash; `None` when the hash string cannot be parsed.
#[verifier::external_body]
pub(crate) fn check_password(password: &str, hashed: &str) -> (r: Option<bool>)
    ensures
        r matches Some(b) ==> b == bcrypt_match(password@, hashed@),
{
    bcrypt::verify(password, hashed).ok()
}

/// Relies on `rand::thread_rng` sampling `rand::distributions::Alphanumeric`:
/// each sample is one of the 62 ASCII alphanumeric characters.
#[verifier::external_body]
pub(crate) fn generate_token() -> (r: String)
    ensures
        r@.len() == TOKEN_LEN,
        forall|i: int| 0 <= i < r@.len() ==> is_token_char(#[trigger] r@[i]),
{
    rand::thread_rng()
        .sample_iter(&rand::distributions::Alphanumeric)
        .take(TOKEN_LEN)
        .map(char::from)
        .collect()
}

/// Inbound signup request body.
#[allow(non_snake_case)]
pub struct SignUpPayload {
    pub fullName: String,
    pub email: String,
    pub phoneNumber: String,
    pub password: String,
    pub confirmPassword: String,
    pub agreement: bool,
}

/// Inbound login request body.
pub struct LoginPayload {
    pub email: String,
    pub password: String,
}

/// Body of a user-fetch request: the tracking token, sealed for transport.
pub struct UserFetch {
    pub tracking_id: String,
}

/// A bearer token as posted to the standalone resolver endpoint.
pub struct Token {
    pub token: String,
}

/// A new account row, ready to persist: password stored only as a bcrypt
/// hash, a fresh 64-character tracking token attached, role and approval
/// status fixed at their initial values.
pub struct NewAccount {
    pub full_name: String,
    pub email: String,
    pub phone_number: String,
    pub password_hash: String,
    pub tracking_id: String,
    pub role: String,
    pub status: String,
    pub agreement: bool,
}

/// Builds the account row for a signup request: hashes the password and
/// attaches a fresh tracking token. Fails only when password hashing fails
/// (the operating system's randomness source).
pub fn prepare_signup(payload: SignUpPayload) -> (r: Option<NewAccount>)
    ensures
        r matches Some(a) ==> {
            &&& a.full_name@ == payload.fullName@
            &&& a.email@ == payload.email@
            &&& a.phone_number@ == payload.phoneNumber@
            &&& bcrypt_match(payload.password@, a.password_hash@)
            &&& a.tracking_id@.len() == TOKEN_LEN
            &&& (forall|i: int|
                0 <= i < a.tracking_id@.len() ==> is_token_char(#[trigger] a.tracking_id@[i]))
            &&& a.role@ == "user"@
            &&& a.status@ == "Pending Approval"@
            &&& a.agreement == payload.agreement
        },
{
    let password_hash = match hash_password(payload.password.as_str()) {
        Option::Some(h) => h,
        Option::None => {
            return Option::None;
        },
    };
    let tracking_id = generate_token();
    Option::Some(
        NewAccount {
            full_name: payload.fullName,
            email: payload.email,
            phone_number: payload.phoneNumber,
            password_hash,
            tracking_id,
            role: String::from_str("user"),
            status: String::from_str("Pending Approval"),
            agreement: payload.agreement,
        },
    )
}

/// Outcome of checking a login against a stored account.
#[derive(Clone, Copy, Debug, PartialEq, Eq, Structural)]
pub enum LoginCheck {
    /// The password matches the stored hash.
    Verified,
    /// The password does not match.
    Rejected,
    /// The stored hash could not be read.
    HashUnreadable,
}

/// Checks a login password against the stored bcrypt hash.
pub fn verify_login(stored_hash: &str, password: &str) -> (r: LoginCheck)
    ensures
        r == LoginCheck::Verified ==> bcrypt_match(password@, stored_hash@),
        r == LoginCheck::Rejected ==> !bcrypt_match(password@, stored_hash@),
{
    match check_password(password, stored_hash) {
        Option::Some(true) => LoginCheck::Verified,
        Option::Some(false) => LoginCheck::Rejected,
        Option::None => LoginCheck::HashUnreadable,
    }
}

/// Seals a tracking token for the login response. The lookup-preserving
/// scheme is used because the sealed value is later used to find the
/// account again.
pub fn issue_tracking_token(lookup: &LookupCodec, tracking_id: &str) -> (r: LookupSealed)
    requires
        lookup.wf(),
        tracking_id@.len() <= SEAL_MAX_LEN,
    ensures
        lookup_opened_of(lookup.key_view(), r.data@) == Some(tracking_id@),
{
    lookup.seal_lookup(tracking_id)
}

/// Opens a sealed tracking token from a user-fetch request; `None` exactly
/// when the presented value does not open under the codec, in which case no
/// account lookup happens.
pub fn open_tracking_token(lookup: &LookupCodec, fetch: &UserFetch) -> (r: Option<String>)
    requires
        lookup.wf(),
    ensures
        r matches Some(t) ==> lookup_opened_of(lookup.key_view(), fetch.tracking_id@) == Some(t@),
        r is None ==> lookup_opened_of(lookup.key_view(), fetch.tracking_id@) is None,
{
    let sealed = LookupSealed { data: fetch.tracking_id.clone() };
    lookup.open_lookup(&sealed)
}

} // verus!
