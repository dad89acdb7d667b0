//! Authentication and authorization: API-key hashing, header parsing, and
//! the checks that decide who may call what.

use vstd::prelude::*;
use hmac::Mac;
use crate::audit::{log_auth_failure, AuditEvent};
use crate::error::AppError;
use crate::text::{push_char, str_chars, str_trim, trim};

verus! {

/// HMAC-SHA256 of `msg` under `key`.
pub uninterp spec fn spec_hmac_sha256(key: Seq<u8>, msg: Seq<u8>) -> Seq<u8>;

/// `Hmac::<Sha256>::new_from_slice(key)`, `update(msg)`, `finalize()`: the
/// HMAC-SHA256 tag of `msg` under `key`, 32 bytes long. HMAC accepts keys of
/// every length, so the key is never refused. The tag itself is named, not
/// described.
#[verifier::external_body]
fn hmac_sha256(key: &[u8], msg: &[u8]) -> (res: Vec<u8>)
    ensures
        res@ == spec_hmac_sha256(key@, msg@),
        res@.len() == 32,
{
    let mut mac = <hmac::Hmac<sha2::Sha256> as hmac::Mac>::new_from_slice(key).expect(
        "HMAC accepts keys of every length",
    );
    mac.update(msg);
    mac.finalize().into_bytes().to_vec()
}

/// The lowercase hex digit of a value below 16.
pub open spec fn hex_digit(v: int) -> char {
    if v < 10 {
        (('0' as int) + v) as char
    } else {
        (('a' as int) + v - 10) as char
    }
}

/// Lowercase hexadecimal text of a byte string, two digits per byte.
pub open spec fn hex_lower(bytes: Seq<u8>) -> Seq<char>
    decreases bytes.len(),
{
    if bytes.len() == 0 {
        Seq::empty()
    } else {
        seq![hex_digit(bytes[0] as int / 16), hex_digit(bytes[0] as int % 16)] + hex_lower(bytes.drop_first())
    }
}

/// `hex::encode`: lowercase hexadecimal text of the bytes, two digits per
/// byte, high nibble first.
#[verifier::external_body]
fn hex_encode(bytes: &[u8]) -> (res: String)
    ensures
        res@ == hex_lower(bytes@),
{
    hex::encode(bytes)
}

/// Length of the hex text of a byte string.
pub proof fn lemma_hex_lower_len(bytes: Seq<u8>)
    ensures
        hex_lower(bytes).len() == 2 * bytes.len(),
    decreases bytes.len(),
{
    if bytes.len() > 0 {
        lemma_hex_lower_len(bytes.drop_first());
    }
}

/// The stored form of an API key: hex of its HMAC-SHA256 under the server
/// secret.
pub open spec fn api_key_hash(secret_key: Seq<u8>, api_key: Seq<u8>) -> Seq<char> {
    hex_lower(spec_hmac_sha256(secret_key, api_key))
}

/// Keyed hash of an API key, as stored in the database: 64 lowercase hex
/// digits.
pub fn hash_api_key(secret_key: &str, api_key: &str) -> (res: String)
    ensures
        res@ == api_key_hash(vstd::utf8::encode_utf8(secret_key@), vstd::utf8::encode_utf8(api_key@)),
        res@.len() == 64,
{
    let tag = hmac_sha256(secret_key.as_bytes(), api_key.as_bytes());
    proof {
        lemma_hex_lower_len(tag@);
    }
    hex_encode(tag.as_slice())
}

/// An authenticated client.
#[derive(Debug, Clone)]
pub struct AuthUser {
    pub user_id: String,
    /// The stored (hashed) API key.
    pub api_key: String,
    /// "admin" or "client".
    pub role: String,
}

/// An authenticated agent.
#[derive(Debug, Clone)]
pub struct AuthAgent {
    /// The id of the agent's service.
    pub agent_id: String,
    pub api_key: String,
}

/// Whether a role is the administrator role.
pub open spec fn is_admin_role(role: Seq<char>) -> bool {
    role == "admin"@
}

/// Whether `role` is "admin".
pub fn role_is_admin(role: &String) -> (res: bool)
    ensures
        res == is_admin_role(role@),
{
    crate::text::chars_equal(&str_chars(role.as_str()), "admin")
}

/// Admin routes: only administrators pass.
pub fn require_admin(auth_user: &AuthUser) -> (res: Result<(), AppError>)
    ensures
        res is Ok <==> is_admin_role(auth_user.role@),
        res matches Err(e) ==> e == AppError::Forbidden,
{
    if role_is_admin(&auth_user.role) {
        Ok(())
    } else {
        Err(AppError::Forbidden)
    }
}

/// A request header as the server reads it: missing, present but not
/// visible ASCII, or present with its text.
#[derive(Debug, Clone)]
pub enum HeaderField {
    Absent,
    Invalid,
    Text(String),
}

/// The request headers that authentication reads.
#[derive(Debug, Clone)]
pub struct RequestHeaders {
    pub authorization: HeaderField,
    pub x_api_key: HeaderField,
    pub x_service_id: HeaderField,
}

/// The bearer scheme prefix.
pub open spec fn bearer_prefix() -> Seq<char> {
    "Bearer "@
}

/// Whether `s` starts with `p`.
pub open spec fn starts_with(s: Seq<char>, p: Seq<char>) -> bool {
    p.len() <= s.len() && s.take(p.len() as int) == p
}

/// Splits "Bearer <token>" into the trimmed token.
fn bearer_token_of(text: &String) -> (res: Option<String>)
    ensures
        res is Some <==> starts_with(text@, bearer_prefix()),
        res matches Some(t) ==> t@ == trim(text@.skip(7)),
{
    proof {
        reveal_strlit("Bearer ");
    }
    let chars = str_chars(text.as_str());
    let prefix = str_chars("Bearer ");
    if chars.len() < 7 {
        return None;
    }
    let mut i: usize = 0;
    while i < 7
        invariant
            chars@ == text@,
            prefix@ == bearer_prefix(),
            prefix@.len() == 7,
            7 <= chars@.len(),
            i <= 7,
            forall|k: int| 0 <= k < i ==> chars@[k] == prefix@[k],
        decreases 7 - i,
    {
        if chars[i] != prefix[i] {
            assert(text@.take(7)[i as int] != bearer_prefix()[i as int]);
            return None;
        }
        i = i + 1;
    }
    assert(text@.take(7) =~= bearer_prefix());
    let mut rest = String::new();
    let mut j: usize = 7;
    while j < chars.len()
        invariant
            chars@ == text@,
            7 <= j <= chars@.len(),
            rest@ == chars@.subrange(7, j as int),
        decreases chars@.len() - j,
    {
        push_char(&mut rest, chars[j]);
        j = j + 1;
        assert(rest@ =~= chars@.subrange(7, j as int));
    }
    assert(rest@ =~= text@.skip(7));
    let t = str_trim(rest.as_str());
    Some(String::from_str(t))
}

/// The client key in an `Authorization` header: the trimmed text after
/// "Bearer ", when it is not empty.
pub open spec fn bearer_token(h: HeaderField) -> Option<Seq<char>> {
    match h {
        HeaderField::Text(t) => if starts_with(t@, bearer_prefix()) && trim(t@.skip(7)).len() > 0 {
            Some(trim(t@.skip(7)))
        } else {
            None
        },
        _ => None,
    }
}

/// Why an `Authorization` header yields no client key.
pub open spec fn bearer_error(h: HeaderField) -> Seq<char> {
    match h {
        HeaderField::Absent => "缺少 Authorization header"@,
        HeaderField::Invalid => "无效的 Authorization header"@,
        HeaderField::Text(t) => if !starts_with(t@, bearer_prefix()) {
            "Authorization header 格式错误，应为: Bearer <api_key>"@
        } else {
            "API Key 不能为空"@
        },
    }
}

/// Reads the client API key from `Authorization: Bearer <key>`.
pub fn extract_bearer_token(headers: &RequestHeaders) -> (res: Result<String, AppError>)
    ensures
        match bearer_token(headers.authorization) {
            Some(t) => res matches Ok(k) && k@ == t,
            None => is_auth_error(res, bearer_error(headers.authorization)),
        },
{
    match &headers.authorization {
        HeaderField::Absent => Err(AppError::Auth(String::from_str("缺少 Authorization header"))),
        HeaderField::Invalid => Err(AppError::Auth(String::from_str("无效的 Authorization header"))),
        HeaderField::Text(h) => match bearer_token_of(h) {
            None => Err(
                AppError::Auth(
                    String::from_str("Authorization header 格式错误，应为: Bearer <api_key>"),
                ),
            ),
            Some(t) => {
                if t.as_str().is_empty() {
                    Err(AppError::Auth(String::from_str("API Key 不能为空")))
                } else {
                    Ok(t)
                }
            },
        },
    }
}

/// The key that `extract_api_key` finds: `X-API-Key` when it is readable
/// (even empty), else a non-empty bearer token.
pub open spec fn api_key_of(headers: RequestHeaders) -> Option<Seq<char>> {
    match headers.x_api_key {
        HeaderField::Text(k) => Some(k@),
        _ => bearer_token(headers.authorization),
    }
}

/// Reads the agent API key: `X-API-Key` first, else `Authorization:
/// Bearer <key>`.
pub fn extract_api_key(headers: &RequestHeaders) -> (res: Option<String>)
    ensures
        opt_seq(res) == api_key_of(*headers),
{
    match &headers.x_api_key {
        HeaderField::Text(k) => {
            return Some(k.clone());
        },
        _ => {},
    }
    match &headers.authorization {
        HeaderField::Text(h) => match bearer_token_of(h) {
            Some(t) => {
                if t.as_str().is_empty() {
                    None
                } else {
                    Some(t)
                }
            },
            None => None,
        },
        _ => None,
    }
}

/// The text of an optional string.
pub open spec fn opt_seq(o: Option<String>) -> Option<Seq<char>> {
    match o {
        Some(s) => Some(s@),
        None => None,
    }
}

/// Whether `res` failed with `AppError::Auth(msg)`.
pub open spec fn is_auth_error<T>(res: Result<T, AppError>, msg: Seq<char>) -> bool {
    res matches Err(AppError::Auth(m)) && m@ == msg
}

/// The agent's service id and key in the headers, or why they are not
/// there; `missing_key` is the message when no key is found.
pub open spec fn service_headers_spec(headers: RequestHeaders, missing_key: Seq<char>) -> Result<
    (Seq<char>, Seq<char>),
    Seq<char>,
> {
    match headers.x_service_id {
        HeaderField::Absent => Err("缺少 X-Service-ID header"@),
        HeaderField::Invalid => Err("无效的 X-Service-ID header"@),
        HeaderField::Text(sid) => if sid@.len() == 0 {
            Err("X-Service-ID 不能为空"@)
        } else {
            match api_key_of(headers) {
                None => Err(missing_key),
                Some(k) => if k.len() == 0 {
                    Err("API Key 不能为空"@)
                } else {
                    Ok((sid@, k))
                },
            }
        },
    }
}

/// Whether `res` is the outcome `expected`: the same pair of texts, or an
/// authentication error with the expected message.
pub open spec fn pair_outcome(
    res: Result<(String, String), AppError>,
    expected: Result<(Seq<char>, Seq<char>), Seq<char>>,
) -> bool {
    match expected {
        Ok(p) => res matches Ok(r) && r.0@ == p.0 && r.1@ == p.1,
        Err(msg) => is_auth_error(res, msg),
    }
}

fn service_headers(headers: &RequestHeaders, missing_key: &str) -> (res: Result<
    (String, String),
    AppError,
>)
    ensures
        pair_outcome(res, service_headers_spec(*headers, missing_key@)),
{
    let service_id = match &headers.x_service_id {
        HeaderField::Absent => {
            return Err(AppError::Auth(String::from_str("缺少 X-Service-ID header")));
        },
        HeaderField::Invalid => {
            return Err(AppError::Auth(String::from_str("无效的 X-Service-ID header")));
        },
        HeaderField::Text(s) => s.clone(),
    };
    if service_id.as_str().is_empty() {
        return Err(AppError::Auth(String::from_str("X-Service-ID 不能为空")));
    }
    let api_key = match extract_api_key(headers) {
        Some(k) => k,
        None => {
            return Err(AppError::Auth(String::from_str(missing_key)));
        },
    };
    if api_key.as_str().is_empty() {
        return Err(AppError::Auth(String::from_str("API Key 不能为空")));
    }
    Ok((service_id, api_key))
}

/// Reads the agent's service id (`X-Service-ID`) and API key.
pub fn extract_service_headers(headers: &RequestHeaders) -> (res: Result<(String, String), AppError>)
    ensures
        pair_outcome(res, service_headers_spec(*headers, "缺少 X-API-Key 或 Authorization header"@)),
{
    service_headers(headers, "缺少 X-API-Key 或 Authorization header")
}

/// Whether `res` failed with `AppError::Internal(msg)`.
pub open spec fn is_internal_error<T>(res: Result<T, AppError>, msg: Seq<char>) -> bool {
    res matches Err(AppError::Internal(m)) && m@ == msg
}

/// First step of client authentication: the bearer key is read and hashed
/// with the server secret, ready to be looked up among the users.
pub fn require_auth(headers: &RequestHeaders, secret_key: Option<&str>) -> (res: Result<
    String,
    AppError,
>)
    ensures
        match bearer_token(headers.authorization) {
            None => is_auth_error(res, bearer_error(headers.authorization)),
            Some(t) => match secret_key {
                None => is_internal_error(res, "Secret key not configured"@),
                Some(k) => res matches Ok(h) && h@ == api_key_hash(
                    vstd::utf8::encode_utf8(k@),
                    vstd::utf8::encode_utf8(t),
                ),
            },
        },
{
    let token = extract_bearer_token(headers)?;
    match secret_key {
        None => Err(AppError::Internal(String::from_str("Secret key not configured"))),
        Some(k) => Ok(hash_api_key(k, token.as_str())),
    }
}

/// A refused authentication: the error to answer with and the audit event
/// to log.
#[derive(Debug)]
pub struct AuthFailure {
    pub error: AppError,
    pub audit: AuditEvent,
}

/// Whether `res` refused with `AppError::Auth(msg)` and an audit event of
/// kind `kind` that names `identifier` and gives `msg` as the reason.
pub open spec fn refused<T>(
    res: Result<T, AuthFailure>,
    msg: Seq<char>,
    kind: Seq<char>,
    identifier: Seq<char>,
) -> bool {
    match res {
        Err(f) => {
            &&& f.error matches AppError::Auth(m) && m@ == msg
            &&& f.audit.event@ == "auth_failure"@
            &&& f.audit.fields@.len() == 4
            &&& f.audit.fields@[0].1@ == kind
            &&& f.audit.fields@[1].1@ == identifier
            &&& f.audit.fields@[3].1@ == msg
        },
        Ok(_) => false,
    }
}

/// A users row as authentication reads it: id, stored key hash, role.
#[derive(Debug, Clone)]
pub struct UserKeyRow {
    pub id: String,
    pub api_key: String,
    pub role: String,
}

/// The first `n` characters of `s` (all of it when shorter).
pub fn prefix_chars(s: &str, n: usize) -> (res: String)
    ensures
        res@ == if s@.len() <= n { s@ } else { s@.take(n as int) },
{
    let chars = str_chars(s);
    let m = if chars.len() < n { chars.len() } else { n };
    let mut res = String::new();
    let mut i: usize = 0;
    while i < m
        invariant
            chars@ == s@,
            m <= chars@.len(),
            m == (if chars@.len() < n { chars@.len() } else { n as nat }),
            i <= m,
            res@ == chars@.take(i as int),
        decreases m - i,
    {
        push_char(&mut res, chars[i]);
        i = i + 1;
        assert(res@ =~= chars@.take(i as int));
    }
    assert(s@.len() <= n ==> chars@.take(m as int) =~= s@);
    res
}

/// Second step of client authentication. `row` is the user whose stored key
/// equals the hash of `api_key`, if any: it is the authenticated user;
/// without one the key is refused, and the audit event names the first 16
/// hex digits of the hash.
pub fn verify_client_api_key(
    secret_key: &str,
    api_key: &str,
    row: Option<UserKeyRow>,
    client_ip: Option<&str>,
) -> (res: Result<AuthUser, AuthFailure>)
    ensures
        row matches Some(r) ==> res matches Ok(u) && u.user_id == r.id && u.api_key == r.api_key
            && u.role == r.role,
        row is None ==> refused(
            res,
            "无效的 API Key"@,
            "client"@,
            api_key_hash(vstd::utf8::encode_utf8(secret_key@), vstd::utf8::encode_utf8(api_key@)).take(
                16,
            ),
        ),
{
    match row {
        Some(r) => Ok(AuthUser { user_id: r.id, api_key: r.api_key, role: r.role }),
        None => {
            let hashed = hash_api_key(secret_key, api_key);
            let identifier = prefix_chars(hashed.as_str(), 16);
            let audit = log_auth_failure("client", identifier.as_str(), client_ip, "无效的 API Key");
            Err(
                AuthFailure {
                    error: AppError::Auth(String::from_str("无效的 API Key")),
                    audit,
                },
            )
        },
    }
}

/// Checks an agent's key against the key hash stored for its service
/// (`stored` is `None` when the service does not exist).
pub fn verify_agent_credentials(
    secret_key: &str,
    service_id: &str,
    api_key: &str,
    stored: Option<String>,
    client_ip: Option<&str>,
) -> (res: Result<(), AuthFailure>)
    ensures
        stored matches Some(h) ==> (res is Ok <==> h@ == api_key_hash(
            vstd::utf8::encode_utf8(secret_key@),
            vstd::utf8::encode_utf8(api_key@),
        )),
        stored is Some && res is Err ==> refused(res, "API Key 无效"@, "agent"@, service_id@),
        stored is None ==> refused(res, "服务不存在"@, "agent"@, service_id@),
{
    match stored {
        Some(h) => {
            let hashed = hash_api_key(secret_key, api_key);
            if h == hashed {
                Ok(())
            } else {
                let audit = log_auth_failure("agent", service_id, client_ip, "API Key 无效");
                Err(AuthFailure { error: AppError::Auth(String::from_str("API Key 无效")), audit })
            }
        },
        None => {
            let audit = log_auth_failure("agent", service_id, client_ip, "服务不存在");
            Err(AuthFailure { error: AppError::Auth(String::from_str("服务不存在")), audit })
        },
    }
}

/// First step of agent authentication: service id and key are read from the
/// headers, and the server secret must be configured. The service's stored
/// key is then checked with `verify_agent_credentials`.
pub fn agent_auth_middleware(headers: &RequestHeaders, secret_key: Option<&str>) -> (res: Result<
    (String, String),
    AppError,
>)
    ensures
        match service_headers_spec(*headers, "缺少 X-API-Key 或 Authorization: Bearer header"@) {
            Err(msg) => is_auth_error(res, msg),
            Ok(p) => if secret_key is None {
                is_internal_error(res, "Secret key not configured"@)
            } else {
                res matches Ok(r) && r.0@ == p.0 && r.1@ == p.1
            },
        },
{
    let r = service_headers(headers, "缺少 X-API-Key 或 Authorization: Bearer header")?;
    if secret_key.is_none() {
        return Err(AppError::Internal(String::from_str("Secret key not configured")));
    }
    Ok(r)
}

} // verus!
