//! Audit events: registrations and authentication failures. The functions
//! here build the event; the server writes it to its log.

use vstd::prelude::*;
use crate::auth::{opt_seq, HeaderField};
use crate::text::{push_char, str_chars, str_trim, string_of_chars, trim};

verus! {

/// Severity of an audit event.
#[derive(Debug, Clone, Copy, PartialEq, Eq, Structural)]
pub enum AuditLevel {
    Info,
    Warn,
}

/// An audit event: its kind, its named fields in order, and a message.
#[derive(Debug)]
pub struct AuditEvent {
    pub level: AuditLevel,
    /// Value of the `audit_event` field.
    pub event: String,
    /// The other fields, as (name, value) pairs.
    pub fields: Vec<(String, String)>,
    pub message: String,
}

/// `s` up to its first ','.
pub open spec fn first_field(s: Seq<char>) -> Seq<char>
    decreases s.len(),
{
    if s.len() == 0 {
        s
    } else if s[0] == ',' {
        seq![]
    } else {
        seq![s[0]] + first_field(s.drop_first())
    }
}

proof fn lemma_first_field(s: Seq<char>, k: int)
    requires
        0 <= k <= s.len(),
        forall|i: int| 0 <= i < k ==> s[i] != ',',
        k < s.len() ==> s[k] == ',',
    ensures
        first_field(s) == s.take(k),
    decreases k,
{
    if k == 0 {
        assert(s.take(0) =~= seq![]);
    } else {
        lemma_first_field(s.drop_first(), k - 1);
        assert(s.take(k) =~= seq![s[0]] + s.drop_first().take(k - 1));
    }
}

/// The client address of a request: with `trust_x_forwarded_for`, the
/// leftmost entry of `X-Forwarded-For` (trimmed) when it is not empty;
/// otherwise the address of the connection, if known.
pub open spec fn client_ip_of(xff: HeaderField, trust: bool, peer: Option<Seq<char>>) -> Option<Seq<char>> {
    match xff {
        HeaderField::Text(v) => if trust && trim(first_field(v@)).len() > 0 {
            Some(trim(first_field(v@)))
        } else {
            peer
        },
        _ => peer,
    }
}

/// The address to log for a request. `x_forwarded_for` is its
/// `X-Forwarded-For` header and `peer_ip` the address of the connection.
pub fn extract_client_ip(x_forwarded_for: &HeaderField, trust_x_forwarded_for: bool, peer_ip: Option<String>) -> (res: Option<String>)
    ensures
        opt_seq(res) == client_ip_of(*x_forwarded_for, trust_x_forwarded_for, opt_seq(peer_ip)),
{
    if trust_x_forwarded_for {
        if let HeaderField::Text(v) = x_forwarded_for {
            let chars = str_chars(v.as_str());
            let mut k: usize = 0;
            while k < chars.len() && chars[k] != ','
                invariant
                    chars@ == v@,
                    k <= chars@.len(),
                    forall|i: int| 0 <= i < k ==> chars@[i] != ',',
                decreases chars@.len() - k,
            {
                k = k + 1;
            }
            proof {
                lemma_first_field(v@, k as int);
            }
            assert(chars@.subrange(0, k as int) =~= v@.take(k as int));
            let first = string_of_chars(&chars, 0, k);
            let ip = str_trim(first.as_str());
            if !ip.is_empty() {
                return Some(String::from_str(ip));
            }
        }
    }
    peer_ip
}

/// The client address as logged: the address, or "unknown".
pub open spec fn ip_or_unknown(ip: Option<&str>) -> Seq<char> {
    match ip {
        Some(s) => s@,
        None => "unknown"@,
    }
}

fn ip_text(ip: Option<&str>) -> (res: String)
    ensures
        res@ == ip_or_unknown(ip),
{
    match ip {
        Some(s) => String::from_str(s),
        None => String::from_str("unknown"),
    }
}

fn field(name: &str, value: String) -> (res: (String, String))
    ensures
        res.0@ == name@,
        res.1 == value,
{
    (String::from_str(name), value)
}

/// Whether field `i` of `fields` is named `name` and holds `value`.
pub open spec fn has_field(fields: Seq<(String, String)>, i: int, name: Seq<char>, value: Seq<char>) -> bool {
    0 <= i < fields.len() && fields[i].0@ == name && fields[i].1@ == value
}

/// Audit event of a client registration request.
pub fn log_client_register(name: &str, ip: Option<&str>) -> (res: AuditEvent)
    ensures
        res.level == AuditLevel::Info,
        res.event@ == "client_register"@,
        res.fields@.len() == 2,
        has_field(res.fields@, 0, "name"@, name@),
        has_field(res.fields@, 1, "client_ip"@, ip_or_unknown(ip)),
        res.message@ == "Client 注册请求"@,
{
    let mut fields: Vec<(String, String)> = Vec::new();
    fields.push(field("name", String::from_str(name)));
    fields.push(field("client_ip", ip_text(ip)));
    AuditEvent {
        level: AuditLevel::Info,
        event: String::from_str("client_register"),
        fields,
        message: String::from_str("Client 注册请求"),
    }
}

/// The three dots that stand for the hidden part of a token.
pub open spec fn dots() -> Seq<char> {
    seq!['.', '.', '.']
}

/// A token with its middle hidden: up to 2 characters show nothing, up to 8
/// show the first and last character, up to 12 the first and last two, and
/// longer ones the first and last four.
pub open spec fn masked(t: Seq<char>) -> Seq<char> {
    let n = t.len();
    if n <= 2 {
        dots()
    } else if n <= 8 {
        t.take(1) + dots() + t.skip(n - 1)
    } else if n <= 12 {
        t.take(2) + dots() + t.skip(n - 2)
    } else {
        t.take(4) + dots() + t.skip(n - 4)
    }
}

/// Hides the middle of a sensitive token, by characters (never splitting a
/// multi-byte character).
pub fn mask_token(token: &str) -> (res: String)
    ensures
        res@ == masked(token@),
{
    let chars = str_chars(token);
    let n = chars.len();
    let keep: usize = if n <= 2 {
        0
    } else if n <= 8 {
        1
    } else if n <= 12 {
        2
    } else {
        4
    };
    let mut res = String::new();
    let mut i: usize = 0;
    while i < keep
        invariant
            chars@ == token@,
            n == chars@.len(),
            keep <= 4,
            keep > 0 ==> keep < n,
            i <= keep,
            res@ == chars@.take(i as int),
        decreases keep - i,
    {
        push_char(&mut res, chars[i]);
        i = i + 1;
        assert(res@ =~= chars@.take(i as int));
    }
    push_char(&mut res, '.');
    push_char(&mut res, '.');
    push_char(&mut res, '.');
    assert(res@ =~= chars@.take(keep as int) + dots());
    let mut j: usize = n - keep;
    while j < n
        invariant
            chars@ == token@,
            n == chars@.len(),
            keep <= n,
            n - keep <= j <= n,
            res@ == chars@.take(keep as int) + dots() + chars@.subrange(n - keep, j as int),
        decreases n - j,
    {
        push_char(&mut res, chars[j]);
        j = j + 1;
        assert(res@ =~= chars@.take(keep as int) + dots() + chars@.subrange(n - keep, j as int));
    }
    assert(chars@.subrange(n - keep, n as int) =~= chars@.skip(n - keep));
    proof {
        if n <= 2 {
            assert(chars@.take(0) + dots() + chars@.skip(n as int) =~= dots());
        }
    }
    res
}

/// Audit event of an agent registration request; the registration token is
/// masked.
pub fn log_agent_register(registration_token: &str, ip: Option<&str>) -> (res: AuditEvent)
    ensures
        res.level == AuditLevel::Info,
        res.event@ == "agent_register"@,
        res.fields@.len() == 2,
        has_field(res.fields@, 0, "registration_token"@, masked(registration_token@)),
        has_field(res.fields@, 1, "client_ip"@, ip_or_unknown(ip)),
        res.message@ == "Agent 注册请求"@,
{
    let mut fields: Vec<(String, String)> = Vec::new();
    fields.push(field("registration_token", mask_token(registration_token)));
    fields.push(field("client_ip", ip_text(ip)));
    AuditEvent {
        level: AuditLevel::Info,
        event: String::from_str("agent_register"),
        fields,
        message: String::from_str("Agent 注册请求"),
    }
}

/// Audit event of a failed authentication. `identifier` is an identifier
/// that reveals no secret (a key hash prefix or a service id).
pub fn log_auth_failure(kind: &str, identifier: &str, ip: Option<&str>, reason: &str) -> (res: AuditEvent)
    ensures
        res.level == AuditLevel::Warn,
        res.event@ == "auth_failure"@,
        res.fields@.len() == 4,
        has_field(res.fields@, 0, "kind"@, kind@),
        has_field(res.fields@, 1, "identifier"@, identifier@),
        has_field(res.fields@, 2, "client_ip"@, ip_or_unknown(ip)),
        has_field(res.fields@, 3, "reason"@, reason@),
        res.message@ == "认证失败"@,
{
    let mut fields: Vec<(String, String)> = Vec::new();
    fields.push(field("kind", String::from_str(kind)));
    fields.push(field("identifier", String::from_str(identifier)));
    fields.push(field("client_ip", ip_text(ip)));
    fields.push(field("reason", String::from_str(reason)));
    AuditEvent {
        level: AuditLevel::Warn,
        event: String::from_str("auth_failure"),
        fields,
        message: String::from_str("认证失败"),
    }
}

} // verus!
