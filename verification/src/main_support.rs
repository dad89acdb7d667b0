//! Start-up helpers: where the database and the pidfile live, which secrets
//! must be generated, and how the answers typed at a prompt are read.

use vstd::prelude::*;
use crate::auth::{opt_seq, starts_with};
use crate::ids::{is_simple_uuid, new_v4_simple_string};
use crate::paths::{is_absolute, path_is_absolute, path_join, path_parent, spec_path_join, spec_path_parent};
use crate::text::{blank, chars_start_with, concat, str_chars, str_eq, str_trim, string_of_chars, trim};

verus! {

/// A character that ends the path part of a URL.
pub open spec fn is_url_sep(c: char) -> bool {
    c == '?' || c == '#'
}

/// `n` is where the query or fragment of `s` begins: at its first '?' or
/// '#', or at its end when it has neither.
pub open spec fn query_start(s: Seq<char>, n: int) -> bool {
    &&& 0 <= n <= s.len()
    &&& forall|i: int| 0 <= i < n ==> !is_url_sep(#[trigger] s[i])
    &&& n < s.len() ==> is_url_sep(s[n])
}

/// `s` up to its query or fragment.
pub open spec fn before_query(s: Seq<char>) -> Seq<char> {
    s.take(choose|n: int| query_start(s, n))
}

pub proof fn lemma_query_start_unique(s: Seq<char>, a: int, b: int)
    requires
        query_start(s, a),
        query_start(s, b),
    ensures
        a == b,
{
    if a < b {
        assert(!is_url_sep(s[a]));
    }
    if b < a {
        assert(!is_url_sep(s[b]));
    }
}

/// The database file named by a SQLite URL: the text after "sqlite:",
/// without a leading "///", up to the query. `None` for any other URL.
pub open spec fn sqlite_path(url: Seq<char>) -> Option<Seq<char>> {
    if starts_with(url, "sqlite:"@) {
        let rest = url.skip(7);
        let rest = if starts_with(rest, "///"@) {
            rest.skip(3)
        } else {
            rest
        };
        Some(before_query(rest))
    } else {
        None
    }
}

/// The directory that holds the database of a SQLite URL.
pub open spec fn database_dir(url: Seq<char>) -> Option<Seq<char>> {
    match sqlite_path(url) {
        Some(p) => spec_path_parent(p),
        None => None,
    }
}

/// The directory of the SQLite database file named by `url`. A URL with
/// three slashes loses its leading `/` ("sqlite:///var/lib/app.db" gives
/// "var/lib"), which is why absolute paths are written with four.
pub fn database_dir_from_url(url: &str) -> (res: Option<String>)
    ensures
        opt_seq(res) == database_dir(url@),
{
    proof {
        reveal_strlit("sqlite:");
        reveal_strlit("///");
    }
    let chars = str_chars(url);
    if !chars_start_with(&chars, "sqlite:") {
        return None;
    }
    let ghost rest = url@.skip(7);
    let start: usize = if chars.len() >= 10 && chars[7] == '/' && chars[8] == '/' && chars[9]
        == '/' {
        assert(rest.take(3) =~= "///"@);
        10
    } else {
        assert(starts_with(rest, "///"@) ==> rest.take(3)[0] == '/' && rest.take(3)[1] == '/'
            && rest.take(3)[2] == '/');
        7
    };
    let ghost path = url@.skip(start as int);
    assert(path =~= (if starts_with(rest, "///"@) {
        rest.skip(3)
    } else {
        rest
    }));
    let mut n: usize = start;
    while n < chars.len() && chars[n] != '?' && chars[n] != '#'
        invariant
            chars@ == url@,
            start <= n <= chars@.len(),
            path == url@.skip(start as int),
            forall|i: int| start <= i < n ==> !is_url_sep(#[trigger] chars@[i]),
        decreases chars@.len() - n,
    {
        n = n + 1;
    }
    let ghost k: int = n - start;
    assert forall|i: int| 0 <= i < k implies !is_url_sep(#[trigger] path[i]) by {
        assert(path[i] == chars@[start + i]);
    }
    assert(query_start(path, k));
    proof {
        let c = choose|m: int| query_start(path, m);
        lemma_query_start_unique(path, c, k);
    }
    assert(path.take(k) =~= chars@.subrange(start as int, n as int));
    let p = string_of_chars(&chars, start, n);
    path_parent(p.as_str())
}

/// The pidfile: "server.pid" in the database directory, or in "./data"
/// when the URL names none.
pub open spec fn pidfile_of(url: Seq<char>) -> Seq<char> {
    let dir = match database_dir(url) {
        Some(d) => d,
        None => "./data"@,
    };
    spec_path_join(dir, "server.pid"@)
}

/// Where the running server writes its process id, for the database URL
/// `database_url`.
pub fn pidfile_path(database_url: &str) -> (res: String)
    ensures
        res@ == pidfile_of(database_url@),
{
    let dir = match database_dir_from_url(database_url) {
        Some(d) => d,
        None => String::from_str("./data"),
    };
    path_join(dir.as_str(), "server.pid")
}

/// The value that marks a secret which was never set.
pub open spec fn placeholder_secret() -> Seq<char> {
    "change-me-in-production"@
}

/// Whether a secret must be generated: it is missing, blank, or the
/// placeholder (after trimming).
pub open spec fn needs_secret(value: Option<Seq<char>>) -> bool {
    match value {
        Some(s) => blank(s) || trim(s) == placeholder_secret(),
        None => true,
    }
}

/// Whether the configured secret must be replaced by a generated one.
pub fn secret_needs_generation(value: Option<&str>) -> (res: bool)
    ensures
        res == needs_secret(match value {
            Some(s) => Some(s@),
            None => None,
        }),
{
    match value {
        Some(secret) => {
            let trimmed = str_trim(secret);
            trimmed.is_empty() || str_eq(trimmed, "change-me-in-production")
        },
        None => true,
    }
}

/// Whether `value` is empty or whitespace only.
pub fn is_blank(value: &str) -> (res: bool)
    ensures
        res == blank(value@),
{
    str_trim(value).is_empty()
}

/// Whether an optional value is missing, empty or whitespace only.
pub fn is_blank_option(value: Option<&str>) -> (res: bool)
    ensures
        res == match value {
            Some(s) => blank(s@),
            None => true,
        },
{
    match value {
        Some(s) => is_blank(s),
        None => true,
    }
}

/// A fresh secret: two random version-4 UUIDs as 64 hex digits.
pub fn generate_secret() -> (res: String)
    ensures
        res@.len() == 64,
        is_simple_uuid(res@.take(32), '4'),
        is_simple_uuid(res@.skip(32), '4'),
{
    let a = new_v4_simple_string();
    let b = new_v4_simple_string();
    let s = concat(a.as_str(), b.as_str());
    assert(s@.take(32) =~= a@);
    assert(s@.skip(32) =~= b@);
    s
}

/// The two locations that follow from the data directory.
#[derive(Debug, Clone)]
pub struct DataPaths {
    pub database_url: String,
    pub file_storage_path: String,
}

/// The SQLite URL of the database file `db`: "sqlite:///" before an
/// absolute path, "sqlite:" before a relative one.
pub open spec fn sqlite_url(db: Seq<char>) -> Seq<char> {
    if is_absolute(db) {
        "sqlite:///"@ + db
    } else {
        "sqlite:"@ + db
    }
}

/// Places the database ("app.db") and the uploaded files ("files") in
/// `data_dir`.
pub fn apply_server_data_dir(paths: &mut DataPaths, data_dir: &str)
    ensures
        final(paths).database_url@ == sqlite_url(spec_path_join(data_dir@, "app.db"@)),
        final(paths).file_storage_path@ == spec_path_join(data_dir@, "files"@),
{
    let db_path = path_join(data_dir, "app.db");
    let url = if path_is_absolute(db_path.as_str()) {
        concat("sqlite:///", db_path.as_str())
    } else {
        concat("sqlite:", db_path.as_str())
    };
    paths.database_url = url;
    paths.file_storage_path = path_join(data_dir, "files");
}

/// Whether the locations lack a usable data directory: the database URL
/// names no directory, or no file storage path is set.
pub open spec fn needs_data_dir_of(paths: DataPaths) -> bool {
    database_dir(paths.database_url@) is None || blank(paths.file_storage_path@)
}

/// Whether the configuration lacks a usable data directory: its database
/// URL names no directory, or no file storage path is set.
pub fn needs_data_dir(paths: &DataPaths) -> (res: bool)
    ensures
        res == needs_data_dir_of(*paths),
{
    database_dir_from_url(paths.database_url.as_str()).is_none() || is_blank(
        paths.file_storage_path.as_str(),
    )
}

/// Whether an optional value is missing or blank.
pub open spec fn blank_opt(value: Option<Seq<char>>) -> bool {
    match value {
        Some(s) => blank(s),
        None => true,
    }
}

/// The parts of the configuration that start-up settles: the data
/// locations, the signing secret and the administrator's API key.
#[derive(Debug)]
pub struct StartupSettings {
    pub paths: DataPaths,
    pub secret_key: Option<String>,
    pub admin_api_key: Option<String>,
}

fn as_str_opt(value: &Option<String>) -> (res: Option<&str>)
    ensures
        match res {
            Some(s) => value is Some && s@ == value.unwrap()@,
            None => value is None,
        },
{
    match value {
        Some(s) => Some(s.as_str()),
        None => None,
    }
}

/// Settles the configuration on start-up. A configuration without a
/// usable data directory gets `data_dir` (the directory the operator chose)
/// for its database and files; a missing, blank or placeholder secret is
/// replaced by `fresh_secret`; a missing or blank admin key by `admin_key`.
/// The result tells whether anything changed, so that the file is saved.
pub fn settle_startup_config(
    cfg: &mut StartupSettings,
    data_dir: Option<&str>,
    fresh_secret: String,
    admin_key: String,
) -> (changed: bool)
    requires
        needs_data_dir_of(old(cfg).paths) ==> (data_dir matches Some(d) && !blank(d@)),
        !needs_secret(Some(fresh_secret@)),
        !blank(admin_key@),
    ensures
        needs_data_dir_of(old(cfg).paths) ==> {
            &&& final(cfg).paths.database_url@ == sqlite_url(
                spec_path_join(data_dir.unwrap()@, "app.db"@),
            )
            &&& final(cfg).paths.file_storage_path@ == spec_path_join(data_dir.unwrap()@, "files"@)
        },
        !needs_data_dir_of(old(cfg).paths) ==> final(cfg).paths == old(cfg).paths,
        final(cfg).secret_key == (if needs_secret(opt_seq(old(cfg).secret_key)) {
            Some(fresh_secret)
        } else {
            old(cfg).secret_key
        }),
        final(cfg).admin_api_key == (if blank_opt(opt_seq(old(cfg).admin_api_key)) {
            Some(admin_key)
        } else {
            old(cfg).admin_api_key
        }),
        changed == (needs_data_dir_of(old(cfg).paths) || needs_secret(opt_seq(old(cfg).secret_key))
            || blank_opt(opt_seq(old(cfg).admin_api_key))),
        !needs_secret(opt_seq(final(cfg).secret_key)),
        final(cfg).admin_api_key is Some && !blank(final(cfg).admin_api_key.unwrap()@),
{
    let mut changed = false;
    if needs_data_dir(&cfg.paths) {
        let d = data_dir.unwrap();
        apply_server_data_dir(&mut cfg.paths, d);
        changed = true;
    }
    if secret_needs_generation(as_str_opt(&cfg.secret_key)) {
        cfg.secret_key = Some(fresh_secret);
        changed = true;
    }
    if is_blank_option(as_str_opt(&cfg.admin_api_key)) {
        cfg.admin_api_key = Some(admin_key);
        changed = true;
    }
    changed
}

/// The admin key in force: the one from the environment when it is not
/// blank, else the configured one when it is not blank.
pub open spec fn admin_key_in_force(env: Option<Seq<char>>, configured: Option<Seq<char>>) -> Option<
    Seq<char>,
> {
    match env {
        Some(e) if !blank(e) => Some(e),
        _ => match configured {
            Some(c) if !blank(c) => Some(c),
            _ => None,
        },
    }
}

/// Picks the admin API key: `env_value` (from `ADMIN_API_KEY`) wins over
/// `configured` when it is not blank.
pub fn runtime_admin_api_key(env_value: Option<String>, configured: Option<String>) -> (res: Option<
    String,
>)
    ensures
        opt_seq(res) == admin_key_in_force(opt_seq(env_value), opt_seq(configured)),
{
    if let Some(e) = env_value {
        if !is_blank(e.as_str()) {
            return Some(e);
        }
    }
    match configured {
        Some(c) => {
            if is_blank(c.as_str()) {
                None
            } else {
                Some(c)
            }
        },
        None => None,
    }
}

/// A generated admin key: "ak_admin_" and the first 16 hex digits of a
/// fresh secret.
pub fn generate_admin_api_key() -> (res: String)
    ensures
        res@.len() == 25,
        starts_with(res@, "ak_admin_"@),
        forall|i: int| 9 <= i < 25 ==> crate::ids::is_lower_hex(#[trigger] res@[i]),
{
    proof {
        reveal_strlit("ak_admin_");
    }
    let secret = generate_secret();
    let head = crate::auth::prefix_chars(secret.as_str(), 16);
    let res = concat("ak_admin_", head.as_str());
    assert(res@.take(9) =~= "ak_admin_"@);
    assert forall|i: int| 9 <= i < 25 implies crate::ids::is_lower_hex(#[trigger] res@[i]) by {
        assert(res@[i] == secret@.take(32)[i - 9]);
    }
    res
}

/// The answer to a prompt with a default: the trimmed input, or the
/// default when the input is blank.
pub fn answer_or_default(input: &str, default: &str) -> (res: String)
    ensures
        res@ == if blank(input@) {
            default@
        } else {
            trim(input@)
        },
{
    let trimmed = str_trim(input);
    if trimmed.is_empty() {
        String::from_str(default)
    } else {
        String::from_str(trimmed)
    }
}

/// The words that answer yes.
pub open spec fn is_yes(s: Seq<char>) -> bool {
    s == "Y"@ || s == "y"@ || s == "yes"@ || s == "YES"@
}

/// The words that answer no.
pub open spec fn is_no(s: Seq<char>) -> bool {
    s == "N"@ || s == "n"@ || s == "no"@ || s == "NO"@
}

/// The answer to a yes/no prompt, with "Y" or "N" for a blank input.
pub open spec fn yes_no_answer(input: Seq<char>, default_yes: bool) -> Option<bool> {
    let word = if blank(input) {
        if default_yes {
            "Y"@
        } else {
            "N"@
        }
    } else {
        trim(input)
    };
    if is_yes(word) {
        Some(true)
    } else if is_no(word) {
        Some(false)
    } else {
        None
    }
}

/// Reads a yes/no answer; `None` means the prompt must be asked again.
pub fn parse_yes_no(input: &str, default_yes: bool) -> (res: Option<bool>)
    ensures
        res == yes_no_answer(input@, default_yes),
{
    let word = answer_or_default(input, if default_yes {
        "Y"
    } else {
        "N"
    });
    let w = word.as_str();
    if str_eq(w, "Y") || str_eq(w, "y") || str_eq(w, "yes") || str_eq(w, "YES") {
        Some(true)
    } else if str_eq(w, "N") || str_eq(w, "n") || str_eq(w, "no") || str_eq(w, "NO") {
        Some(false)
    } else {
        None
    }
}

/// An ASCII decimal digit.
pub open spec fn is_digit(c: char) -> bool {
    '0' <= c && c <= '9'
}

/// The value of a string of decimal digits.
pub open spec fn digits_value(s: Seq<char>) -> nat
    decreases s.len(),
{
    if s.len() == 0 {
        0
    } else {
        digits_value(s.drop_last()) * 10 + ((s.last() as int) - ('0' as int)) as nat
    }
}

/// The digits of a number's text: the text after an optional leading '+'.
pub open spec fn unsigned_digits(s: Seq<char>) -> Seq<char> {
    if s.len() > 0 && s[0] == '+' {
        s.drop_first()
    } else {
        s
    }
}

/// Whether every character of `d` is a decimal digit.
pub open spec fn all_digits(d: Seq<char>) -> bool {
    forall|i: int| 0 <= i < d.len() ==> is_digit(#[trigger] d[i])
}

/// `u32::from_str`: an optional '+', then one digit or more, of a value
/// that fits in 32 bits.
pub open spec fn u32_of_text(s: Seq<char>) -> Option<u32> {
    let d = unsigned_digits(s);
    if d.len() > 0 && all_digits(d) && digits_value(d) <= u32::MAX {
        Some(digits_value(d) as u32)
    } else {
        None
    }
}

/// The process id in a pidfile's text: the trimmed text as a `u32`, when it
/// is not 0.
pub open spec fn pid_of_text(text: Seq<char>) -> Option<u32> {
    match u32_of_text(trim(text)) {
        Some(p) => if p > 0 {
            Some(p)
        } else {
            None
        },
        None => None,
    }
}

proof fn lemma_digits_value_prefix(s: Seq<char>, i: int)
    requires
        0 <= i <= s.len(),
    ensures
        digits_value(s.take(i)) <= digits_value(s),
    decreases s.len(),
{
    if i < s.len() {
        lemma_digits_value_prefix(s.drop_last(), i);
        assert(s.drop_last().take(i) =~= s.take(i));
    } else {
        assert(s.take(i) =~= s);
    }
}

/// Reads the process id from a pidfile's text; `None` when it is not a
/// positive `u32`.
pub fn parse_pid(text: &str) -> (res: Option<u32>)
    ensures
        res == pid_of_text(text@),
{
    let t = str_trim(text);
    let chars = str_chars(t);
    let ghost s = t@;
    let start: usize = if chars.len() > 0 && chars[0] == '+' {
        1
    } else {
        0
    };
    let ghost d = unsigned_digits(s);
    assert(d =~= s.skip(start as int));
    if start == chars.len() {
        return None;
    }
    let mut value: u64 = 0;
    let mut i: usize = start;
    while i < chars.len()
        invariant
            chars@ == s,
            s == trim(text@),
            d == unsigned_digits(s),
            d == s.skip(start as int),
            start < chars@.len(),
            start <= i <= chars@.len(),
            forall|k: int| 0 <= k < i - start ==> is_digit(#[trigger] d[k]),
            value == digits_value(d.take(i - start)),
            value <= u32::MAX,
        decreases chars@.len() - i,
    {
        let c = chars[i];
        assert(c == d[i - start]);
        if c < '0' || c > '9' {
            assert(!is_digit(d[i - start]));
            assert(!all_digits(d));
            return None;
        }
        let digit = (c as u32 - '0' as u32) as u64;
        assert(d.take(i + 1 - start).drop_last() =~= d.take(i - start));
        let next = value * 10 + digit;
        assert(d.take(i + 1 - start).last() == c);
        assert(digits_value(d.take(i + 1 - start)) == next);
        if next > 4294967295 {
            proof {
                lemma_digits_value_prefix(d, i + 1 - start);
            }
            assert(u32_of_text(s) is None);
            return None;
        }
        value = next;
        i = i + 1;
    }
    assert(d.take(i - start) =~= d);
    if value == 0 {
        None
    } else {
        Some(value as u32)
    }
}

/// What the check for a running server does next.
#[derive(Debug, Clone, Copy, PartialEq, Eq, Structural)]
pub enum RunningCheck {
    /// Probe whether the process with this id runs.
    Probe(u32),
    /// The server runs as this process.
    Running(u32),
    /// The pidfile names no running server: remove it.
    Stale,
}

/// One step of the check for a running server, from the pidfile's `text`
/// and, once the process has been probed, whether it is `alive`. A pidfile
/// that holds no positive process id, or whose process is gone, is stale;
/// only a process found alive counts as running.
pub fn running_step(text: &str, alive: Option<bool>) -> (res: RunningCheck)
    ensures
        res == match pid_of_text(text@) {
            None => RunningCheck::Stale,
            Some(p) => match alive {
                None => RunningCheck::Probe(p),
                Some(true) => RunningCheck::Running(p),
                Some(false) => RunningCheck::Stale,
            },
        },
{
    match parse_pid(text) {
        None => RunningCheck::Stale,
        Some(p) => match alive {
            None => RunningCheck::Probe(p),
            Some(true) => RunningCheck::Running(p),
            Some(false) => RunningCheck::Stale,
        },
    }
}

} // verus!
