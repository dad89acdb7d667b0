//! The JSON text that the server writes itself.

use vstd::prelude::*;
use crate::auth::hex_digit;

verus! {

/// How `serde_json` writes one character inside a string literal: quote,
/// backslash and control characters are escaped, everything else is kept.
pub open spec fn json_escape(c: char) -> Seq<char> {
    let v = c as u32;
    if c == '"' {
        seq!['\\', '"']
    } else if c == '\\' {
        seq!['\\', '\\']
    } else if v == 0x08 {
        seq!['\\', 'b']
    } else if v == 0x09 {
        seq!['\\', 't']
    } else if v == 0x0a {
        seq!['\\', 'n']
    } else if v == 0x0c {
        seq!['\\', 'f']
    } else if v == 0x0d {
        seq!['\\', 'r']
    } else if v < 0x20 {
        seq!['\\', 'u', '0', '0', hex_digit(v as int / 16), hex_digit(v as int % 16)]
    } else {
        seq![c]
    }
}

/// The escaped characters of `s`.
pub open spec fn json_escaped(s: Seq<char>) -> Seq<char>
    decreases s.len(),
{
    if s.len() == 0 {
        Seq::empty()
    } else {
        json_escape(s[0]) + json_escaped(s.drop_first())
    }
}

/// A JSON string literal holding `s`.
pub open spec fn json_string(s: Seq<char>) -> Seq<char> {
    seq!['"'] + json_escaped(s) + seq!['"']
}

/// `serde_json::to_string(&str)`: the JSON string literal of `s`. Writing a
/// string never fails, so the result is always there.
#[verifier::external_body]
pub(crate) fn json_quote(s: &str) -> (res: String)
    ensures
        res@ == json_string(s@),
{
    serde_json::to_string(s).unwrap_or_default()
}

/// A JSON array of string literals, without spaces.
pub open spec fn json_string_array(items: Seq<Seq<char>>) -> Seq<char> {
    seq!['['] + json_list(items) + seq![']']
}

/// String literals separated by commas.
pub open spec fn json_list(items: Seq<Seq<char>>) -> Seq<char>
    decreases items.len(),
{
    if items.len() == 0 {
        Seq::empty()
    } else if items.len() == 1 {
        json_string(items[0])
    } else {
        json_list(items.drop_last()) + seq![','] + json_string(items.last())
    }
}

/// The texts of a list of strings.
pub open spec fn texts(v: Seq<String>) -> Seq<Seq<char>> {
    v.map_values(|s: String| s@)
}

/// Writes a JSON array of string literals.
pub fn json_array(items: &Vec<String>) -> (res: String)
    ensures
        res@ == json_string_array(texts(items@)),
{
    proof {
        reveal_strlit("[");
        reveal_strlit(",");
        reveal_strlit("]");
        assert(texts(items@.take(0)).len() == 0);
    }
    let mut res = String::from_str("[");
    assert(res@ =~= seq!['['] + json_list(texts(items@.take(0))));
    let mut i: usize = 0;
    while i < items.len()
        invariant
            i <= items@.len(),
            res@ == seq!['['] + json_list(texts(items@.take(i as int))),
        decreases items@.len() - i,
    {
        let ghost prev = res@;
        let q = json_quote(items[i].as_str());
        if i > 0 {
            res.append(",");
        }
        res.append(q.as_str());
        proof {
            reveal_strlit(",");
            let t = texts(items@.take(i + 1));
            assert(t.drop_last() =~= texts(items@.take(i as int)));
            assert(t.last() == items@[i as int]@);
            if i == 0 {
                assert(t.len() == 1);
                assert(json_list(t) == json_string(t[0]));
                assert(json_list(texts(items@.take(0))) =~= Seq::<char>::empty());
                assert(prev =~= seq!['[']);
                assert(t[0] == items@[0]@);
                assert(q@ == json_string(items@[i as int]@));
                assert(q@ == json_string(t[0]));
                assert(res@ =~= prev + q@);
                assert(res@ == prev + json_list(t));
            } else {
                assert(json_list(t) == json_list(t.drop_last()) + seq![','] + json_string(t.last()));
                assert(q@ == json_string(t.last()));
                assert(res@ =~= prev + seq![','] + q@);
                assert(res@ =~= seq!['['] + json_list(t));
            }
        }
        i = i + 1;
        assert(res@ =~= seq!['['] + json_list(texts(items@.take(i as int))));
    }
    proof {
        reveal_strlit("]");
    }
    res.append("]");
    assert(items@.take(items@.len() as int) =~= items@);
    assert(res@ =~= json_string_array(texts(items@)));
    res
}

/// The stored input document of a task: its prompts and the ids of its
/// input files, keys in sorted order and without spaces (as `serde_json`
/// writes an object).
pub open spec fn task_input_document(
    task_prompt: Seq<char>,
    output_prompt: Seq<char>,
    file_ids: Seq<Seq<char>>,
) -> Seq<char> {
    "{\"input_files\":"@ + json_string_array(file_ids) + ",\"output_prompt\":"@ + json_string(
        output_prompt,
    ) + ",\"task_prompt\":"@ + json_string(task_prompt) + "}"@
}

/// Writes the input document of a task.
pub fn task_input_json(task_prompt: &str, output_prompt: &str, file_ids: &Vec<String>) -> (res:
    String)
    ensures
        res@ == task_input_document(task_prompt@, output_prompt@, texts(file_ids@)),
{
    let mut res = String::from_str("{\"input_files\":");
    res.append(json_array(file_ids).as_str());
    res.append(",\"output_prompt\":");
    res.append(json_quote(output_prompt).as_str());
    res.append(",\"task_prompt\":");
    res.append(json_quote(task_prompt).as_str());
    res.append("}");
    res
}

/// A member of a JSON object: its key, and the JSON text of its value.
#[derive(Debug, Clone)]
pub struct JsonMember {
    pub key: String,
    pub value: String,
}

/// The key and value text of each member.
pub open spec fn member_views(ms: Seq<JsonMember>) -> Seq<(Seq<char>, Seq<char>)> {
    ms.map_values(|m: JsonMember| (m.key@, m.value@))
}

/// One member as written without spaces: the quoted key, ':' and the value.
pub open spec fn member_text(m: (Seq<char>, Seq<char>)) -> Seq<char> {
    json_string(m.0) + seq![':'] + m.1
}

/// Members separated by commas.
pub open spec fn members_text(ms: Seq<(Seq<char>, Seq<char>)>) -> Seq<char>
    decreases ms.len(),
{
    if ms.len() == 0 {
        Seq::empty()
    } else if ms.len() == 1 {
        member_text(ms[0])
    } else {
        members_text(ms.drop_last()) + seq![','] + member_text(ms.last())
    }
}

/// A JSON object with these members, in this order, without spaces (as
/// `serde_json` writes one).
pub open spec fn object_text(ms: Seq<(Seq<char>, Seq<char>)>) -> Seq<char> {
    seq!['{'] + members_text(ms) + seq!['}']
}

/// Writes a JSON object from its members.
pub fn object_json(ms: &Vec<JsonMember>) -> (res: String)
    ensures
        res@ == object_text(member_views(ms@)),
{
    proof {
        reveal_strlit("{");
        reveal_strlit(",");
        reveal_strlit(":");
        reveal_strlit("}");
        assert(member_views(ms@.take(0)).len() == 0);
    }
    let mut res = String::from_str("{");
    assert(res@ =~= seq!['{'] + members_text(member_views(ms@.take(0))));
    let mut i: usize = 0;
    while i < ms.len()
        invariant
            i <= ms@.len(),
            res@ == seq!['{'] + members_text(member_views(ms@.take(i as int))),
        decreases ms@.len() - i,
    {
        let ghost prev = res@;
        let mut m = json_quote(ms[i].key.as_str());
        m.append(":");
        m.append(ms[i].value.as_str());
        if i > 0 {
            res.append(",");
        }
        res.append(m.as_str());
        proof {
            reveal_strlit(",");
            reveal_strlit(":");
            let t = member_views(ms@.take(i + 1));
            assert(t.drop_last() =~= member_views(ms@.take(i as int)));
            assert(t.last() == (ms@[i as int].key@, ms@[i as int].value@));
            assert(m@ =~= member_text(t.last()));
            if i == 0 {
                assert(t.len() == 1);
                assert(members_text(t) == member_text(t[0]));
                assert(members_text(member_views(ms@.take(0))) =~= Seq::<char>::empty());
                assert(prev =~= seq!['{']);
                assert(res@ =~= prev + m@);
                assert(res@ == prev + members_text(t));
            } else {
                assert(members_text(t) == members_text(t.drop_last()) + seq![','] + member_text(t.last()));
                assert(res@ =~= prev + seq![','] + m@);
                assert(res@ =~= seq!['{'] + members_text(t));
            }
        }
        i = i + 1;
        assert(res@ =~= seq!['{'] + members_text(member_views(ms@.take(i as int))));
    }
    res.append("}");
    assert(ms@.take(ms@.len() as int) =~= ms@);
    assert(res@ =~= object_text(member_views(ms@)));
    res
}

/// Whether text `a` sorts before text `b`, character by character (the
/// order of `String`, since UTF-8 keeps the order of code points).
pub open spec fn text_less(a: Seq<char>, b: Seq<char>) -> bool
    decreases a.len(),
{
    if a.len() == 0 {
        b.len() > 0
    } else if b.len() == 0 {
        false
    } else if a[0] != b[0] {
        (a[0] as u32) < (b[0] as u32)
    } else {
        text_less(a.drop_first(), b.drop_first())
    }
}

/// Where a member with `key` goes among `ms`: before the first member whose
/// key sorts after it (at the end when there is none).
pub open spec fn insert_pos(ms: Seq<(Seq<char>, Seq<char>)>, key: Seq<char>) -> int
    decreases ms.len(),
{
    if ms.len() == 0 {
        0
    } else if text_less(key, ms[0].0) {
        0
    } else {
        1 + insert_pos(ms.drop_first(), key)
    }
}

/// The members with `key` set to `value`: a member with that key takes the
/// new value in its place; without one, the member goes where its key sorts
/// (`serde_json` keeps the members of an object sorted by key).
pub open spec fn with_member(ms: Seq<(Seq<char>, Seq<char>)>, key: Seq<char>, value: Seq<char>) -> Seq<(Seq<char>, Seq<char>)> {
    let updated = ms.map_values(
        |m: (Seq<char>, Seq<char>)|
            if m.0 == key {
                (key, value)
            } else {
                m
            },
    );
    if exists|i: int| 0 <= i < ms.len() && #[trigger] ms[i].0 == key {
        updated
    } else {
        ms.insert(insert_pos(ms, key), (key, value))
    }
}

proof fn lemma_insert_pos(ms: Seq<(Seq<char>, Seq<char>)>, key: Seq<char>, p: int)
    requires
        0 <= p <= ms.len(),
        forall|j: int| 0 <= j < p ==> !text_less(key, #[trigger] ms[j].0),
        p < ms.len() ==> text_less(key, ms[p].0),
    ensures
        insert_pos(ms, key) == p,
    decreases ms.len(),
{
    if ms.len() > 0 && p > 0 {
        assert(!text_less(key, ms[0].0));
        let rest = ms.drop_first();
        assert forall|j: int| 0 <= j < p - 1 implies !text_less(key, #[trigger] rest[j].0) by {
            assert(rest[j] == ms[j + 1]);
        }
        if p - 1 < rest.len() {
            assert(rest[p - 1] == ms[p]);
        }
        lemma_insert_pos(rest, key, p - 1);
    }
}

/// Whether text `a` sorts before text `b`.
pub fn text_before(a: &str, b: &str) -> (res: bool)
    ensures
        res == text_less(a@, b@),
{
    let x = crate::text::str_chars(a);
    let y = crate::text::str_chars(b);
    let mut i: usize = 0;
    assert(a@.skip(0) =~= a@);
    assert(b@.skip(0) =~= b@);
    while i < x.len() && i < y.len()
        invariant
            x@ == a@,
            y@ == b@,
            i <= x@.len(),
            i <= y@.len(),
            text_less(a@, b@) == text_less(a@.skip(i as int), b@.skip(i as int)),
        decreases x@.len() - i,
    {
        let ghost sa = a@.skip(i as int);
        let ghost sb = b@.skip(i as int);
        assert(sa[0] == x@[i as int]);
        assert(sb[0] == y@[i as int]);
        if x[i] != y[i] {
            return (x[i] as u32) < (y[i] as u32);
        }
        assert(sa.drop_first() =~= a@.skip(i + 1));
        assert(sb.drop_first() =~= b@.skip(i + 1));
        i = i + 1;
    }
    assert(a@.skip(i as int).len() == 0 || b@.skip(i as int).len() == 0);
    i == x.len() && i < y.len()
}

/// Sets the member `key` of an object to `value` (see `with_member`).
pub fn set_member(ms: Vec<JsonMember>, key: &str, value: String) -> (res: Vec<JsonMember>)
    ensures
        member_views(res@) == with_member(member_views(ms@), key@, value@),
{
    let ghost mv = member_views(ms@);
    let mut res: Vec<JsonMember> = Vec::new();
    let mut found = false;
    let mut i: usize = 0;
    while i < ms.len()
        invariant
            i <= ms@.len(),
            mv == member_views(ms@),
            res@.len() == i,
            forall|k: int|
                0 <= k < i ==> #[trigger] member_views(res@)[k] == (if mv[k].0 == key@ {
                    (key@, value@)
                } else {
                    mv[k]
                }),
            found == exists|k: int| 0 <= k < i && #[trigger] mv[k].0 == key@,
        decreases ms@.len() - i,
    {
        let ghost before = res@;
        let same = str_eq_json(ms[i].key.as_str(), key);
        let m = if same {
            found = true;
            JsonMember { key: String::from_str(key), value: value.clone() }
        } else {
            JsonMember { key: ms[i].key.clone(), value: ms[i].value.clone() }
        };
        let ghost mk = m.key@;
        let ghost mval = m.value@;
        res.push(m);
        proof {
            assert(mv[i as int] == (ms@[i as int].key@, ms@[i as int].value@));
            assert(res@ == before.push(m));
            if same {
                assert(mk == key@ && mval == value@);
            } else {
                assert(mk == ms@[i as int].key@ && mval == ms@[i as int].value@);
            }
            assert forall|k: int|
                0 <= k < i + 1 implies #[trigger] member_views(res@)[k] == (if mv[k].0 == key@ {
                (key@, value@)
            } else {
                mv[k]
            }) by {
                assert(member_views(res@)[k] == (res@[k].key@, res@[k].value@));
                if k < i {
                    assert(res@[k] == before[k]);
                    assert(member_views(before)[k] == (before[k].key@, before[k].value@));
                }
            }
            if same {
                assert(mv[i as int].0 == key@);
            }
        }
        i = i + 1;
    }
    if !found {
        let ghost before = res@;
        proof {
            assert forall|k: int| 0 <= k < mv.len() implies #[trigger] member_views(before)[k] == mv[k] by {
                assert(mv[k].0 != key@);
            }
            assert(member_views(before) =~= mv);
        }
        let mut p: usize = 0;
        while p < res.len() && !text_before(key, res[p].key.as_str())
            invariant
                p <= res@.len(),
                member_views(res@) == mv,
                forall|j: int| 0 <= j < p ==> !text_less(key@, #[trigger] mv[j].0),
            decreases res@.len() - p,
        {
            assert(mv[p as int] == (res@[p as int].key@, res@[p as int].value@));
            p = p + 1;
        }
        proof {
            if p < res@.len() {
                assert(mv[p as int] == (res@[p as int].key@, res@[p as int].value@));
            }
            lemma_insert_pos(mv, key@, p as int);
        }
        res.insert(p, JsonMember { key: String::from_str(key), value });
        proof {
            assert(member_views(res@) =~= mv.insert(p as int, (key@, value@))) by {
                assert forall|k: int| 0 <= k < res@.len() implies #[trigger] member_views(res@)[k]
                    == mv.insert(p as int, (key@, value@))[k] by {
                    assert(member_views(res@)[k] == (res@[k].key@, res@[k].value@));
                    if k < p {
                        assert(res@[k] == before[k]);
                        assert(member_views(before)[k] == (before[k].key@, before[k].value@));
                    } else if k > p {
                        assert(res@[k] == before[k - 1]);
                        assert(member_views(before)[k - 1] == (before[k - 1].key@, before[k - 1].value@));
                    }
                }
            }
        }
    } else {
        assert(member_views(res@) =~= with_member(mv, key@, value@));
    }
    res
}

fn str_eq_json(a: &str, b: &str) -> (res: bool)
    ensures
        res == (a@ == b@),
{
    crate::text::str_eq(a, b)
}

/// What an agent hands in as the output of a task: an object, by its
/// members, or any other JSON value, by its text.
#[derive(Debug, Clone)]
pub enum ReportedOutput {
    Object(Vec<JsonMember>),
    Other(String),
}

/// The text of a reported output, as `serde_json` writes it.
pub open spec fn output_text(o: ReportedOutput) -> Seq<char> {
    match o {
        ReportedOutput::Object(ms) => object_text(member_views(ms@)),
        ReportedOutput::Other(t) => t@,
    }
}

/// The output stored for a finished task with result files `ids`: without
/// files, the output as it came; with files, an object output gets the
/// member "file_ids" set to the list of ids, a missing output becomes the
/// object holding just that member, and any other output stays as it came.
pub open spec fn merged_output(output: Option<ReportedOutput>, ids: Seq<Seq<char>>) -> Option<Seq<char>> {
    if ids.len() == 0 {
        match output {
            Some(o) => Some(output_text(o)),
            None => None,
        }
    } else {
        match output {
            None => Some(object_text(seq![("file_ids"@, json_string_array(ids))])),
            Some(ReportedOutput::Object(ms)) => Some(
                object_text(with_member(member_views(ms@), "file_ids"@, json_string_array(ids))),
            ),
            Some(ReportedOutput::Other(t)) => Some(t@),
        }
    }
}

/// The output to store for a finished task (see `merged_output`).
pub fn merge_file_ids(output: Option<ReportedOutput>, file_ids: &Vec<String>) -> (res: Option<String>)
    ensures
        crate::auth::opt_seq(res) == merged_output(output, texts(file_ids@)),
{
    if file_ids.len() == 0 {
        return match output {
            Some(ReportedOutput::Object(ms)) => Some(object_json(&ms)),
            Some(ReportedOutput::Other(t)) => Some(t),
            None => None,
        };
    }
    let ids = json_array(file_ids);
    match output {
        None => {
            let ms = vec![JsonMember { key: String::from_str("file_ids"), value: ids }];
            proof {
                assert(member_views(ms@) =~= seq![("file_ids"@, json_string_array(texts(file_ids@)))]);
            }
            Some(object_json(&ms))
        },
        Some(ReportedOutput::Object(ms)) => {
            let merged = set_member(ms, "file_ids", ids);
            Some(object_json(&merged))
        },
        Some(ReportedOutput::Other(t)) => Some(t),
    }
}

} // verus!
