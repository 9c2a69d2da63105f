//! A plain model of JSON documents, lookup along the fixed transcript path,
//! and the trusted bridge to the outside JSON parser.

use vstd::prelude::*;

verus! {

/// A JSON document, held as plain values. Numbers keep only their textual
/// form: nothing in this library reads a numeric value.
pub enum Json {
    Null,
    Bool(bool),
    Num(String),
    Str(String),
    Arr(Vec<Json>),
    Obj(Vec<(String, Json)>),
}

/// The value under `key` in an entry list: the first entry whose key matches.
pub open spec fn lookup_spec(entries: Seq<(String, Json)>, key: Seq<char>) -> Option<Json>
    decreases entries.len(),
{
    if entries.len() == 0 {
        None
    } else if entries[0].0@ == key {
        Some(entries[0].1)
    } else {
        lookup_spec(entries.drop_first(), key)
    }
}

/// The value under `key` when `j` is an object holding that key.
pub open spec fn member(j: Json, key: Seq<char>) -> Option<Json> {
    match j {
        Json::Obj(entries) => lookup_spec(entries@, key),
        _ => None,
    }
}

/// The `i`-th element when `j` is an array long enough.
pub open spec fn element(j: Json, i: int) -> Option<Json> {
    match j {
        Json::Arr(items) => if 0 <= i < items@.len() {
            Some(items@[i])
        } else {
            None
        },
        _ => None,
    }
}

/// Member lookup lifted over absence: absence stays absence.
pub open spec fn opt_member(o: Option<Json>, key: Seq<char>) -> Option<Json> {
    match o {
        Some(j) => member(j, key),
        None => None,
    }
}

/// Indexing lifted over absence: absence stays absence.
pub open spec fn opt_element(o: Option<Json>, i: int) -> Option<Json> {
    match o {
        Some(j) => element(j, i),
        None => None,
    }
}

/// The node at the fixed path
/// `results` -> `channels` -> index 0 -> `alternatives` -> index 0 -> `transcript`.
pub open spec fn transcript_node(j: Json) -> Option<Json> {
    opt_member(
        opt_element(opt_member(opt_element(opt_member(member(j, "results"@), "channels"@), 0),
                "alternatives"@), 0),
        "transcript"@,
    )
}

/// The usable transcript in `j`: the string at the fixed path, provided the
/// path is fully present, ends at a string, and that string is non-empty.
pub open spec fn transcript_of(j: Json) -> Option<Seq<char>> {
    match transcript_node(j) {
        Some(node) => match node {
            Json::Str(s) => if s@.len() > 0 {
                Some(s@)
            } else {
                None
            },
            _ => None,
        },
        None => None,
    }
}

/// Entries without a match in front do not change the lookup.
proof fn lemma_lookup_skip(entries: Seq<(String, Json)>, key: Seq<char>, i: int)
    requires
        0 <= i <= entries.len(),
        forall|k: int| 0 <= k < i ==> #[trigger] entries[k].0@ != key,
    ensures
        lookup_spec(entries, key) == lookup_spec(
            entries.subrange(i, entries.len() as int),
            key,
        ),
    decreases i,
{
    if i == 0 {
        assert(entries.subrange(0, entries.len() as int) =~= entries);
    } else {
        let t = entries.drop_first();
        assert(t =~= entries.subrange(1, entries.len() as int));
        lemma_lookup_skip(t, key, i - 1);
        assert(t.subrange(i - 1, t.len() as int) =~= entries.subrange(
            i,
            entries.len() as int,
        ));
    }
}

/// Finds the first entry with the given key.
fn lookup<'a>(entries: &'a Vec<(String, Json)>, key: &String) -> (r: Option<&'a Json>)
    ensures
        match r {
            Some(j) => lookup_spec(entries@, key@) == Some(*j),
            None => lookup_spec(entries@, key@) is None,
        },
{
    let n: usize = entries.len();
    let mut i: usize = 0;
    while i < n
        invariant
            0 <= i <= n,
            n == entries@.len(),
            forall|k: int| 0 <= k < i ==> #[trigger] entries@[k].0@ != key@,
        decreases n - i,
    {
        if entries[i].0 == *key {
            proof {
                lemma_lookup_skip(entries@, key@, i as int);
            }
            return Some(&entries[i].1);
        }
        i = i + 1;
    }
    proof {
        lemma_lookup_skip(entries@, key@, n as int);
    }
    None
}

/// The value under `key` if `j` is an object holding it.
fn member_of<'a>(j: &'a Json, key: &String) -> (r: Option<&'a Json>)
    ensures
        match r {
            Some(x) => member(*j, key@) == Some(*x),
            None => member(*j, key@) is None,
        },
{
    match j {
        Json::Obj(entries) => lookup(entries, key),
        _ => None,
    }
}

/// The `i`-th element if `j` is an array long enough.
fn element_of<'a>(j: &'a Json, i: usize) -> (r: Option<&'a Json>)
    ensures
        match r {
            Some(x) => element(*j, i as int) == Some(*x),
            None => element(*j, i as int) is None,
        },
{
    match j {
        Json::Arr(items) => if i < items.len() {
            Some(&items[i])
        } else {
            None
        },
        _ => None,
    }
}

/// Walks the fixed path and returns the transcript, or `None` when any level
/// is absent, the final value is not a string, or the string is empty.
pub fn extract_transcript(j: &Json) -> (r: Option<String>)
    ensures
        match r {
            Some(s) => transcript_of(*j) == Some(s@),
            None => transcript_of(*j) is None,
        },
{
    let k_results = "results".to_owned();
    let k_channels = "channels".to_owned();
    let k_alternatives = "alternatives".to_owned();
    let k_transcript = "transcript".to_owned();
    let s1 = member_of(j, &k_results);
    let s2 = match s1 {
        Some(x) => member_of(x, &k_channels),
        None => None,
    };
    let s3 = match s2 {
        Some(x) => element_of(x, 0),
        None => None,
    };
    let s4 = match s3 {
        Some(x) => member_of(x, &k_alternatives),
        None => None,
    };
    let s5 = match s4 {
        Some(x) => element_of(x, 0),
        None => None,
    };
    let s6 = match s5 {
        Some(x) => member_of(x, &k_transcript),
        None => None,
    };
    match s6 {
        Some(node) => match node {
            Json::Str(s) => if s.as_str().is_empty() {
                None
            } else {
                Some(s.clone())
            },
            _ => None,
        },
        None => None,
    }
}

/// Declares the outside parser's document type so that the conversion below
/// may take it; the library never looks inside a value of it.
#[verifier::external_type_specification]
#[verifier::external_body]
pub struct ExValue(serde_json::Value);

/// What the outside parser makes of a text: the parsed document, or `None`
/// when the text is not valid JSON. The outcome depends on the text alone.
pub uninterp spec fn json_of(s: Seq<char>) -> Option<Json>;

/// Relies on serde_json::from_str for `serde_json::Value`: parses the text
/// as one JSON document, deterministically; `Err` exactly when the text is
/// not valid JSON.
#[verifier::external_body]
pub(crate) fn parse_json(body: &str) -> (r: Option<Json>)
    ensures
        r == json_of(body@),
{
    match serde_json::from_str::<serde_json::Value>(body) {
        Ok(v) => Some(value_to_json(v)),
        Err(_) => None,
    }
}

/// Relies on the shape of serde_json::Value: rewrites each variant into the
/// library's own document type, field for field.
#[verifier::external_body]
fn value_to_json(v: serde_json::Value) -> Json {
    match v {
        serde_json::Value::Null => Json::Null,
        serde_json::Value::Bool(b) => Json::Bool(b),
        serde_json::Value::Number(n) => Json::Num(n.to_string()),
        serde_json::Value::String(s) => Json::Str(s),
        serde_json::Value::Array(a) => Json::Arr(a.into_iter().map(value_to_json).collect()),
        serde_json::Value::Object(m) => Json::Obj(
            m.into_iter().map(|(k, x)| (k, value_to_json(x))).collect(),
        ),
    }
}

} // verus!
