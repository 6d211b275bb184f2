//! A JSON document as plain values, and the lookups the manifest and the
//! derivation descriptions need.
use vstd::prelude::*;

verus! {

#[verifier::external_type_specification]
#[verifier::external_body]
pub struct ExJsonValue(serde_json::Value);

/// A JSON value. Numbers keep their JSON text; object members keep the order
/// in which the parser hands them out.
#[derive(Debug)]
pub enum Json {
    Null,
    Bool(bool),
    Number(String),
    Str(String),
    Array(Vec<Json>),
    Object(Vec<(String, Json)>),
}

/// The tree that serde_json reads from `text`, or `None` where the text is
/// not one JSON value.
pub uninterp spec fn json_of_text(text: Seq<char>) -> Option<Json>;

/// Relies on serde_json::from_str: reads one JSON value from the text, or
/// fails; what it reads depends on the text alone. An empty text is not JSON.
#[verifier::external_body]
pub(crate) fn parse_json(text: &str) -> (r: Option<Json>)
    ensures
        r == json_of_text(text@),
        text@.len() == 0 ==> r is None,
{
    match serde_json::from_str::<serde_json::Value>(text) {
        Ok(v) => Some(Json::from_value(v)),
        Err(_) => None,
    }
}

/// The value of the first member named `key` among `entries`.
pub open spec fn find_member(entries: Seq<(String, Json)>, key: Seq<char>) -> Option<Json>
    decreases entries.len(),
{
    if entries.len() == 0 {
        None
    } else if entries[0].0@ == key {
        Some(entries[0].1)
    } else {
        find_member(entries.drop_first(), key)
    }
}

/// The member `key` of an object; `None` for a missing member or a value that
/// is not an object.
pub open spec fn member_of(j: Option<Json>, key: Seq<char>) -> Option<Json> {
    match j {
        Some(Json::Object(entries)) => find_member(entries@, key),
        _ => None,
    }
}

/// The text of a string value.
pub open spec fn text_of(j: Option<Json>) -> Option<Seq<char>> {
    match j {
        Some(Json::Str(s)) => Some(s@),
        _ => None,
    }
}

/// The truth value of a boolean.
pub open spec fn flag_of(j: Option<Json>) -> Option<bool> {
    match j {
        Some(Json::Bool(b)) => Some(b),
        _ => None,
    }
}

/// The string items among `items`, in order; other items are passed over.
pub open spec fn texts_among(items: Seq<Json>) -> Seq<Seq<char>>
    decreases items.len(),
{
    if items.len() == 0 {
        seq![]
    } else {
        let rest = texts_among(items.drop_last());
        match items.last() {
            Json::Str(s) => rest.push(s@),
            _ => rest,
        }
    }
}

/// The string items of an array; nothing for any other value.
pub open spec fn string_items(j: Option<Json>) -> Seq<Seq<char>> {
    match j {
        Some(Json::Array(items)) => texts_among(items@),
        _ => seq![],
    }
}

/// The member names of an object, in order.
pub open spec fn member_names(entries: Seq<(String, Json)>) -> Seq<Seq<char>> {
    entries.map_values(|e: (String, Json)| e.0@)
}

/// The views of a list of strings.
pub open spec fn texts(v: Seq<String>) -> Seq<Seq<char>> {
    v.map_values(|s: String| s@)
}

impl Json {
    /// Relies on serde_json::Value's variants: each moves into the like
    /// variant, a number as its JSON text, object members in the map's order.
    #[verifier::external_body]
    fn from_value(v: serde_json::Value) -> Json {
        match v {
            serde_json::Value::Null => Json::Null,
            serde_json::Value::Bool(b) => Json::Bool(b),
            serde_json::Value::Number(n) => Json::Number(n.to_string()),
            serde_json::Value::String(s) => Json::Str(s),
            serde_json::Value::Array(a) => Json::Array(a.into_iter().map(Json::from_value).collect()),
            serde_json::Value::Object(m) => Json::Object(
                m.into_iter().map(|(k, x)| (k, Json::from_value(x))).collect(),
            ),
        }
    }

    /// The member `key` of this value, where it is an object that has one.
    pub fn member(&self, key: &str) -> (r: Option<&Json>)
        ensures
            match r {
                Some(j) => member_of(Some(*self), key@) == Some(*j),
                None => member_of(Some(*self), key@) is None,
            },
    {
        match self {
            Json::Object(entries) => {
                let k = String::from_str(key);
                let n = entries.len();
                let mut i: usize = 0;
                assert(entries@.subrange(0, n as int) =~= entries@);
                while i < n
                    invariant
                        n == entries@.len(),
                        i <= n,
                        k@ == key@,
                        member_of(Some(*self), key@) == find_member(entries@, key@),
                        find_member(entries@, key@) == find_member(entries@.subrange(i as int, n as int), key@),
                    decreases n - i,
                {
                    let ghost rest = entries@.subrange(i as int, n as int);
                    assert(rest.drop_first() =~= entries@.subrange(i + 1, n as int));
                    assert(rest[0] == entries@[i as int]);
                    if entries[i].0 == k {
                        assert(entries@[i as int].0@ == key@);
                        assert(find_member(rest, key@) == Some(entries@[i as int].1));
                        let found = &entries[i].1;
                        assert(*found == entries@[i as int].1);
                        return Some(found);
                    }
                    i = i + 1;
                }
                None
            },
            _ => None,
        }
    }
}

/// The text of a string value.
pub fn text_value(j: Option<&Json>) -> (r: Option<String>)
    ensures
        match j {
            Some(v) => (match r { Some(s) => text_of(Some(*v)) == Some(s@), None => text_of(Some(*v)) is None }),
            None => r is None,
        },
{
    match j {
        Some(Json::Str(s)) => Some(s.clone()),
        _ => None,
    }
}

/// The truth value of a boolean.
pub fn flag_value(j: Option<&Json>) -> (r: Option<bool>)
    ensures
        match j {
            Some(v) => r == flag_of(Some(*v)),
            None => r is None,
        },
{
    match j {
        Some(Json::Bool(b)) => Some(*b),
        _ => None,
    }
}

/// The string items of an array, in order; nothing for any other value.
pub fn string_item_values(j: Option<&Json>) -> (r: Vec<String>)
    ensures
        match j {
            Some(v) => texts(r@) == string_items(Some(*v)),
            None => r@.len() == 0,
        },
{
    let mut out: Vec<String> = Vec::new();
    match j {
        Some(Json::Array(items)) => {
            let n = items.len();
            let mut i: usize = 0;
            while i < n
                invariant
                    n == items@.len(),
                    i <= n,
                    texts(out@) == texts_among(items@.subrange(0, i as int)),
                decreases n - i,
            {
                assert(items@.subrange(0, i + 1).drop_last() =~= items@.subrange(0, i as int));
                match &items[i] {
                    Json::Str(s) => {
                        out.push(s.clone());
                        assert(texts(out@) =~= texts_among(items@.subrange(0, i as int)).push(s@));
                    },
                    _ => {},
                }
                i = i + 1;
            }
            assert(items@.subrange(0, n as int) =~= items@);
        },
        _ => {},
    }
    out
}

/// The member names of an object, in order; `None` for any other value.
pub fn member_name_values(j: Option<&Json>) -> (r: Option<Vec<String>>)
    ensures
        match j {
            Some(Json::Object(entries)) => r is Some && texts(r->0@) == member_names(entries@),
            _ => r is None,
        },
{
    match j {
        Some(Json::Object(entries)) => {
            let mut out: Vec<String> = Vec::new();
            let n = entries.len();
            let mut i: usize = 0;
            while i < n
                invariant
                    n == entries@.len(),
                    i <= n,
                    out@.len() == i,
                    forall|j: int| 0 <= j < i ==> out@[j]@ == entries@[j].0@,
                decreases n - i,
            {
                out.push(entries[i].0.clone());
                i = i + 1;
            }
            assert(texts(out@) =~= member_names(entries@));
            Some(out)
        },
        _ => None,
    }
}

} // verus!
