//! Reading what the build system says of one package's derivation.
use vstd::prelude::*;
use crate::json::{Json, json_of_text, parse_json, member_of, member_names, texts_among, member_name_values, string_item_values};
use crate::record::{Derivation, DerivationView};

verus! {

/// Why a package's derivation could not be read. Each is a soft failure: the
/// package gets no note, and the run goes on.
#[derive(Debug, Clone, Copy, PartialEq, Eq, Structural)]
pub enum IntrospectionError {
    /// The query did not run to a successful end (it could not start, timed
    /// out or exited with an error).
    QueryFailed,
    /// The query answered nothing, or an empty object.
    NoDerivation,
    /// The answer is not JSON.
    NotJson,
    /// The answer is JSON but not a derivation description: not an object,
    /// an object with more than one member, an empty identifier, or
    /// `outputs`, `inputDrvs` or `inputSrcs` missing or of the wrong kind.
    Unexpected,
}

/// White space as Unicode's White_Space property has it (the characters
/// that `str::trim` takes off).
pub open spec fn is_blank(c: char) -> bool {
    let u = c as u32;
    (0x9 <= u && u <= 0xd) || u == 0x20 || u == 0x85 || u == 0xa0 || u == 0x1680
        || (0x2000 <= u && u <= 0x200a) || u == 0x2028 || u == 0x2029 || u == 0x202f
        || u == 0x205f || u == 0x3000
}

/// `s` without leading white space.
pub open spec fn trim_front(s: Seq<char>) -> Seq<char>
    decreases s.len(),
{
    if s.len() > 0 && is_blank(s[0]) {
        trim_front(s.drop_first())
    } else {
        s
    }
}

/// `s` without trailing white space.
pub open spec fn trim_back(s: Seq<char>) -> Seq<char>
    decreases s.len(),
{
    if s.len() > 0 && is_blank(s.last()) {
        trim_back(s.drop_last())
    } else {
        s
    }
}

/// `s` without white space at either end.
pub open spec fn trimmed(s: Seq<char>) -> Seq<char> {
    trim_back(trim_front(s))
}

/// The derivation that a parsed answer describes: an object with a single
/// member, keyed by the derivation's identifier, with an `outputs` object (whose member names
/// are the outputs), an `inputDrvs` object (whose member names are the
/// dependencies) and an `inputSrcs` array (whose strings are the sources).
pub open spec fn derivation_of_json(j: Json) -> Result<DerivationView, IntrospectionError> {
    match j {
        Json::Object(entries) => {
            if entries@.len() == 0 {
                Err(IntrospectionError::NoDerivation)
            } else if entries@.len() > 1 {
                Err(IntrospectionError::Unexpected)
            } else {
                let id = entries@[0].0@;
                let body = Some(entries@[0].1);
                match (member_of(body, "outputs"@), member_of(body, "inputDrvs"@), member_of(body, "inputSrcs"@)) {
                    (Some(Json::Object(outs)), Some(Json::Object(drvs)), Some(Json::Array(srcs))) => {
                        if id.len() == 0 {
                            Err(IntrospectionError::Unexpected)
                        } else {
                            Ok(DerivationView {
                                drv_path: id,
                                outputs: member_names(outs@),
                                input_srcs: texts_among(srcs@),
                                dependencies: member_names(drvs@),
                            })
                        }
                    },
                    _ => Err(IntrospectionError::Unexpected),
                }
            }
        },
        _ => Err(IntrospectionError::Unexpected),
    }
}

/// What the text of an answer yields: a blank answer or `{}` is no
/// derivation; otherwise the JSON it holds is read as a description.
pub open spec fn derivation_of_answer(text: Seq<char>) -> Result<DerivationView, IntrospectionError> {
    let t = trimmed(text);
    if t.len() == 0 || t == "{}"@ {
        Err(IntrospectionError::NoDerivation)
    } else {
        match json_of_text(text) {
            None => Err(IntrospectionError::NotJson),
            Some(j) => derivation_of_json(j),
        }
    }
}

/// What a query yields: `None` for a query that did not succeed, else the
/// text it printed.
pub open spec fn derivation_of_query(answer: Option<Seq<char>>) -> Result<DerivationView, IntrospectionError> {
    match answer {
        None => Err(IntrospectionError::QueryFailed),
        Some(text) => derivation_of_answer(text),
    }
}

/// The view of a reading.
pub open spec fn reading_view(r: Result<Derivation, IntrospectionError>) -> Result<DerivationView, IntrospectionError> {
    match r {
        Ok(d) => Ok(d@),
        Err(e) => Err(e),
    }
}

/// The text `s` without white space at either end.
pub fn trim_text(s: &str) -> (r: &str)
    ensures
        r@ == trimmed(s@),
{
    let n = s.unicode_len();
    let mut i: usize = 0;
    assert(s@.subrange(0, n as int) =~= s@);
    while i < n && is_blank_char(s.get_char(i))
        invariant
            n == s@.len(),
            i <= n,
            trim_front(s@) == trim_front(s@.subrange(i as int, n as int)),
        decreases n - i,
    {
        assert(s@.subrange(i as int, n as int).drop_first() =~= s@.subrange(i + 1, n as int));
        i = i + 1;
    }
    let ghost front = s@.subrange(i as int, n as int);
    assert(trim_front(s@) == front) by {
        if i < n {
            assert(front[0] == s@[i as int]);
        } else {
            assert(front.len() == 0);
        }
    }
    let mut j: usize = n;
    while j > i && is_blank_char(s.get_char(j - 1))
        invariant
            n == s@.len(),
            i <= j <= n,
            trim_back(front) == trim_back(s@.subrange(i as int, j as int)),
        decreases j,
    {
        assert(s@.subrange(i as int, j as int).drop_last() =~= s@.subrange(i as int, j - 1));
        j = j - 1;
    }
    let r = s.substring_char(i, j);
    assert(trim_back(front) == r@) by {
        if j > i {
            assert(r@.last() == s@[j - 1]);
        }
    }
    r
}

/// Whether `c` is white space (Unicode's White_Space property).
pub fn is_blank_char(c: char) -> (r: bool)
    ensures
        r == is_blank(c),
{
    let u = c as u32;
    (0x9 <= u && u <= 0xd) || u == 0x20 || u == 0x85 || u == 0xa0 || u == 0x1680
        || (0x2000 <= u && u <= 0x200a) || u == 0x2028 || u == 0x2029 || u == 0x202f
        || u == 0x205f || u == 0x3000
}

/// Reads the derivation that a parsed answer describes.
pub fn derivation_from_json(j: &Json) -> (r: Result<Derivation, IntrospectionError>)
    ensures
        reading_view(r) == derivation_of_json(*j),
        r matches Ok(d) ==> d.wf(),
{
    match j {
        Json::Object(entries) => {
            if entries.len() == 0 {
                return Err(IntrospectionError::NoDerivation);
            }
            if entries.len() > 1 {
                return Err(IntrospectionError::Unexpected);
            }
            let id = &entries[0].0;
            let body = &entries[0].1;
            let outs = body.member("outputs");
            let drvs = body.member("inputDrvs");
            let srcs = body.member("inputSrcs");
            let outputs = member_name_values(outs);
            let dependencies = member_name_values(drvs);
            match (outputs, dependencies, srcs) {
                (Some(outputs), Some(dependencies), Some(Json::Array(_))) => {
                    if id.unicode_len() == 0 {
                        return Err(IntrospectionError::Unexpected);
                    }
                    let input_srcs = string_item_values(srcs);
                    let d = Derivation { drv_path: id.clone(), outputs, input_srcs, dependencies };
                    Ok(d)
                },
                _ => Err(IntrospectionError::Unexpected),
            }
        },
        _ => Err(IntrospectionError::Unexpected),
    }
}

/// Reads the derivation from the text that a successful query printed.
pub fn derivation_from_answer(text: &str) -> (r: Result<Derivation, IntrospectionError>)
    ensures
        reading_view(r) == derivation_of_answer(text@),
        r matches Ok(d) ==> d.wf(),
{
    let t = trim_text(text);
    if t.unicode_len() == 0 || is_empty_object(t) {
        return Err(IntrospectionError::NoDerivation);
    }
    match parse_json(text) {
        None => Err(IntrospectionError::NotJson),
        Some(j) => derivation_from_json(&j),
    }
}

/// Whether `t` is exactly `{}`.
fn is_empty_object(t: &str) -> (r: bool)
    ensures
        r == (t@ == "{}"@),
{
    proof {
        reveal_strlit("{}");
    }
    if t.unicode_len() != 2 {
        return false;
    }
    let r = t.get_char(0) == '{' && t.get_char(1) == '}';
    assert(r ==> t@ =~= "{}"@);
    r
}

/// Reads the derivation from a query's outcome: `None` where the query did
/// not succeed, else what it printed.
pub fn derivation_from_query(answer: Option<&str>) -> (r: Result<Derivation, IntrospectionError>)
    ensures
        reading_view(r) == derivation_of_query(
            match answer {
                Some(t) => Some(t@),
                None => None,
            },
        ),
        r matches Ok(d) ==> d.wf(),
{
    match answer {
        None => Err(IntrospectionError::QueryFailed),
        Some(text) => derivation_from_answer(text),
    }
}

} // verus!
