//! Trusted boundary to `serde_json`, and the named meanings of its
//! results.
//!
//! A `serde_json::Value` is opaque to the library, so what each call
//! returns is given a name: parsing and each accessor is a function of
//! its arguments alone, and every wrapper's contract says it returns
//! exactly that named result. The decode functions in `instruction` and
//! `resolver` are then specified, over these names, as exact functions
//! of the text they are given.

use vstd::prelude::*;

verus! {

#[verifier::external_type_specification]
#[verifier::external_body]
pub struct ExValue(serde_json::Value);

/// What `serde_json::from_str::<serde_json::Value>` returns for a given
/// text: `Some` exactly when the text is well-formed JSON.
pub uninterp spec fn json_parse_of(s: Seq<char>) -> Option<serde_json::Value>;

/// What `serde_json::Value::get` returns for a value and a string key:
/// the member under the key when the value is an object holding it,
/// `None` otherwise.
pub uninterp spec fn json_field_of(v: serde_json::Value, key: Seq<char>) -> Option<
    serde_json::Value,
>;

/// What `serde_json::Value::as_str` returns: the characters when the
/// value is a JSON string, `None` otherwise.
pub uninterp spec fn json_str_of(v: serde_json::Value) -> Option<Seq<char>>;

/// What `serde_json::Value::as_bool` returns: the boolean when the
/// value is a JSON boolean, `None` otherwise.
pub uninterp spec fn json_bool_of(v: serde_json::Value) -> Option<bool>;

/// What `serde_json::Value::as_array` returns: the elements, in order,
/// when the value is a JSON array, `None` otherwise.
pub uninterp spec fn json_array_of(v: serde_json::Value) -> Option<Seq<serde_json::Value>>;

/// What `serde_json::Value::is_null` returns: true exactly for JSON
/// `null`.
pub uninterp spec fn json_null_of(v: serde_json::Value) -> bool;

/// Relies on `serde_json::from_str::<serde_json::Value>`: returns `Some`
/// exactly when the text is well-formed JSON; the error case is folded
/// into `None`. The result depends on the text alone.
#[verifier::external_body]
pub(crate) fn parse_json(s: &str) -> (r: Option<serde_json::Value>)
    ensures
        r == json_parse_of(s@),
{
    serde_json::from_str(s).ok()
}

/// Relies on `serde_json::Value::get` with a string index: looks the key
/// up when the value is an object, and returns `None` otherwise.
#[verifier::external_body]
pub(crate) fn json_get<'a>(v: &'a serde_json::Value, key: &str) -> (r: Option<
    &'a serde_json::Value,
>)
    ensures
        match r {
            Some(m) => json_field_of(*v, key@) == Some(*m),
            None => json_field_of(*v, key@) is None,
        },
{
    v.get(key)
}

/// Relies on `serde_json::Value::as_str`: the string content when the
/// value is a JSON string, `None` otherwise. The borrowed slice is owned
/// on the way out.
#[verifier::external_body]
pub(crate) fn json_as_str(v: &serde_json::Value) -> (r: Option<String>)
    ensures
        match r {
            Some(s) => json_str_of(*v) == Some(s@),
            None => json_str_of(*v) is None,
        },
{
    match v.as_str() {
        Some(s) => Some(s.to_owned()),
        None => None,
    }
}

/// Relies on `serde_json::Value::as_bool`: the boolean when the value is
/// a JSON boolean, `None` otherwise.
#[verifier::external_body]
pub(crate) fn json_as_bool(v: &serde_json::Value) -> (r: Option<bool>)
    ensures
        r == json_bool_of(*v),
{
    v.as_bool()
}

/// Relies on `serde_json::Value::as_array`: a borrow of the elements
/// when the value is a JSON array, `None` otherwise.
#[verifier::external_body]
pub(crate) fn json_as_array<'a>(v: &'a serde_json::Value) -> (r: Option<
    &'a Vec<serde_json::Value>,
>)
    ensures
        match r {
            Some(a) => json_array_of(*v) == Some(a@),
            None => json_array_of(*v) is None,
        },
{
    v.as_array()
}

/// Relies on `serde_json::Value::is_null`: true exactly for JSON `null`.
#[verifier::external_body]
pub(crate) fn json_is_null(v: &serde_json::Value) -> (r: bool)
    ensures
        r == json_null_of(*v),
{
    v.is_null()
}

/// The string member under `key` of every element, in order — or `None`
/// as soon as one element lacks a string there, mirroring a typed
/// decode that fails as a whole on one bad entry.
pub open spec fn spec_string_fields(entries: Seq<serde_json::Value>, key: Seq<char>) -> Option<
    Seq<Seq<char>>,
>
    decreases entries.len(),
{
    if entries.len() == 0 {
        Some(Seq::empty())
    } else {
        match json_field_of(entries.first(), key) {
            None => None,
            Some(m) => match json_str_of(m) {
                None => None,
                Some(s) => match spec_string_fields(entries.drop_first(), key) {
                    None => None,
                    Some(rest) => Some(seq![s] + rest),
                },
            },
        }
    }
}

/// Collect the string member under `key` of every element.
pub(crate) fn string_fields(entries: &Vec<serde_json::Value>, key: &str) -> (r: Option<
    Vec<String>,
>)
    ensures
        match r {
            Some(v) => spec_string_fields(entries@, key@) == Some(v.deep_view()),
            None => spec_string_fields(entries@, key@) is None,
        },
{
    let mut out: Vec<String> = Vec::new();
    let mut i: usize = 0;
    proof {
        assert(entries@.skip(0) =~= entries@);
        assert(Seq::<Seq<char>>::empty() + spec_string_fields(entries@, key@)->0
            =~= spec_string_fields(entries@, key@)->0);
    }
    while i < entries.len()
        invariant
            i <= entries@.len(),
            match spec_string_fields(entries@.skip(i as int), key@) {
                None => spec_string_fields(entries@, key@) is None,
                Some(rest) => spec_string_fields(entries@, key@) == Some(out.deep_view() + rest),
            },
        decreases entries@.len() - i,
    {
        proof {
            assert(entries@.skip(i as int).first() == entries@[i as int]);
            assert(entries@.skip(i as int).drop_first() =~= entries@.skip(i + 1));
        }
        let value = match json_get(&entries[i], key) {
            Some(m) => match json_as_str(m) {
                Some(s) => s,
                None => {
                    return None;
                },
            },
            None => {
                return None;
            },
        };
        let ghost previous = out.deep_view();
        out.push(value);
        proof {
            match spec_string_fields(entries@.skip(i + 1), key@) {
                Some(rest) => {
                    assert(previous + (seq![out.deep_view().last()] + rest) =~= out.deep_view()
                        + rest);
                },
                None => {},
            }
        }
        i = i + 1;
    }
    proof {
        assert(entries@.skip(entries@.len() as int) =~= Seq::<serde_json::Value>::empty());
        assert(out.deep_view() + Seq::<Seq<char>>::empty() =~= out.deep_view());
    }
    Some(out)
}

} // verus!
