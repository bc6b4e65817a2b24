//! The value tree that a configuration document parses into, and the typed
//! key extraction that the section resolvers build on. A table is an ordered
//! list of key/value pairs; key lookup takes the first match. Extraction of a
//! key distinguishes "absent" (`Ok(None)`), "present with the declared type"
//! (`Ok(Some(..))`), and "present with another type" (a `WrongType` error).

use vstd::prelude::*;

use crate::error::{ConfigError, ConfigField};

verus! {

/// A parsed document value: the shapes the configuration schema reads.
/// Values of kinds the schema never accepts (booleans, floats, datetimes)
/// are collapsed into `Other`; a field that meets one reports a type error.
#[derive(Debug, PartialEq)]
pub enum DocValue {
    Text(String),
    Int(i64),
    List(Vec<DocValue>),
    Table(Vec<(String, DocValue)>),
    Other,
}

/// First value bound to `key` in the entry list, if any.
pub open spec fn lookup_spec(es: Seq<(String, DocValue)>, key: Seq<char>) -> Option<DocValue>
    decreases es.len(),
{
    if es.len() == 0 {
        None
    } else if es[0].0@ == key {
        Some(es[0].1)
    } else {
        lookup_spec(es.skip(1), key)
    }
}

/// Appending an entry leaves every earlier binding as it was and binds its
/// own key only where that key was absent.
pub broadcast proof fn lemma_lookup_push(es: Seq<(String, DocValue)>, e: (String, DocValue), key: Seq<char>)
    ensures
        #[trigger] lookup_spec(es.push(e), key) == (match lookup_spec(es, key) {
            Some(v) => Some(v),
            None => if e.0@ == key {
                Some(e.1)
            } else {
                None
            },
        }),
    decreases es.len(),
{
    reveal_with_fuel(lookup_spec, 2);
    if es.len() == 0 {
        assert(es.push(e)[0] == e);
        assert(es.push(e).skip(1) =~= Seq::<(String, DocValue)>::empty());
    } else {
        assert(es.push(e)[0] == es[0]);
        assert(es.push(e).skip(1) =~= es.skip(1).push(e));
        lemma_lookup_push(es.skip(1), e, key);
        assert(lookup_spec(es.push(e), key) == (if es[0].0@ == key {
            Some(es[0].1)
        } else {
            lookup_spec(es.skip(1).push(e), key)
        }));
    }
}

/// The value an `Option<&DocValue>` refers to, for stating lookups in contracts.
pub open spec fn opt_value(sv: Option<&DocValue>) -> Option<DocValue> {
    match sv {
        Some(v) => Some(*v),
        None => None,
    }
}

/// Relates an executable resolution result to its specification-level
/// counterpart: same error, or a success whose deep view is the specified one.
pub open spec fn resolves_deep<T: DeepView>(
    r: Result<T, ConfigError>,
    s: Result<<T as DeepView>::V, ConfigError>,
) -> bool {
    match r {
        Ok(c) => s matches Ok(sv) && c.deep_view() == sv,
        Err(e) => s matches Err(e2) && e == e2,
    }
}

/// As `resolves_deep`, for types whose shallow view is the model.
pub open spec fn resolves_to<T: View>(
    r: Result<T, ConfigError>,
    s: Result<<T as View>::V, ConfigError>,
) -> bool {
    match r {
        Ok(c) => s matches Ok(sv) && c@ == sv,
        Err(e) => s matches Err(e2) && e == e2,
    }
}

/// First value bound to `key`, by reference.
pub fn lookup<'a>(es: &'a Vec<(String, DocValue)>, key: &str) -> (r: Option<&'a DocValue>)
    ensures
        opt_value(r) == lookup_spec(es@, key@),
{
    let k: String = key.to_owned();
    proof {
        assert(es@.skip(0) =~= es@);
    }
    let mut i: usize = 0;
    while i < es.len()
        invariant
            0 <= i <= es@.len(),
            k@ == key@,
            lookup_spec(es@.skip(i as int), key@) == lookup_spec(es@, key@),
        decreases es@.len() - i,
    {
        proof {
            assert(es@.skip(i as int)[0] == es@[i as int]);
        }
        let e = &es[i];
        if e.0 == k {
            return Some(&e.1);
        }
        proof {
            assert(es@.skip(i as int).skip(1) =~= es@.skip(i as int + 1));
        }
        i = i + 1;
    }
    proof {
        assert(es@.skip(es@.len() as int) =~= Seq::<(String, DocValue)>::empty());
    }
    None
}

/// Appends `key` bound to `v` as text: the serialized form of a mandatory
/// or defaulted string field. Every other binding is left as it was.
pub(crate) fn push_text(es: &mut Vec<(String, DocValue)>, key: &str, v: &String)
    ensures
        forall|k: Seq<char>|
            k != key@ ==> #[trigger] lookup_spec(final(es)@, k) == lookup_spec(old(es)@, k),
        lookup_spec(old(es)@, key@) is None ==> (lookup_spec(final(es)@, key@) matches Some(dv)
            && dv matches DocValue::Text(t) && t@ == v@),
{
    broadcast use lemma_lookup_push;

    es.push((key.to_owned(), DocValue::Text(v.clone())));
}

/// Appends `key` bound to `v` as text where `v` is set, and nothing where
/// it is not: the serialized form of an optional string field. Every other
/// binding is left as it was.
pub(crate) fn push_opt_text(es: &mut Vec<(String, DocValue)>, key: &str, v: &Option<String>)
    ensures
        forall|k: Seq<char>|
            k != key@ ==> #[trigger] lookup_spec(final(es)@, k) == lookup_spec(old(es)@, k),
        lookup_spec(old(es)@, key@) is None ==> match v {
            Option::None => lookup_spec(final(es)@, key@) is None,
            Option::Some(s) => (lookup_spec(final(es)@, key@) matches Some(dv)
                && dv matches DocValue::Text(t) && t@ == s@),
        },
{
    broadcast use lemma_lookup_push;

    match v {
        Some(s) => es.push((key.to_owned(), DocValue::Text(s.clone()))),
        None => {},
    }
}

/// Converts a list of strings into the text values that serialize it.
pub(crate) fn texts_to_values(ss: &Vec<String>) -> (r: Vec<DocValue>)
    ensures
        all_texts(r@),
        texts_view(r@) == ss.deep_view(),
{
    let mut out: Vec<DocValue> = Vec::new();
    let mut i: usize = 0;
    while i < ss.len()
        invariant
            0 <= i <= ss@.len(),
            out@.len() == i,
            forall|j: int| 0 <= j < i ==> out@[j] is Text,
            forall|j: int| 0 <= j < i ==> #[trigger] text_of(out@[j]) == ss@[j]@,
        decreases ss@.len() - i,
    {
        out.push(DocValue::Text(ss[i].clone()));
        i = i + 1;
    }
    proof {
        assert(texts_view(out@) =~= ss.deep_view());
    }
    out
}

/// Appends `key` bound to `v` as a list of texts where `v` is set, and
/// nothing where it is not: the serialized form of an optional string-list
/// field. Every other binding is left as it was.
pub(crate) fn push_opt_texts(es: &mut Vec<(String, DocValue)>, key: &str, v: &Option<Vec<String>>)
    ensures
        forall|k: Seq<char>|
            k != key@ ==> #[trigger] lookup_spec(final(es)@, k) == lookup_spec(old(es)@, k),
        lookup_spec(old(es)@, key@) is None ==> match v {
            Option::None => lookup_spec(final(es)@, key@) is None,
            Option::Some(ss) => (lookup_spec(final(es)@, key@) matches Some(dv)
                && dv matches DocValue::List(items) && all_texts(items@)
                && texts_view(items@) == ss.deep_view()),
        },
{
    broadcast use lemma_lookup_push;

    match v {
        Some(ss) => es.push((key.to_owned(), DocValue::List(texts_to_values(ss)))),
        None => {},
    }
}

/// Appends `key` bound to `v`: the serialized form of a whole section.
/// Every other binding is left as it was.
pub(crate) fn push_value(es: &mut Vec<(String, DocValue)>, key: &str, v: DocValue)
    ensures
        forall|k: Seq<char>|
            k != key@ ==> #[trigger] lookup_spec(final(es)@, k) == lookup_spec(old(es)@, k),
        lookup_spec(old(es)@, key@) is None ==> lookup_spec(final(es)@, key@) == Some(v),
{
    broadcast use lemma_lookup_push;

    es.push((key.to_owned(), v));
}

/// Appends `key` bound to `v` as a list of texts: the serialized form of a
/// defaulted string-list field. Every other binding is left as it was.
pub(crate) fn push_texts(es: &mut Vec<(String, DocValue)>, key: &str, v: &Vec<String>)
    ensures
        forall|k: Seq<char>|
            k != key@ ==> #[trigger] lookup_spec(final(es)@, k) == lookup_spec(old(es)@, k),
        lookup_spec(old(es)@, key@) is None ==> (lookup_spec(final(es)@, key@) matches Some(dv)
            && dv matches DocValue::List(items) && all_texts(items@) && texts_view(items@)
            == v.deep_view()),
{
    broadcast use lemma_lookup_push;

    es.push((key.to_owned(), DocValue::List(texts_to_values(v))));
}

/// A string key: absent, present as text, or a type error.
pub open spec fn spec_get_text(es: Seq<(String, DocValue)>, key: Seq<char>, f: ConfigField) -> Result<
    Option<Seq<char>>,
    ConfigError,
> {
    match lookup_spec(es, key) {
        None => Ok(None),
        Some(v) => match v {
            DocValue::Text(s) => Ok(Some(s@)),
            _ => Err(ConfigError::WrongType(f)),
        },
    }
}

pub fn get_text(es: &Vec<(String, DocValue)>, key: &str, f: ConfigField) -> (r: Result<
    Option<String>,
    ConfigError,
>)
    ensures
        resolves_deep(r, spec_get_text(es@, key@, f)),
{
    match lookup(es, key) {
        None => Ok(None),
        Some(v) => match v {
            DocValue::Text(s) => Ok(Some(s.clone())),
            _ => Err(ConfigError::WrongType(f)),
        },
    }
}

/// Every element is text.
pub open spec fn all_texts(items: Seq<DocValue>) -> bool {
    forall|i: int| 0 <= i < items.len() ==> items[i] is Text
}

/// The text of a value, where it is text.
pub open spec fn text_of(v: DocValue) -> Seq<char> {
    match v {
        DocValue::Text(s) => s@,
        _ => Seq::empty(),
    }
}

pub open spec fn texts_view(items: Seq<DocValue>) -> Seq<Seq<char>> {
    Seq::new(items.len(), |i: int| text_of(items[i]))
}

/// An integer key: absent, present as an integer, or a type error.
pub open spec fn spec_get_int(es: Seq<(String, DocValue)>, key: Seq<char>, f: ConfigField) -> Result<
    Option<i64>,
    ConfigError,
> {
    match lookup_spec(es, key) {
        None => Ok(None),
        Some(v) => match v {
            DocValue::Int(n) => Ok(Some(n)),
            _ => Err(ConfigError::WrongType(f)),
        },
    }
}

pub fn get_int(es: &Vec<(String, DocValue)>, key: &str, f: ConfigField) -> (r: Result<
    Option<i64>,
    ConfigError,
>)
    ensures
        resolves_deep(r, spec_get_int(es@, key@, f)),
{
    match lookup(es, key) {
        None => Ok(None),
        Some(v) => match v {
            DocValue::Int(n) => Ok(Some(*n)),
            _ => Err(ConfigError::WrongType(f)),
        },
    }
}

/// A string-array key: absent, present as a list all of whose elements are
/// text, or a type error (also when a single element has another type).
pub open spec fn spec_get_texts(es: Seq<(String, DocValue)>, key: Seq<char>, f: ConfigField) -> Result<
    Option<Seq<Seq<char>>>,
    ConfigError,
> {
    match lookup_spec(es, key) {
        None => Ok(None),
        Some(v) => match v {
            DocValue::List(items) => if all_texts(items@) {
                Ok(Some(texts_view(items@)))
            } else {
                Err(ConfigError::WrongType(f))
            },
            _ => Err(ConfigError::WrongType(f)),
        },
    }
}

fn texts_of(items: &Vec<DocValue>) -> (r: Option<Vec<String>>)
    ensures
        match r {
            Some(ts) => all_texts(items@) && ts.deep_view() == texts_view(items@),
            None => !all_texts(items@),
        },
{
    let mut out: Vec<String> = Vec::new();
    let mut i: usize = 0;
    while i < items.len()
        invariant
            0 <= i <= items@.len(),
            out@.len() == i,
            forall|j: int| 0 <= j < i ==> items@[j] is Text,
            forall|j: int| 0 <= j < i ==> #[trigger] out@[j]@ == text_of(items@[j]),
        decreases items@.len() - i,
    {
        match &items[i] {
            DocValue::Text(s) => out.push(s.clone()),
            _ => {
                return None;
            },
        }
        i = i + 1;
    }
    proof {
        assert(out.deep_view() =~= texts_view(items@));
    }
    Some(out)
}

pub fn get_texts(es: &Vec<(String, DocValue)>, key: &str, f: ConfigField) -> (r: Result<
    Option<Vec<String>>,
    ConfigError,
>)
    ensures
        resolves_deep(r, spec_get_texts(es@, key@, f)),
{
    match lookup(es, key) {
        None => Ok(None),
        Some(v) => match v {
            DocValue::List(items) => match texts_of(items) {
                Some(ts) => Ok(Some(ts)),
                None => Err(ConfigError::WrongType(f)),
            },
            _ => Err(ConfigError::WrongType(f)),
        },
    }
}

} // verus!
