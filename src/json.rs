use vstd::prelude::*;

use crate::error::ParseError;

verus! {

/// Deepest nesting of arrays and objects that a document may have.
pub const MAX_DEPTH: usize = 128;

/// A JSON number: an integer, or the text of any other number.
#[derive(Clone, Debug, PartialEq)]
pub enum Numeric {
    Integer(i128),
    Decimal(String),
}

/// A JSON value, as the normalizer reads it.
///
/// The members of an object are in the order in which they were given to
/// the value; parsed text gives them sorted by name, each name once.
#[derive(Debug)]
pub enum Json {
    Null,
    Bool(bool),
    Number(Numeric),
    Str(String),
    Array(Vec<Json>),
    Object(Vec<(String, Json)>),
}

/// A number, as the specifications see it.
pub enum NumericView {
    Integer(int),
    Decimal(Seq<char>),
}

/// A JSON value, as the specifications see it: the same tree, with
/// sequences in place of vectors.
pub enum JsonView {
    Null,
    Bool(bool),
    Number(NumericView),
    Str(Seq<char>),
    Array(Seq<JsonView>),
    Object(Seq<(Seq<char>, JsonView)>),
}

pub open spec fn numeric_view(n: Numeric) -> NumericView {
    match n {
        Numeric::Integer(i) => NumericView::Integer(i as int),
        Numeric::Decimal(t) => NumericView::Decimal(t@),
    }
}

/// The view of a value.
pub open spec fn json_view(j: Json) -> JsonView
    decreases j,
{
    match j {
        Json::Null => JsonView::Null,
        Json::Bool(b) => JsonView::Bool(b),
        Json::Number(n) => JsonView::Number(numeric_view(n)),
        Json::Str(s) => JsonView::Str(s@),
        Json::Array(items) => {
            proof {
                broadcast use vstd::std_specs::vec::axiom_vec_decreases_to_view;

                assert(decreases_to!(j => j->Array_0));
                assert(decreases_to!(j->Array_0 => j->Array_0@));
            }
            JsonView::Array(items_view(items@))
        },
        Json::Object(fields) => {
            proof {
                broadcast use vstd::std_specs::vec::axiom_vec_decreases_to_view;

                assert(decreases_to!(j => j->Object_0));
                assert(decreases_to!(j->Object_0 => j->Object_0@));
            }
            JsonView::Object(fields_view(fields@))
        },
    }
}

/// The views of the items of an array.
pub open spec fn items_view(items: Seq<Json>) -> Seq<JsonView>
    decreases items,
{
    if items.len() == 0 {
        Seq::empty()
    } else {
        seq![json_view(items[0])] + items_view(items.subrange(1, items.len() as int))
    }
}

/// The views of the members of an object.
pub open spec fn fields_view(fields: Seq<(String, Json)>) -> Seq<(Seq<char>, JsonView)>
    decreases fields,
{
    if fields.len() == 0 {
        Seq::empty()
    } else {
        proof {
            assert(decreases_to!(fields => fields[0]));
            assert(decreases_to!(fields[0] => fields[0].1));
        }
        seq![(fields[0].0@, json_view(fields[0].1))] + fields_view(
            fields.subrange(1, fields.len() as int),
        )
    }
}

/// `items_view` views each item in place.
pub proof fn lemma_items_view(items: Seq<Json>)
    ensures
        items_view(items).len() == items.len(),
        forall|i: int| 0 <= i < items.len() ==> #[trigger] items_view(items)[i] == json_view(items[i]),
    decreases items.len(),
{
    if items.len() > 0 {
        let rest = items.subrange(1, items.len() as int);
        lemma_items_view(rest);
        assert forall|i: int| 0 <= i < items.len() implies #[trigger] items_view(items)[i]
            == json_view(items[i]) by {
            if i > 0 {
                assert(items[i] == rest[i - 1]);
            }
        }
    }
}

/// `fields_view` views each member in place.
pub proof fn lemma_fields_view(fields: Seq<(String, Json)>)
    ensures
        fields_view(fields).len() == fields.len(),
        forall|i: int|
            0 <= i < fields.len() ==> #[trigger] fields_view(fields)[i] == (
                fields[i].0@,
                json_view(fields[i].1),
            ),
    decreases fields.len(),
{
    if fields.len() > 0 {
        let rest = fields.subrange(1, fields.len() as int);
        lemma_fields_view(rest);
        assert forall|i: int| 0 <= i < fields.len() implies #[trigger] fields_view(fields)[i] == (
            fields[i].0@,
            json_view(fields[i].1),
        ) by {
            if i > 0 {
                assert(fields[i] == rest[i - 1]);
            }
        }
    }
}

/// The view of an array built from items with these views.
pub proof fn lemma_array_view(items: Seq<Json>, views: Seq<JsonView>)
    requires
        items.len() == views.len(),
        forall|i: int| 0 <= i < items.len() ==> #[trigger] json_view(items[i]) == views[i],
    ensures
        items_view(items) == views,
{
    lemma_items_view(items);
    assert(items_view(items) =~= views);
}

/// The view of an object built from members with these views.
pub proof fn lemma_object_view(fields: Seq<(String, Json)>, views: Seq<(Seq<char>, JsonView)>)
    requires
        fields.len() == views.len(),
        forall|i: int|
            0 <= i < fields.len() ==> #[trigger] views[i] == (fields[i].0@, json_view(fields[i].1)),
    ensures
        fields_view(fields) == views,
{
    lemma_fields_view(fields);
    assert(fields_view(fields) =~= views);
}

/// A deep copy of a value.
pub fn copy_json(j: &Json) -> (r: Json)
    ensures
        json_view(r) == json_view(*j),
        !(j is Array || j is Object) ==> r == *j,
        j is Array ==> r is Array && r->Array_0@.len() == j->Array_0@.len(),
        j is Object ==> r is Object && keys_of(r->Object_0@) == keys_of(j->Object_0@),
    decreases j,
{
    match j {
        Json::Null => Json::Null,
        Json::Bool(b) => Json::Bool(*b),
        Json::Number(Numeric::Integer(n)) => Json::Number(Numeric::Integer(*n)),
        Json::Number(Numeric::Decimal(t)) => Json::Number(Numeric::Decimal(t.clone())),
        Json::Str(s) => Json::Str(s.clone()),
        Json::Array(items) => {
            let mut out: Vec<Json> = Vec::new();
            let mut i: usize = 0;
            while i < items.len()
                invariant
                    *j == Json::Array(*items),
                    i <= items@.len(),
                    out@.len() == i,
                    forall|k: int| 0 <= k < i ==> #[trigger] json_view(out@[k]) == json_view(items@[k]),
                decreases items@.len() - i,
            {
                proof {
                    broadcast use vstd::std_specs::vec::axiom_vec_index_decreases;

                    assert(decreases_to!(*j => j->Array_0));
                    assert(decreases_to!(j->Array_0 => j->Array_0[i as int]));
                }
                out.push(copy_json(&items[i]));
                i = i + 1;
            }
            proof {
                lemma_items_view(items@);
                lemma_array_view(out@, items_view(items@));
            }
            Json::Array(out)
        },
        Json::Object(fields) => {
            let mut out: Vec<(String, Json)> = Vec::new();
            let mut i: usize = 0;
            while i < fields.len()
                invariant
                    *j == Json::Object(*fields),
                    i <= fields@.len(),
                    out@.len() == i,
                    forall|k: int| 0 <= k < i ==> #[trigger] out@[k].0@ == fields@[k].0@,
                    forall|k: int| 0 <= k < i ==> #[trigger] json_view(out@[k].1) == json_view(fields@[k].1),
                decreases fields@.len() - i,
            {
                proof {
                    broadcast use vstd::std_specs::vec::axiom_vec_index_decreases;

                    assert(decreases_to!(*j => j->Object_0));
                    assert(decreases_to!(j->Object_0 => j->Object_0[i as int]));
                    assert(decreases_to!(j->Object_0[i as int] => j->Object_0[i as int].1));
                }
                let name = fields[i].0.clone();
                out.push((name, copy_json(&fields[i].1)));
                i = i + 1;
            }
            proof {
                assert(keys_of(out@) =~= keys_of(fields@));
                lemma_fields_view(fields@);
                lemma_object_view(out@, fields_view(fields@));
            }
            Json::Object(out)
        },
    }
}

/// The value of the first member named `key`, if any.
pub open spec fn lookup(fields: Seq<(String, Json)>, key: Seq<char>) -> Option<Json>
    decreases fields.len(),
{
    if fields.len() == 0 {
        None
    } else if fields[0].0@ == key {
        Some(fields[0].1)
    } else {
        lookup(fields.drop_first(), key)
    }
}

/// Whether an object has a member named `key`.
pub open spec fn has_key(fields: Seq<(String, Json)>, key: Seq<char>) -> bool {
    lookup(fields, key) is Some
}

/// No two members share a name.
pub open spec fn keys_unique<T>(fields: Seq<(String, T)>) -> bool {
    forall|i: int, j: int|
        0 <= i < j < fields.len() ==> #[trigger] fields[i].0@ != #[trigger] fields[j].0@
}

/// The names of the members, in order.
pub open spec fn keys_of<T>(fields: Seq<(String, T)>) -> Seq<Seq<char>> {
    fields.map_values(|f: (String, T)| f.0@)
}

/// An optional string member: absent or null gives `None`, a string gives
/// its text, anything else is malformed.
pub open spec fn opt_str_ok(v: Option<Json>) -> bool {
    match v {
        None => true,
        Some(Json::Null) => true,
        Some(Json::Str(_)) => true,
        _ => false,
    }
}

pub open spec fn opt_str_val(v: Option<Json>) -> Option<Seq<char>> {
    match v {
        Some(Json::Str(s)) => Some(s@),
        _ => None,
    }
}

/// A required string member.
pub open spec fn req_str_ok(v: Option<Json>) -> bool {
    v matches Some(Json::Str(_))
}

/// A string member that defaults to `dflt` when absent.
pub open spec fn dflt_str_ok(v: Option<Json>) -> bool {
    v is None || v matches Some(Json::Str(_))
}

pub open spec fn dflt_str_val(v: Option<Json>, dflt: Seq<char>) -> Seq<char> {
    match v {
        Some(Json::Str(s)) => s@,
        _ => dflt,
    }
}

/// An optional boolean member.
pub open spec fn opt_bool_ok(v: Option<Json>) -> bool {
    match v {
        None => true,
        Some(Json::Null) => true,
        Some(Json::Bool(_)) => true,
        _ => false,
    }
}

pub open spec fn opt_bool_val(v: Option<Json>) -> Option<bool> {
    match v {
        Some(Json::Bool(b)) => Some(b),
        _ => None,
    }
}

/// A boolean member that is `false` when absent.
pub open spec fn dflt_bool_ok(v: Option<Json>) -> bool {
    v is None || v matches Some(Json::Bool(_))
}

pub open spec fn dflt_bool_val(v: Option<Json>) -> bool {
    match v {
        Some(Json::Bool(b)) => b,
        _ => false,
    }
}

/// An optional non-negative integer member.
pub open spec fn opt_usize_ok(v: Option<Json>) -> bool {
    match v {
        None => true,
        Some(Json::Null) => true,
        Some(Json::Number(Numeric::Integer(n))) => 0 <= n <= usize::MAX,
        _ => false,
    }
}

pub open spec fn opt_usize_val(v: Option<Json>) -> Option<usize> {
    match v {
        Some(Json::Number(Numeric::Integer(n))) => Some(n as usize),
        _ => None,
    }
}

/// An optional integer member that fits in `i64`.
pub open spec fn opt_i64_ok(v: Option<Json>) -> bool {
    match v {
        None => true,
        Some(Json::Null) => true,
        Some(Json::Number(Numeric::Integer(n))) => i64::MIN <= n <= i64::MAX,
        _ => false,
    }
}

pub open spec fn opt_i64_val(v: Option<Json>) -> Option<i64> {
    match v {
        Some(Json::Number(Numeric::Integer(n))) => Some(n as i64),
        _ => None,
    }
}

/// A one-or-many member of strings: absent gives no item, a string gives
/// one item, an array of strings gives its items in order.
pub open spec fn one_or_many_ok(v: Option<Json>) -> bool {
    match v {
        None => true,
        Some(Json::Str(_)) => true,
        Some(Json::Array(items)) => forall|i: int| 0 <= i < items@.len() ==> #[trigger] items@[i] is Str,
        _ => false,
    }
}

pub open spec fn one_or_many_val(v: Option<Json>) -> Seq<Seq<char>> {
    match v {
        Some(Json::Str(s)) => seq![s@],
        Some(Json::Array(items)) => items@.map_values(|x: Json| x->Str_0@),
        _ => Seq::empty(),
    }
}

/// An object whose members all hold strings, under distinct names.
pub open spec fn str_map_ok(j: Json) -> bool {
    match j {
        Json::Object(fields) => keys_unique(fields@) && forall|i: int|
            0 <= i < fields@.len() ==> #[trigger] fields@[i].1 is Str,
        _ => false,
    }
}

/// The pairs of names and strings of such an object, in order.
pub open spec fn str_map_val(j: Json) -> Seq<(Seq<char>, Seq<char>)> {
    match j {
        Json::Object(fields) => fields@.map_values(|f: (String, Json)| (f.0@, f.1->Str_0@)),
        _ => Seq::empty(),
    }
}

/// An optional member holding such an object.
pub open spec fn opt_str_map_ok(v: Option<Json>) -> bool {
    match v {
        None => true,
        Some(Json::Null) => true,
        Some(j) => str_map_ok(j),
    }
}

/// The texts of a sequence of strings.
pub open spec fn str_list_view(v: Seq<String>) -> Seq<Seq<char>> {
    v.map_values(|s: String| s@)
}

/// The text of an optional string.
pub open spec fn opt_view(o: Option<String>) -> Option<Seq<char>> {
    match o {
        Some(s) => Some(s@),
        None => None,
    }
}

pub open spec fn pairs_view(v: Seq<(String, String)>) -> Seq<(Seq<char>, Seq<char>)> {
    v.map_values(|p: (String, String)| (p.0@, p.1@))
}

pub open spec fn opt_str_map_val(v: Option<Json>) -> Option<Seq<(Seq<char>, Seq<char>)>> {
    match v {
        Some(Json::Object(fields)) => Some(str_map_val(Json::Object(fields))),
        _ => None,
    }
}

/// The position of the first member named `key`.
pub fn find_key(fields: &Vec<(String, Json)>, key: &str) -> (r: Option<usize>)
    ensures
        match r {
            Some(i) => i < fields@.len() && fields@[i as int].0@ == key@ && lookup(fields@, key@)
                == Some(fields@[i as int].1),
            None => lookup(fields@, key@) is None,
        },
{
    let n = fields.len();
    let mut i: usize = 0;
    proof {
        assert(fields@.subrange(0, n as int) =~= fields@);
    }
    while i < n
        invariant
            n == fields@.len(),
            i <= n,
            lookup(fields@, key@) == lookup(fields@.subrange(i as int, n as int), key@),
        decreases n - i,
    {
        let ghost rest = fields@.subrange(i as int, n as int);
        if crate::text::str_eq(fields[i].0.as_str(), key) {
            return Some(i);
        }
        proof {
            assert(rest.drop_first() =~= fields@.subrange(i + 1, n as int));
        }
        i = i + 1;
    }
    None
}

/// The value of the first member named `key`, if any.
pub fn get<'a>(fields: &'a Vec<(String, Json)>, key: &str) -> (r: Option<&'a Json>)
    ensures
        match r {
            Some(v) => lookup(fields@, key@) == Some(*v),
            None => lookup(fields@, key@) is None,
        },
{
    match find_key(fields, key) {
        Some(i) => Some(&fields[i].1),
        None => None,
    }
}

/// Whether an object has a member named `key`.
pub fn contains_key(fields: &Vec<(String, Json)>, key: &str) -> (r: bool)
    ensures
        r == has_key(fields@, key@),
{
    find_key(fields, key).is_some()
}

/// Reads an optional string member.
pub fn opt_string(fields: &Vec<(String, Json)>, key: &str) -> (r: Result<Option<String>, ParseError>)
    ensures
        r is Ok <==> opt_str_ok(lookup(fields@, key@)),
        r is Ok ==> opt_view(r->Ok_0) == opt_str_val(lookup(fields@, key@)),
        r is Err ==> r->Err_0.is_field(key@),
{
    match get(fields, key) {
        None => Ok(None),
        Some(Json::Null) => Ok(None),
        Some(Json::Str(s)) => Ok(Some(s.clone())),
        Some(_) => Err(ParseError::field(key)),
    }
}

/// Reads a required string member.
pub fn req_string(fields: &Vec<(String, Json)>, key: &str) -> (r: Result<String, ParseError>)
    ensures
        r is Ok <==> req_str_ok(lookup(fields@, key@)),
        r is Ok ==> r->Ok_0@ == opt_str_val(lookup(fields@, key@))->Some_0,
        r is Err ==> r->Err_0.is_field(key@),
{
    match get(fields, key) {
        Some(Json::Str(s)) => Ok(s.clone()),
        _ => Err(ParseError::field(key)),
    }
}

/// Reads a string member that defaults to `dflt` when absent.
pub fn dflt_string(fields: &Vec<(String, Json)>, key: &str, dflt: &str) -> (r: Result<
    String,
    ParseError,
>)
    ensures
        r is Ok <==> dflt_str_ok(lookup(fields@, key@)),
        r is Ok ==> r->Ok_0@ == dflt_str_val(lookup(fields@, key@), dflt@),
        r is Err ==> r->Err_0.is_field(key@),
{
    match get(fields, key) {
        None => Ok(String::from_str(dflt)),
        Some(Json::Str(s)) => Ok(s.clone()),
        Some(_) => Err(ParseError::field(key)),
    }
}

/// Reads an optional boolean member.
pub fn opt_bool(fields: &Vec<(String, Json)>, key: &str) -> (r: Result<Option<bool>, ParseError>)
    ensures
        r is Ok <==> opt_bool_ok(lookup(fields@, key@)),
        r is Ok ==> r->Ok_0 == opt_bool_val(lookup(fields@, key@)),
        r is Err ==> r->Err_0.is_field(key@),
{
    match get(fields, key) {
        None => Ok(None),
        Some(Json::Null) => Ok(None),
        Some(Json::Bool(b)) => Ok(Some(*b)),
        Some(_) => Err(ParseError::field(key)),
    }
}

/// Reads a boolean member that is `false` when absent.
pub fn dflt_bool(fields: &Vec<(String, Json)>, key: &str) -> (r: Result<bool, ParseError>)
    ensures
        r is Ok <==> dflt_bool_ok(lookup(fields@, key@)),
        r is Ok ==> r->Ok_0 == dflt_bool_val(lookup(fields@, key@)),
        r is Err ==> r->Err_0.is_field(key@),
{
    match get(fields, key) {
        None => Ok(false),
        Some(Json::Bool(b)) => Ok(*b),
        Some(_) => Err(ParseError::field(key)),
    }
}

/// Reads an optional non-negative integer member.
pub fn opt_usize(fields: &Vec<(String, Json)>, key: &str) -> (r: Result<Option<usize>, ParseError>)
    ensures
        r is Ok <==> opt_usize_ok(lookup(fields@, key@)),
        r is Ok ==> r->Ok_0 == opt_usize_val(lookup(fields@, key@)),
        r is Err ==> r->Err_0.is_field(key@),
{
    match get(fields, key) {
        None => Ok(None),
        Some(Json::Null) => Ok(None),
        Some(Json::Number(Numeric::Integer(n))) => {
            if 0 <= *n && *n <= usize::MAX as i128 {
                Ok(Some(*n as usize))
            } else {
                Err(ParseError::field(key))
            }
        },
        Some(_) => Err(ParseError::field(key)),
    }
}

/// Reads an optional integer member that fits in `i64`.
pub fn opt_i64(fields: &Vec<(String, Json)>, key: &str) -> (r: Result<Option<i64>, ParseError>)
    ensures
        r is Ok <==> opt_i64_ok(lookup(fields@, key@)),
        r is Ok ==> r->Ok_0 == opt_i64_val(lookup(fields@, key@)),
        r is Err ==> r->Err_0.is_field(key@),
{
    match get(fields, key) {
        None => Ok(None),
        Some(Json::Null) => Ok(None),
        Some(Json::Number(Numeric::Integer(n))) => {
            if i64::MIN as i128 <= *n && *n <= i64::MAX as i128 {
                Ok(Some(*n as i64))
            } else {
                Err(ParseError::field(key))
            }
        },
        Some(_) => Err(ParseError::field(key)),
    }
}

/// Normalizes a one-or-many member of strings to the sequence of its items.
///
/// A bare string becomes the one-item sequence holding it; an array of
/// strings is taken verbatim, in order and with its duplicates; an absent
/// member is the empty sequence; any other shape is malformed.
pub fn one_or_many(fields: &Vec<(String, Json)>, key: &str) -> (r: Result<Vec<String>, ParseError>)
    ensures
        r is Ok <==> one_or_many_ok(lookup(fields@, key@)),
        r is Ok ==> str_list_view(r->Ok_0@) == one_or_many_val(lookup(fields@, key@)),
        r is Err ==> r->Err_0.is_field(key@),
{
    match get(fields, key) {
        None => Ok(Vec::new()),
        Some(Json::Str(s)) => {
            let mut out: Vec<String> = Vec::new();
            out.push(s.clone());
            proof {
                assert(str_list_view(out@) =~= seq![s@]);
            }
            Ok(out)
        },
        Some(Json::Array(items)) => {
            let mut out: Vec<String> = Vec::new();
            let mut i: usize = 0;
            while i < items.len()
                invariant
                    lookup(fields@, key@) == Some(Json::Array(*items)),
                    i <= items@.len(),
                    out@.len() == i,
                    forall|k: int| 0 <= k < i ==> items@[k] is Str,
                    forall|k: int| 0 <= k < i ==> #[trigger] out@[k]@ == items@[k]->Str_0@,
                decreases items@.len() - i,
            {
                match &items[i] {
                    Json::Str(s) => {
                        out.push(s.clone());
                    },
                    _ => {
                        proof {
                            assert(!(items@[i as int] is Str));
                            assert(!one_or_many_ok(lookup(fields@, key@)));
                        }
                        return Err(ParseError::field(key));
                    },
                }
                i = i + 1;
            }
            proof {
                assert(str_list_view(out@) =~= items@.map_values(|x: Json| x->Str_0@));
            }
            Ok(out)
        },
        Some(_) => Err(ParseError::field(key)),
    }
}

/// Whether no two members of a keyed sequence share a name.
pub fn has_unique_keys<T>(fields: &Vec<(String, T)>) -> (r: bool)
    ensures
        r == keys_unique(fields@),
{
    let n = fields.len();
    let mut j: usize = 0;
    while j < n
        invariant
            n == fields@.len(),
            j <= n,
            forall|a: int, b: int| 0 <= a < b < j ==> #[trigger] fields@[a].0@ != #[trigger] fields@[b].0@,
        decreases n - j,
    {
        let mut i: usize = 0;
        while i < j
            invariant
                n == fields@.len(),
                i <= j < n,
                forall|a: int| 0 <= a < i ==> #[trigger] fields@[a].0@ != fields@[j as int].0@,
            decreases j - i,
        {
            if fields[i].0 == fields[j].0 {
                return false;
            }
            i = i + 1;
        }
        j = j + 1;
    }
    true
}

/// Reads an object whose members all hold strings, under distinct names.
pub fn str_map(j: &Json, key: &str) -> (r: Result<Vec<(String, String)>, ParseError>)
    ensures
        r is Ok <==> str_map_ok(*j),
        r is Ok ==> pairs_view(r->Ok_0@) == str_map_val(*j),
        r is Err ==> r->Err_0.is_field(key@),
{
    match j {
        Json::Object(fields) => {
            if !has_unique_keys(fields) {
                return Err(ParseError::field(key));
            }
            let mut out: Vec<(String, String)> = Vec::new();
            let mut i: usize = 0;
            while i < fields.len()
                invariant
                    *j == Json::Object(*fields),
                    keys_unique(fields@),
                    i <= fields@.len(),
                    out@.len() == i,
                    forall|k: int| 0 <= k < i ==> fields@[k].1 is Str,
                    forall|k: int|
                        0 <= k < i ==> #[trigger] out@[k].0@ == fields@[k].0@ && out@[k].1@
                            == fields@[k].1->Str_0@,
                decreases fields@.len() - i,
            {
                match &fields[i].1 {
                    Json::Str(s) => {
                        let name = fields[i].0.clone();
                        let text = s.clone();
                        out.push((name, text));
                        proof {
                            assert(out@[i as int].0@ == fields@[i as int].0@);
                            assert(out@[i as int].1@ == fields@[i as int].1->Str_0@);
                        }
                    },
                    _ => {
                        proof {
                            assert(!(fields@[i as int].1 is Str));
                            assert(!str_map_ok(*j));
                        }
                        return Err(ParseError::field(key));
                    },
                }
                i = i + 1;
            }
            proof {
                assert(pairs_view(out@) =~= str_map_val(*j));
            }
            Ok(out)
        },
        _ => Err(ParseError::field(key)),
    }
}

/// Reads an optional member holding an object of strings.
pub fn opt_str_map(fields: &Vec<(String, Json)>, key: &str) -> (r: Result<
    Option<Vec<(String, String)>>,
    ParseError,
>)
    ensures
        r is Ok <==> opt_str_map_ok(lookup(fields@, key@)),
        r is Ok ==> match r->Ok_0 {
            Some(m) => opt_str_map_val(lookup(fields@, key@)) == Some(pairs_view(m@)),
            None => opt_str_map_val(lookup(fields@, key@)) is None,
        },
        r is Err ==> r->Err_0.is_field(key@),
{
    match get(fields, key) {
        None => Ok(None),
        Some(Json::Null) => Ok(None),
        Some(v) => match str_map(v, key) {
            Ok(m) => Ok(Some(m)),
            Err(e) => Err(e),
        },
    }
}

} // verus!
