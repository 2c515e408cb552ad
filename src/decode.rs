use vstd::prelude::*;

use crate::error::ParseError;
use crate::json::{
    json_view, lemma_array_view, lemma_object_view, numeric_view, Json, JsonView, Numeric,
    NumericView, MAX_DEPTH,
};

verus! {

#[verifier::external_type_specification]
#[verifier::external_body]
pub struct ExValue(serde_json::Value);

#[verifier::external_type_specification]
#[verifier::external_body]
pub struct ExNumber(serde_json::Number);

#[verifier::external_type_specification]
#[verifier::external_body]
pub struct ExError(serde_json::Error);

/// What serde_json reads from a text: the value it denotes, or `None`
/// where serde_json refuses the text. It depends on the text alone.
pub uninterp spec fn json_of(text: Seq<char>) -> Option<JsonView>;

/// What a value parsed by serde_json holds; the members of an object are
/// taken in the order in which serde_json's map hands them out.
pub uninterp spec fn value_view(v: serde_json::Value) -> JsonView;

/// What a number parsed by serde_json is: an integer where serde_json holds
/// one, else the text serde_json writes for it.
pub uninterp spec fn number_view(n: serde_json::Number) -> NumericView;

/// A value whose arrays and objects nest at most `d` levels deep.
pub open spec fn fits(j: JsonView, d: nat) -> bool
    decreases j,
{
    match j {
        JsonView::Array(items) => d > 0 && all_fit(items, (d - 1) as nat),
        JsonView::Object(fields) => d > 0 && all_members_fit(fields, (d - 1) as nat),
        _ => true,
    }
}

/// Every item fits in `d` levels.
pub open spec fn all_fit(items: Seq<JsonView>, d: nat) -> bool
    decreases items,
{
    if items.len() == 0 {
        true
    } else {
        fits(items[0], d) && all_fit(items.subrange(1, items.len() as int), d)
    }
}

/// The value of every member fits in `d` levels.
pub open spec fn all_members_fit(fields: Seq<(Seq<char>, JsonView)>, d: nat) -> bool
    decreases fields,
{
    if fields.len() == 0 {
        true
    } else {
        proof {
            assert(decreases_to!(fields => fields[0]));
            assert(decreases_to!(fields[0] => fields[0].1));
        }
        fits(fields[0].1, d) && all_members_fit(fields.subrange(1, fields.len() as int), d)
    }
}

/// `all_fit` is `fits` of each item.
pub proof fn lemma_all_fit(items: Seq<JsonView>, d: nat)
    ensures
        all_fit(items, d) <==> forall|i: int| 0 <= i < items.len() ==> #[trigger] fits(items[i], d),
    decreases items.len(),
{
    if items.len() > 0 {
        let rest = items.subrange(1, items.len() as int);
        lemma_all_fit(rest, d);
        if forall|i: int| 0 <= i < items.len() ==> #[trigger] fits(items[i], d) {
            assert forall|i: int| 0 <= i < rest.len() implies #[trigger] fits(rest[i], d) by {
                assert(rest[i] == items[i + 1]);
            }
            assert(fits(items[0], d));
        }
        if all_fit(items, d) {
            assert forall|i: int| 0 <= i < items.len() implies #[trigger] fits(items[i], d) by {
                if i > 0 {
                    assert(items[i] == rest[i - 1]);
                }
            }
        }
    }
}

/// `all_members_fit` is `fits` of each member's value.
pub proof fn lemma_all_members_fit(fields: Seq<(Seq<char>, JsonView)>, d: nat)
    ensures
        all_members_fit(fields, d) <==> forall|i: int|
            0 <= i < fields.len() ==> #[trigger] fits(fields[i].1, d),
    decreases fields.len(),
{
    if fields.len() > 0 {
        let rest = fields.subrange(1, fields.len() as int);
        lemma_all_members_fit(rest, d);
        if forall|i: int| 0 <= i < fields.len() ==> #[trigger] fits(fields[i].1, d) {
            assert forall|i: int| 0 <= i < rest.len() implies #[trigger] fits(rest[i].1, d) by {
                assert(rest[i] == fields[i + 1]);
            }
            assert(fits(fields[0].1, d));
        }
        if all_members_fit(fields, d) {
            assert forall|i: int| 0 <= i < fields.len() implies #[trigger] fits(fields[i].1, d) by {
                if i > 0 {
                    assert(fields[i] == rest[i - 1]);
                }
            }
        }
    }
}

pub open spec fn values_view(items: Seq<serde_json::Value>) -> Seq<JsonView> {
    items.map_values(|x: serde_json::Value| value_view(x))
}

pub open spec fn members_view(members: Seq<(String, serde_json::Value)>) -> Seq<
    (Seq<char>, JsonView),
> {
    members.map_values(|p: (String, serde_json::Value)| (p.0@, value_view(p.1)))
}

/// The outermost level of a parsed value; what it holds is still parsed.
enum Node {
    Null,
    Bool(bool),
    Number(serde_json::Number),
    Str(String),
    Array(Vec<serde_json::Value>),
    Object(Vec<(String, serde_json::Value)>),
}

/// Relies on serde_json::from_str, which parses JSON text into a value or
/// reports why the text is not JSON (too deep a nesting included).
#[verifier::external_body]
fn parse_value(text: &str) -> (r: Result<serde_json::Value, serde_json::Error>)
    ensures
        r is Ok <==> json_of(text@) is Some,
        r is Ok ==> value_view(r->Ok_0) == json_of(text@)->Some_0,
{
    serde_json::from_str(text)
}

/// Relies on the variants of serde_json::Value: each is moved into the
/// variant of `Node` of the same name; an object's map is turned into its
/// members through serde_json::Map's IntoIterator.
#[verifier::external_body]
fn unpack(v: serde_json::Value) -> (r: Node)
    ensures
        match r {
            Node::Null => value_view(v) == JsonView::Null,
            Node::Bool(b) => value_view(v) == JsonView::Bool(b),
            Node::Number(n) => value_view(v) == JsonView::Number(number_view(n)),
            Node::Str(s) => value_view(v) == JsonView::Str(s@),
            Node::Array(a) => value_view(v) == JsonView::Array(values_view(a@)),
            Node::Object(m) => value_view(v) == JsonView::Object(members_view(m@)),
        },
{
    match v {
        serde_json::Value::Null => Node::Null,
        serde_json::Value::Bool(b) => Node::Bool(b),
        serde_json::Value::Number(n) => Node::Number(n),
        serde_json::Value::String(s) => Node::Str(s),
        serde_json::Value::Array(a) => Node::Array(a),
        serde_json::Value::Object(m) => Node::Object(m.into_iter().collect()),
    }
}

/// Relies on serde_json::Number::as_u64: the number, where it is an integer
/// that fits in `u64`.
#[verifier::external_body]
fn number_as_u64(n: &serde_json::Number) -> (r: Option<u64>)
    ensures
        r is Some <==> (number_view(*n) is Integer && 0 <= number_view(*n)->Integer_0 <= u64::MAX),
        r is Some ==> r->Some_0 == number_view(*n)->Integer_0,
{
    n.as_u64()
}

/// Relies on serde_json::Number::as_i64: the number, where it is an integer
/// that fits in `i64`.
#[verifier::external_body]
fn number_as_i64(n: &serde_json::Number) -> (r: Option<i64>)
    ensures
        r is Some <==> (number_view(*n) is Integer && i64::MIN <= number_view(*n)->Integer_0
            <= i64::MAX),
        r is Some ==> r->Some_0 == number_view(*n)->Integer_0,
{
    n.as_i64()
}

/// Relies on serde_json::Number's Display: the text of the number. Every
/// integer serde_json holds fits in `i64` or `u64`; any other number is
/// seen as its text.
#[verifier::external_body]
fn number_text(n: &serde_json::Number) -> (r: String)
    ensures
        !(number_view(*n) is Integer && i64::MIN <= number_view(*n)->Integer_0 <= u64::MAX)
            ==> number_view(*n) == NumericView::Decimal(r@),
{
    n.to_string()
}

fn number_of(n: &serde_json::Number) -> (r: Numeric)
    ensures
        numeric_view(r) == number_view(*n),
{
    match number_as_u64(n) {
        Some(u) => Numeric::Integer(u as i128),
        None => match number_as_i64(n) {
            Some(i) => Numeric::Integer(i as i128),
            None => Numeric::Decimal(number_text(n)),
        },
    }
}

/// Converts a parsed value whose arrays and objects nest at most `depth`
/// levels deep; a deeper one is refused.
fn from_value(v: serde_json::Value, depth: usize) -> (r: Result<Json, ParseError>)
    ensures
        r is Ok <==> fits(value_view(v), depth as nat),
        r is Ok ==> json_view(r->Ok_0) == value_view(v),
        r is Err ==> r->Err_0 == ParseError::TooDeep,
    decreases depth,
{
    let ghost whole = value_view(v);
    match unpack(v) {
        Node::Null => Ok(Json::Null),
        Node::Bool(b) => Ok(Json::Bool(b)),
        Node::Number(n) => Ok(Json::Number(number_of(&n))),
        Node::Str(s) => Ok(Json::Str(s)),
        Node::Array(items) => {
            if depth == 0 {
                return Err(ParseError::TooDeep);
            }
            let ghost all = items@;
            proof {
                lemma_all_fit(values_view(all), (depth - 1) as nat);
            }
            let n = items.len();
            let mut rest = items;
            let mut out: Vec<Json> = Vec::new();
            let mut i: usize = 0;
            while i < n
                invariant
                    depth > 0,
                    whole == value_view(v),
                    whole == JsonView::Array(values_view(all)),
                    all_fit(values_view(all), (depth - 1) as nat) <==> forall|k: int|
                        0 <= k < all.len() ==> #[trigger] fits(values_view(all)[k], (depth - 1) as nat),
                    n == all.len(),
                    i <= n,
                    rest@ == all.subrange(i as int, n as int),
                    out@.len() == i,
                    forall|k: int| 0 <= k < i ==> fits(#[trigger] values_view(all)[k], (depth - 1) as nat),
                    forall|k: int| 0 <= k < i ==> #[trigger] json_view(out@[k]) == values_view(all)[k],
                decreases n - i,
            {
                let item = rest.remove(0);
                proof {
                    assert(item == all[i as int]);
                    assert(rest@ =~= all.subrange(i + 1, n as int));
                }
                match from_value(item, depth - 1) {
                    Ok(j) => out.push(j),
                    Err(e) => {
                        proof {
                            assert(values_view(all)[i as int] == value_view(all[i as int]));
                            assert(!all_fit(values_view(all), (depth - 1) as nat));
                        }
                        return Err(e);
                    },
                }
                i = i + 1;
            }
            proof {
                lemma_array_view(out@, values_view(all));
            }
            Ok(Json::Array(out))
        },
        Node::Object(members) => {
            if depth == 0 {
                return Err(ParseError::TooDeep);
            }
            let ghost all = members@;
            proof {
                lemma_all_members_fit(members_view(all), (depth - 1) as nat);
            }
            let n = members.len();
            let mut rest = members;
            let mut out: Vec<(String, Json)> = Vec::new();
            let mut i: usize = 0;
            while i < n
                invariant
                    depth > 0,
                    whole == value_view(v),
                    whole == JsonView::Object(members_view(all)),
                    all_members_fit(members_view(all), (depth - 1) as nat) <==> forall|k: int|
                        0 <= k < all.len() ==> #[trigger] fits(members_view(all)[k].1, (depth - 1) as nat),
                    n == all.len(),
                    i <= n,
                    rest@ == all.subrange(i as int, n as int),
                    out@.len() == i,
                    forall|k: int| 0 <= k < i ==> fits(#[trigger] members_view(all)[k].1, (depth - 1) as nat),
                    forall|k: int| 0 <= k < i ==> #[trigger] members_view(all)[k] == (out@[k].0@, json_view(out@[k].1)),
                decreases n - i,
            {
                let (name, item) = rest.remove(0);
                proof {
                    assert((name, item) == all[i as int]);
                    assert(rest@ =~= all.subrange(i + 1, n as int));
                }
                match from_value(item, depth - 1) {
                    Ok(j) => out.push((name, j)),
                    Err(e) => {
                        proof {
                            assert(members_view(all)[i as int].1 == value_view(all[i as int].1));
                            assert(!all_members_fit(members_view(all), (depth - 1) as nat));
                        }
                        return Err(e);
                    },
                }
                i = i + 1;
            }
            proof {
                lemma_object_view(out@, members_view(all));
            }
            Ok(Json::Object(out))
        },
    }
}

/// Parses JSON text into the library's model of it.
///
/// Text that serde_json refuses, too deep a nesting included, gives
/// `Syntax`; a value nesting deeper than `MAX_DEPTH` gives `TooDeep`.
pub fn parse_json(text: &str) -> (r: Result<Json, ParseError>)
    ensures
        json_of(text@) is None ==> r == Err::<Json, ParseError>(ParseError::Syntax),
        json_of(text@) is Some ==> (r is Ok <==> fits(json_of(text@)->Some_0, MAX_DEPTH as nat)),
        json_of(text@) is Some && r is Ok ==> json_view(r->Ok_0) == json_of(text@)->Some_0,
        json_of(text@) is Some && r is Err ==> r->Err_0 == ParseError::TooDeep,
{
    match parse_value(text) {
        Ok(v) => from_value(v, MAX_DEPTH),
        Err(_) => Err(ParseError::Syntax),
    }
}

} // verus!
