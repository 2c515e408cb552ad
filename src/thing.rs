use vstd::prelude::*;

use crate::error::ParseError;
use crate::decode::{fits, json_of};
pub use crate::hazard::Hazard;
use crate::json::{
    copy_json, dflt_bool, dflt_bool_ok, dflt_bool_val, dflt_str_ok, dflt_str_val, dflt_string, get,
    has_key, has_unique_keys, keys_of, keys_unique, lookup, one_or_many, one_or_many_ok,
    one_or_many_val, opt_bool, opt_bool_ok, opt_bool_val, opt_str_map, opt_str_map_ok, opt_str_map_val, opt_str_ok,
    opt_str_val, opt_string, opt_usize, opt_i64, opt_i64_ok, opt_i64_val, pairs_view, contains_key, opt_usize_ok, opt_usize_val, opt_view, req_str_ok,
    req_string, str_list_view, str_map, str_map_ok, str_map_val, json_view, items_view, lemma_items_view, lemma_array_view, Json, MAX_DEPTH,
};

verus! {

/// Texts keyed by language tag.
pub type MultiLanguage = Vec<(String, String)>;

/// Content type of a form that does not name one.
pub const DEFAULT_CONTENT_TYPE: &'static str = "application/json";

// ---------------------------------------------------------------------------
// The model
// ---------------------------------------------------------------------------

/// A concrete interaction endpoint.
#[derive(Debug)]
pub struct Form {
    pub href: String,
    pub content_type: String,
    pub content_coding: Option<String>,
}

#[derive(Debug)]
pub struct Link {
    pub href: String,
    pub rel: String,
}

/// A named, free-form security scheme.
#[derive(Debug)]
pub struct SecurityScheme {
    pub scheme: Vec<(String, String)>,
}

/// The part shared by every kind of schema.
#[derive(Debug)]
pub struct DataSchema {
    pub attype: Option<String>,
    pub title: Option<String>,
    pub titles: Option<MultiLanguage>,
    pub description: Option<String>,
    pub descriptions: Option<MultiLanguage>,
    pub data_type: Option<String>,
    pub const_value: Option<Json>,
    pub unit: Option<String>,
    pub one_of: Option<Vec<SchemaType>>,
    pub enumeration: Option<Vec<Json>>,
    pub read_only: Option<String>,
    pub write_only: Option<String>,
    pub format: Option<String>,
    pub hazards: Option<Hazard>,
}

#[derive(Debug)]
pub struct IntegerSchema {
    pub data_schema: DataSchema,
    pub maximum: Option<usize>,
    pub minimum: Option<usize>,
}

#[derive(Debug)]
pub struct ObjectSchema {
    pub data_schema: DataSchema,
    pub properties: Option<Vec<(String, SchemaType)>>,
    pub required: Option<Vec<String>>,
}

/// A schema, told apart by the members it has (see `classify_schema`).
#[derive(Debug)]
pub enum SchemaType {
    IntegerSchema(IntegerSchema),
    ObjectSchema(ObjectSchema),
}

/// Which kind of schema a fragment is read as.
#[derive(Clone, Copy, Debug, PartialEq, Eq, Structural)]
pub enum SchemaKind {
    Integer,
    Object,
}

/// The part shared by properties, actions and events.
#[derive(Debug)]
pub struct Affordance {
    pub attype: Vec<String>,
    pub title: Option<String>,
    pub titles: Option<MultiLanguage>,
    pub description: Option<String>,
    pub descriptions: Option<MultiLanguage>,
    pub forms: Vec<Form>,
    pub uri_variables: Vec<(String, SchemaType)>,
}

#[derive(Debug)]
pub struct Property {
    pub affordance: Affordance,
    pub schema: SchemaType,
    pub observable: Option<bool>,
}

#[derive(Debug)]
pub struct Action {
    pub affordance: Affordance,
    pub input: Option<SchemaType>,
    pub output: Option<SchemaType>,
    pub safe: bool,
    pub idempotent: bool,
}

#[derive(Debug)]
pub struct Event {
    pub affordance: Affordance,
    pub subscription: Option<DataSchema>,
    pub data: Option<DataSchema>,
    pub cancellation: Option<DataSchema>,
}

/// A connected thing, as its Thing Description describes it.
#[derive(Debug)]
pub struct Thing {
    pub context: Json,
    pub id: String,
    pub attype: Vec<String>,
    pub title: String,
    pub description: String,
    pub base: String,
    pub links: Vec<Link>,
    pub forms: Vec<Form>,
    pub properties: Vec<(String, Property)>,
    pub actions: Vec<(String, Action)>,
    pub events: Vec<(String, Event)>,
    pub security: Vec<String>,
    pub security_definitions: Vec<(String, SecurityScheme)>,
}

// ---------------------------------------------------------------------------
// What a well-formed document is
// ---------------------------------------------------------------------------

/// The kind of schema that a fragment with these members is read as: one
/// with a `minimum` member is an integer schema, any other an object schema.
pub open spec fn schema_kind(fields: Seq<(String, Json)>) -> SchemaKind {
    if has_key(fields, "minimum"@) {
        SchemaKind::Integer
    } else {
        SchemaKind::Object
    }
}

pub open spec fn the_kind(s: SchemaType) -> SchemaKind {
    match s {
        SchemaType::IntegerSchema(_) => SchemaKind::Integer,
        SchemaType::ObjectSchema(_) => SchemaKind::Object,
    }
}

/// The members of an object; no members for any other value.
pub open spec fn members_of(j: Json) -> Seq<(String, Json)> {
    match j {
        Json::Object(fields) => fields@,
        _ => Seq::empty(),
    }
}

/// The items of an array; none for any other value or for an absent one.
pub open spec fn list_items(v: Option<Json>) -> Seq<Json> {
    match v {
        Some(Json::Array(items)) => items@,
        _ => Seq::empty(),
    }
}

/// The members of an object; none for any other value or for an absent one.
pub open spec fn entries_of(v: Option<Json>) -> Seq<(String, Json)> {
    match v {
        Some(Json::Object(entries)) => entries@,
        _ => Seq::empty(),
    }
}

pub open spec fn form_ok(j: Json) -> bool {
    &&& j is Object
    &&& req_str_ok(lookup(members_of(j), "href"@))
    &&& dflt_str_ok(lookup(members_of(j), "contentType"@))
    &&& opt_str_ok(lookup(members_of(j), "contentCoding"@))
}

/// A list of forms: absent is no form.
pub open spec fn forms_ok(v: Option<Json>) -> bool {
    &&& (v is None || v matches Some(Json::Array(_)))
    &&& forall|i: int| 0 <= i < list_items(v).len() ==> #[trigger] form_ok(list_items(v)[i])
}

pub open spec fn link_ok(j: Json) -> bool {
    &&& j is Object
    &&& req_str_ok(lookup(members_of(j), "href"@))
    &&& req_str_ok(lookup(members_of(j), "rel"@))
}

/// A list of links: absent is no link.
pub open spec fn links_ok(v: Option<Json>) -> bool {
    &&& (v is None || v matches Some(Json::Array(_)))
    &&& forall|i: int| 0 <= i < list_items(v).len() ==> #[trigger] link_ok(list_items(v)[i])
}

pub open spec fn hazard_ok(j: Json) -> bool {
    &&& j is Object
    &&& req_str_ok(lookup(members_of(j), "@id"@))
    &&& req_str_ok(lookup(members_of(j), "name"@))
    &&& req_str_ok(lookup(members_of(j), "description"@))
    &&& opt_i64_ok(lookup(members_of(j), "riskScore"@))
}

pub open spec fn opt_hazard_ok(v: Option<Json>) -> bool {
    match v {
        None => true,
        Some(Json::Null) => true,
        Some(j) => hazard_ok(j),
    }
}

/// An optional list of strings.
pub open spec fn opt_str_list_ok(v: Option<Json>) -> bool {
    &&& (v is None || v matches Some(Json::Null) || v matches Some(Json::Array(_)))
    &&& forall|i: int| 0 <= i < list_items(v).len() ==> #[trigger] list_items(v)[i] is Str
}

/// An optional list of any values.
pub open spec fn opt_array_ok(v: Option<Json>) -> bool {
    match v {
        None => true,
        Some(Json::Null) => true,
        Some(Json::Array(_)) => true,
        _ => false,
    }
}

/// The members shared by every schema, other than the nested schemas of
/// `oneOf`.
pub open spec fn data_schema_plain_ok(f: Seq<(String, Json)>) -> bool {
    &&& opt_str_ok(lookup(f, "@type"@))
    &&& opt_str_ok(lookup(f, "title"@))
    &&& opt_str_map_ok(lookup(f, "titles"@))
    &&& opt_str_ok(lookup(f, "description"@))
    &&& opt_str_map_ok(lookup(f, "descriptions"@))
    &&& opt_str_ok(lookup(f, "type"@))
    &&& opt_str_ok(lookup(f, "unit"@))
    &&& opt_array_ok(lookup(f, "oneOf"@))
    &&& opt_array_ok(lookup(f, "enum"@))
    &&& opt_str_ok(lookup(f, "ReadOnly"@))
    &&& opt_str_ok(lookup(f, "WriteOnly"@))
    &&& opt_str_ok(lookup(f, "format"@))
    &&& opt_hazard_ok(lookup(f, "hazards"@))
}

/// A schema whose nested schemas go at most `d` levels deep.
pub open spec fn schema_ok(j: Json, d: nat) -> bool
    decreases d, 0nat,
{
    if d == 0 {
        false
    } else {
        match j {
            Json::Object(fields) => {
                let f = fields@;
                let props = lookup(f, "properties"@);
                &&& data_schema_plain_ok(f)
                &&& schemas_ok(list_items(lookup(f, "oneOf"@)), (d - 1) as nat)
                &&& if has_key(f, "minimum"@) {
                    &&& opt_usize_ok(lookup(f, "minimum"@))
                    &&& opt_usize_ok(lookup(f, "maximum"@))
                } else {
                    &&& (props is None || props matches Some(Json::Null) || props matches Some(
                        Json::Object(_),
                    ))
                    &&& keys_unique(entries_of(props))
                    &&& schemas_ok(entry_values(entries_of(props)), (d - 1) as nat)
                    &&& opt_str_list_ok(lookup(f, "required"@))
                }
            },
            _ => false,
        }
    }
}

/// Every one of `items` is a schema nesting at most `d` levels deep.
pub open spec fn schemas_ok(items: Seq<Json>, d: nat) -> bool
    decreases d, items.len(),
{
    if items.len() == 0 {
        true
    } else {
        schema_ok(items[0], d) && schemas_ok(items.drop_first(), d)
    }
}

/// The values of the members, in order.
pub open spec fn entry_values(e: Seq<(String, Json)>) -> Seq<Json> {
    e.map_values(|p: (String, Json)| p.1)
}

/// `schemas_ok` is `schema_ok` of each item.
pub proof fn lemma_schemas_ok(items: Seq<Json>, d: nat)
    ensures
        schemas_ok(items, d) <==> forall|i: int| 0 <= i < items.len() ==> #[trigger] schema_ok(items[i], d),
    decreases items.len(),
{
    if items.len() > 0 {
        let rest = items.drop_first();
        lemma_schemas_ok(rest, d);
        if schemas_ok(items, d) {
            assert forall|i: int| 0 <= i < items.len() implies #[trigger] schema_ok(items[i], d) by {
                if i > 0 {
                    assert(items[i] == rest[i - 1]);
                }
            }
        }
        if forall|i: int| 0 <= i < items.len() ==> #[trigger] schema_ok(items[i], d) {
            assert forall|i: int| 0 <= i < rest.len() implies #[trigger] schema_ok(rest[i], d) by {
                assert(rest[i] == items[i + 1]);
            }
            assert(schema_ok(items[0], d));
        }
    }
}

/// The members shared by every schema, with schemas nested in them at most
/// `d` levels deep.
pub open spec fn data_schema_ok(f: Seq<(String, Json)>, d: nat) -> bool {
    let alts = list_items(lookup(f, "oneOf"@));
    &&& data_schema_plain_ok(f)
    &&& forall|i: int| 0 <= i < alts.len() ==> #[trigger] schema_ok(alts[i], d)
}

/// An optional object of schemas under distinct names.
pub open spec fn schema_map_ok(v: Option<Json>, d: nat) -> bool {
    &&& (v is None || v matches Some(Json::Null) || v matches Some(Json::Object(_)))
    &&& keys_unique(entries_of(v))
    &&& forall|i: int| 0 <= i < entries_of(v).len() ==> #[trigger] schema_ok(entries_of(v)[i].1, d)
}

pub open spec fn opt_schema_ok(v: Option<Json>, d: nat) -> bool {
    match v {
        None => true,
        Some(Json::Null) => true,
        Some(j) => schema_ok(j, d),
    }
}

pub open spec fn opt_data_schema_ok(v: Option<Json>, d: nat) -> bool {
    match v {
        None => true,
        Some(Json::Null) => true,
        Some(Json::Object(f)) => data_schema_ok(f@, d),
        _ => false,
    }
}

pub open spec fn affordance_ok(f: Seq<(String, Json)>, d: nat) -> bool {
    &&& one_or_many_ok(lookup(f, "@type"@))
    &&& opt_str_ok(lookup(f, "title"@))
    &&& opt_str_map_ok(lookup(f, "titles"@))
    &&& opt_str_ok(lookup(f, "description"@))
    &&& opt_str_map_ok(lookup(f, "descriptions"@))
    &&& forms_ok(lookup(f, "forms"@))
    &&& schema_map_ok(lookup(f, "uriVariables"@), d)
}

pub open spec fn property_ok(j: Json, d: nat) -> bool {
    &&& j is Object
    &&& affordance_ok(members_of(j), d)
    &&& schema_ok(j, d)
    &&& opt_bool_ok(lookup(members_of(j), "observable"@))
}

pub open spec fn action_ok(j: Json, d: nat) -> bool {
    &&& j is Object
    &&& affordance_ok(members_of(j), d)
    &&& opt_schema_ok(lookup(members_of(j), "input"@), d)
    &&& opt_schema_ok(lookup(members_of(j), "output"@), d)
    &&& dflt_bool_ok(lookup(members_of(j), "safe"@))
    &&& dflt_bool_ok(lookup(members_of(j), "idempotent"@))
}

pub open spec fn event_ok(j: Json, d: nat) -> bool {
    &&& j is Object
    &&& affordance_ok(members_of(j), d)
    &&& opt_data_schema_ok(lookup(members_of(j), "subscription"@), d)
    &&& opt_data_schema_ok(lookup(members_of(j), "data"@), d)
    &&& opt_data_schema_ok(lookup(members_of(j), "cancellation"@), d)
}

/// The three kinds of affordance collections.
#[derive(Clone, Copy, Debug, PartialEq, Eq, Structural)]
pub enum AffordanceKind {
    Property,
    Action,
    Event,
}

pub open spec fn affordance_entry_ok(kind: AffordanceKind, j: Json, d: nat) -> bool {
    match kind {
        AffordanceKind::Property => property_ok(j, d),
        AffordanceKind::Action => action_ok(j, d),
        AffordanceKind::Event => event_ok(j, d),
    }
}

/// A collection of affordances under distinct names: absent is empty.
pub open spec fn collection_ok(v: Option<Json>, kind: AffordanceKind, d: nat) -> bool {
    &&& (v is None || v matches Some(Json::Object(_)))
    &&& keys_unique(entries_of(v))
    &&& forall|i: int|
        0 <= i < entries_of(v).len() ==> #[trigger] affordance_entry_ok(kind, entries_of(v)[i].1, d)
}

pub open spec fn security_definitions_ok(v: Option<Json>) -> bool {
    &&& v matches Some(Json::Object(_))
    &&& keys_unique(entries_of(v))
    &&& forall|i: int| 0 <= i < entries_of(v).len() ==> #[trigger] str_map_ok(entries_of(v)[i].1)
}

/// A Thing Description whose schemas nest at most `MAX_DEPTH` levels deep.
pub open spec fn thing_ok(j: Json) -> bool {
    let f = members_of(j);
    let d = MAX_DEPTH as nat;
    &&& j is Object
    &&& has_key(f, "@context"@)
    &&& dflt_str_ok(lookup(f, "id"@))
    &&& one_or_many_ok(lookup(f, "@type"@))
    &&& req_str_ok(lookup(f, "title"@))
    &&& dflt_str_ok(lookup(f, "description"@))
    &&& dflt_str_ok(lookup(f, "base"@))
    &&& links_ok(lookup(f, "links"@))
    &&& forms_ok(lookup(f, "forms"@))
    &&& collection_ok(lookup(f, "properties"@), AffordanceKind::Property, d)
    &&& collection_ok(lookup(f, "actions"@), AffordanceKind::Action, d)
    &&& collection_ok(lookup(f, "events"@), AffordanceKind::Event, d)
    &&& one_or_many_ok(lookup(f, "security"@))
    &&& security_definitions_ok(lookup(f, "securityDefinitions"@))
}


// ---------------------------------------------------------------------------
// What a normalized value holds
// ---------------------------------------------------------------------------

pub open spec fn opt_pairs_view(o: Option<MultiLanguage>) -> Option<Seq<(Seq<char>, Seq<char>)>> {
    match o {
        Some(m) => Some(pairs_view(m@)),
        None => None,
    }
}

pub open spec fn form_matches(form: Form, j: Json) -> bool {
    let f = members_of(j);
    &&& form.href@ == opt_str_val(lookup(f, "href"@))->Some_0
    &&& form.content_type@ == dflt_str_val(lookup(f, "contentType"@), "application/json"@)
    &&& opt_view(form.content_coding) == opt_str_val(lookup(f, "contentCoding"@))
}

pub open spec fn forms_match(forms: Seq<Form>, items: Seq<Json>) -> bool {
    &&& forms.len() == items.len()
    &&& forall|i: int| 0 <= i < items.len() ==> #[trigger] form_matches(forms[i], items[i])
}

pub open spec fn link_matches(link: Link, j: Json) -> bool {
    let f = members_of(j);
    &&& link.href@ == opt_str_val(lookup(f, "href"@))->Some_0
    &&& link.rel@ == opt_str_val(lookup(f, "rel"@))->Some_0
}

pub open spec fn hazard_matches(h: Hazard, j: Json) -> bool {
    let f = members_of(j);
    &&& h.id@ == opt_str_val(lookup(f, "@id"@))->Some_0
    &&& h.name@ == opt_str_val(lookup(f, "name"@))->Some_0
    &&& h.description@ == opt_str_val(lookup(f, "description"@))->Some_0
    &&& h.risk_score == opt_i64_val(lookup(f, "riskScore"@))
}

// ---------------------------------------------------------------------------
// Normalization
// ---------------------------------------------------------------------------

/// The content type of a form that does not name one.
pub fn default_content_type() -> (r: String)
    ensures
        r@ == "application/json"@,
{
    String::from_str(DEFAULT_CONTENT_TYPE)
}

/// Reads a form; a missing content type is `application/json`.
pub fn parse_form(j: &Json) -> (r: Result<Form, ParseError>)
    ensures
        r is Ok <==> form_ok(*j),
        r is Ok ==> form_matches(r->Ok_0, *j),
{
    match j {
        Json::Object(f) => {
            let href = match req_string(f, "href") {
                Ok(v) => v,
                Err(e) => {
                    return Err(e);
                },
            };
            let content_type = match get(f, "contentType") {
                None => default_content_type(),
                Some(Json::Str(s)) => s.clone(),
                Some(_) => {
                    return Err(ParseError::field("contentType"));
                },
            };
            let content_coding = match opt_string(f, "contentCoding") {
                Ok(v) => v,
                Err(e) => {
                    return Err(e);
                },
            };
            Ok(Form { href, content_type, content_coding })
        },
        _ => Err(ParseError::field("forms")),
    }
}

/// Reads the `forms` member: absent is no form.
pub fn parse_forms(fields: &Vec<(String, Json)>) -> (r: Result<Vec<Form>, ParseError>)
    ensures
        r is Ok <==> forms_ok(lookup(fields@, "forms"@)),
        r is Ok ==> forms_match(r->Ok_0@, list_items(lookup(fields@, "forms"@))),
{
    match get(fields, "forms") {
        None => Ok(Vec::new()),
        Some(Json::Array(items)) => {
            let mut out: Vec<Form> = Vec::new();
            let mut i: usize = 0;
            while i < items.len()
                invariant
                    lookup(fields@, "forms"@) == Some(Json::Array(*items)),
                    list_items(lookup(fields@, "forms"@)) == items@,
                    i <= items@.len(),
                    out@.len() == i,
                    forall|k: int| 0 <= k < i ==> #[trigger] form_ok(items@[k]),
                    forall|k: int| 0 <= k < i ==> #[trigger] form_matches(out@[k], items@[k]),
                decreases items@.len() - i,
            {
                match parse_form(&items[i]) {
                    Ok(form) => out.push(form),
                    Err(e) => {
                        proof {
                            assert(list_items(lookup(fields@, "forms"@)) == items@);
                            assert(!form_ok(items@[i as int]));
                        }
                        return Err(e);
                    },
                }
                i = i + 1;
            }
            Ok(out)
        },
        Some(_) => Err(ParseError::field("forms")),
    }
}

pub fn parse_link(j: &Json) -> (r: Result<Link, ParseError>)
    ensures
        r is Ok <==> link_ok(*j),
        r is Ok ==> link_matches(r->Ok_0, *j),
{
    match j {
        Json::Object(f) => {
            let href = match req_string(f, "href") {
                Ok(v) => v,
                Err(e) => {
                    return Err(e);
                },
            };
            let rel = match req_string(f, "rel") {
                Ok(v) => v,
                Err(e) => {
                    return Err(e);
                },
            };
            Ok(Link { href, rel })
        },
        _ => Err(ParseError::field("links")),
    }
}

/// Reads the `links` member: absent is no link.
pub fn parse_links(fields: &Vec<(String, Json)>) -> (r: Result<Vec<Link>, ParseError>)
    ensures
        r is Ok <==> links_ok(lookup(fields@, "links"@)),
        r is Ok ==> r->Ok_0@.len() == list_items(lookup(fields@, "links"@)).len(),
        r is Ok ==> forall|i: int|
            0 <= i < r->Ok_0@.len() ==> #[trigger] link_matches(
                r->Ok_0@[i],
                list_items(lookup(fields@, "links"@))[i],
            ),
{
    match get(fields, "links") {
        None => Ok(Vec::new()),
        Some(Json::Array(items)) => {
            let mut out: Vec<Link> = Vec::new();
            let mut i: usize = 0;
            while i < items.len()
                invariant
                    lookup(fields@, "links"@) == Some(Json::Array(*items)),
                    list_items(lookup(fields@, "links"@)) == items@,
                    i <= items@.len(),
                    out@.len() == i,
                    forall|k: int| 0 <= k < i ==> #[trigger] link_ok(items@[k]),
                    forall|k: int| 0 <= k < i ==> #[trigger] link_matches(out@[k], items@[k]),
                decreases items@.len() - i,
            {
                match parse_link(&items[i]) {
                    Ok(link) => out.push(link),
                    Err(e) => {
                        proof {
                            assert(list_items(lookup(fields@, "links"@)) == items@);
                            assert(!link_ok(items@[i as int]));
                        }
                        return Err(e);
                    },
                }
                i = i + 1;
            }
            Ok(out)
        },
        Some(_) => Err(ParseError::field("links")),
    }
}

/// Reads a hazard attached to a schema.
pub fn parse_hazard(j: &Json) -> (r: Result<Hazard, ParseError>)
    ensures
        r is Ok <==> hazard_ok(*j),
        r is Ok ==> hazard_matches(r->Ok_0, *j),
{
    match j {
        Json::Object(f) => {
            let id = match req_string(f, "@id") {
                Ok(v) => v,
                Err(e) => {
                    return Err(e);
                },
            };
            let name = match req_string(f, "name") {
                Ok(v) => v,
                Err(e) => {
                    return Err(e);
                },
            };
            let description = match req_string(f, "description") {
                Ok(v) => v,
                Err(e) => {
                    return Err(e);
                },
            };
            let risk_score = match opt_i64(f, "riskScore") {
                Ok(v) => v,
                Err(e) => {
                    return Err(e);
                },
            };
            Ok(Hazard::new(id, name, description, risk_score))
        },
        _ => Err(ParseError::field("hazards")),
    }
}

/// Tells which kind of schema a fragment with these members is read as.
///
/// The fragment carries no tag that says so: one with a `minimum` member is
/// read as an integer schema, every other one as an object schema, even where
/// that is not what its author meant.
pub fn classify_schema(fields: &Vec<(String, Json)>) -> (r: SchemaKind)
    ensures
        r == schema_kind(fields@),
        r == SchemaKind::Integer <==> has_key(fields@, "minimum"@),
{
    if contains_key(fields, "minimum") {
        SchemaKind::Integer
    } else {
        SchemaKind::Object
    }
}


pub open spec fn opt_str_list_val(v: Option<Json>) -> Option<Seq<Seq<char>>> {
    match v {
        Some(Json::Array(items)) => Some(items@.map_values(|x: Json| x->Str_0@)),
        _ => None,
    }
}

pub open spec fn opt_str_list_view(o: Option<Vec<String>>) -> Option<Seq<Seq<char>>> {
    match o {
        Some(v) => Some(str_list_view(v@)),
        None => None,
    }
}

/// The schemas of a keyed sequence, in order.
pub open spec fn schema_values(s: Seq<(String, SchemaType)>) -> Seq<SchemaType> {
    s.map_values(|p: (String, SchemaType)| p.1)
}

/// The number of `oneOf` alternatives a schema holds.
pub open spec fn one_of_len(ds: DataSchema) -> nat {
    match ds.one_of {
        Some(alts) => alts@.len(),
        None => 0,
    }
}

/// Each schema of `ss` is read from the value at the same place in `js`,
/// with `d` levels of nesting to spare.
pub open spec fn schemas_match(ss: Seq<SchemaType>, js: Seq<Json>, d: nat) -> bool
    decreases d, ss.len() + 1,
{
    if ss.len() == 0 {
        js.len() == 0
    } else {
        &&& js.len() > 0
        &&& schema_matches(ss[0], js[0], d)
        &&& schemas_match(ss.subrange(1, ss.len() as int), js.subrange(1, js.len() as int), d)
    }
}

/// Nested schemas under the same names, each read from the value of its
/// member.
pub open spec fn schema_entries_match(
    s: Seq<(String, SchemaType)>,
    e: Seq<(String, Json)>,
    d: nat,
) -> bool {
    &&& keys_of(s) == keys_of(e)
    &&& schemas_match(schema_values(s), entry_values(e), d)
}

pub open spec fn opt_schema_entries_match(
    o: Option<Vec<(String, SchemaType)>>,
    v: Option<Json>,
    d: nat,
) -> bool {
    match o {
        Some(s) => v matches Some(Json::Object(_)) && schema_entries_match(s@, entries_of(v), d),
        None => !(v matches Some(Json::Object(_))),
    }
}

/// What the shared members of a schema read from `f` hold; `oneOf`
/// alternatives are read with `d` levels of nesting to spare.
pub open spec fn data_schema_matches(ds: DataSchema, f: Seq<(String, Json)>, d: nat) -> bool
    decreases d, one_of_len(ds) + 2,
{
    &&& opt_view(ds.attype) == opt_str_val(lookup(f, "@type"@))
    &&& opt_view(ds.title) == opt_str_val(lookup(f, "title"@))
    &&& opt_pairs_view(ds.titles) == opt_str_map_val(lookup(f, "titles"@))
    &&& opt_view(ds.description) == opt_str_val(lookup(f, "description"@))
    &&& opt_pairs_view(ds.descriptions) == opt_str_map_val(lookup(f, "descriptions"@))
    &&& opt_view(ds.data_type) == opt_str_val(lookup(f, "type"@))
    &&& match ds.const_value {
        Some(c) => lookup(f, "const"@) is Some && !(lookup(f, "const"@) matches Some(Json::Null))
            && json_view(c) == json_view(lookup(f, "const"@)->Some_0),
        None => lookup(f, "const"@) is None || lookup(f, "const"@) matches Some(Json::Null),
    }
    &&& opt_view(ds.unit) == opt_str_val(lookup(f, "unit"@))
    &&& match ds.one_of {
        Some(alts) => {
            &&& lookup(f, "oneOf"@) matches Some(Json::Array(_))
            &&& schemas_match(alts@, list_items(lookup(f, "oneOf"@)), d)
        },
        None => !(lookup(f, "oneOf"@) matches Some(Json::Array(_))),
    }
    &&& match ds.enumeration {
        Some(vals) => lookup(f, "enum"@) matches Some(Json::Array(_)) && items_view(vals@)
            == items_view(list_items(lookup(f, "enum"@))),
        None => !(lookup(f, "enum"@) matches Some(Json::Array(_))),
    }
    &&& opt_view(ds.read_only) == opt_str_val(lookup(f, "ReadOnly"@))
    &&& opt_view(ds.write_only) == opt_str_val(lookup(f, "WriteOnly"@))
    &&& opt_view(ds.format) == opt_str_val(lookup(f, "format"@))
    &&& match ds.hazards {
        Some(h) => lookup(f, "hazards"@) matches Some(Json::Object(_)) && hazard_matches(h, lookup(f, "hazards"@)->Some_0),
        None => !(lookup(f, "hazards"@) matches Some(Json::Object(_))),
    }
}

/// What a schema read from `j` with a nesting budget of `d` holds: its
/// kind, its shared members, and the members of its kind, nested schemas
/// included.
pub open spec fn schema_matches(s: SchemaType, j: Json, d: nat) -> bool
    decreases d, 0nat,
{
    let f = members_of(j);
    &&& d > 0
    &&& the_kind(s) == schema_kind(f)
    &&& match s {
        SchemaType::IntegerSchema(i) => {
            &&& data_schema_matches(i.data_schema, f, (d - 1) as nat)
            &&& i.minimum == opt_usize_val(lookup(f, "minimum"@))
            &&& i.maximum == opt_usize_val(lookup(f, "maximum"@))
        },
        SchemaType::ObjectSchema(o) => {
            let props = lookup(f, "properties"@);
            &&& data_schema_matches(o.data_schema, f, (d - 1) as nat)
            &&& match o.properties {
                Some(ps) => {
                    &&& props matches Some(Json::Object(_))
                    &&& keys_of(ps@) == keys_of(entries_of(props))
                    &&& schemas_match(
                        schema_values(ps@),
                        entry_values(entries_of(props)),
                        (d - 1) as nat,
                    )
                },
                None => !(props matches Some(Json::Object(_))),
            }
            &&& opt_str_list_view(o.required) == opt_str_list_val(lookup(f, "required"@))
        },
    }
}

/// `schemas_match` is `schema_matches` at each place.
pub proof fn lemma_schemas_match(ss: Seq<SchemaType>, js: Seq<Json>, d: nat)
    ensures
        schemas_match(ss, js, d) <==> (ss.len() == js.len() && forall|i: int|
            0 <= i < ss.len() ==> #[trigger] schema_matches(ss[i], js[i], d)),
    decreases ss.len(),
{
    if ss.len() > 0 && js.len() > 0 {
        let ss1 = ss.subrange(1, ss.len() as int);
        let js1 = js.subrange(1, js.len() as int);
        lemma_schemas_match(ss1, js1, d);
        if ss.len() == js.len() && forall|i: int|
            0 <= i < ss.len() ==> #[trigger] schema_matches(ss[i], js[i], d) {
            assert forall|i: int| 0 <= i < ss1.len() implies #[trigger] schema_matches(
                ss1[i],
                js1[i],
                d,
            ) by {
                assert(ss1[i] == ss[i + 1] && js1[i] == js[i + 1]);
            }
            assert(schema_matches(ss[0], js[0], d));
        }
        if schemas_match(ss, js, d) {
            assert forall|i: int| 0 <= i < ss.len() implies #[trigger] schema_matches(
                ss[i],
                js[i],
                d,
            ) by {
                if i > 0 {
                    assert(ss[i] == ss1[i - 1] && js[i] == js1[i - 1]);
                }
            }
        }
    }
}

/// Reads an optional list of strings.
fn opt_string_list(fields: &Vec<(String, Json)>, key: &str) -> (r: Result<
    Option<Vec<String>>,
    ParseError,
>)
    ensures
        r is Ok <==> opt_str_list_ok(lookup(fields@, key@)),
        r is Ok ==> opt_str_list_view(r->Ok_0) == opt_str_list_val(lookup(fields@, key@)),
{
    match get(fields, key) {
        None => Ok(None),
        Some(Json::Null) => Ok(None),
        Some(Json::Array(items)) => {
            let mut out: Vec<String> = Vec::new();
            let mut i: usize = 0;
            while i < items.len()
                invariant
                    lookup(fields@, key@) == Some(Json::Array(*items)),
                    list_items(lookup(fields@, key@)) == items@,
                    i <= items@.len(),
                    out@.len() == i,
                    forall|k: int| 0 <= k < i ==> #[trigger] items@[k] is Str,
                    forall|k: int| 0 <= k < i ==> #[trigger] out@[k]@ == items@[k]->Str_0@,
                decreases items@.len() - i,
            {
                match &items[i] {
                    Json::Str(s) => out.push(s.clone()),
                    _ => {
                        proof {
                            assert(!(list_items(lookup(fields@, key@))[i as int] is Str));
                        }
                        return Err(ParseError::field(key));
                    },
                }
                i = i + 1;
            }
            proof {
                assert(str_list_view(out@) =~= items@.map_values(|x: Json| x->Str_0@));
            }
            Ok(Some(out))
        },
        Some(_) => Err(ParseError::field(key)),
    }
}

/// Reads an object of schemas under distinct names; absent or null is `None`.
pub fn parse_schema_map(fields: &Vec<(String, Json)>, key: &str, d: usize) -> (r: Result<
    Option<Vec<(String, SchemaType)>>,
    ParseError,
>)
    ensures
        r is Ok <==> schema_map_ok(lookup(fields@, key@), d as nat),
        r is Ok ==> opt_schema_entries_match(r->Ok_0, lookup(fields@, key@), d as nat),
    decreases d, 1nat,
{
    match get(fields, key) {
        None => Ok(None),
        Some(Json::Null) => Ok(None),
        Some(Json::Object(entries)) => {
            if !has_unique_keys(entries) {
                return Err(ParseError::field(key));
            }
            let mut out: Vec<(String, SchemaType)> = Vec::new();
            let mut i: usize = 0;
            while i < entries.len()
                invariant
                    lookup(fields@, key@) == Some(Json::Object(*entries)),
                    entries_of(lookup(fields@, key@)) == entries@,
                    keys_unique(entries@),
                    i <= entries@.len(),
                    out@.len() == i,
                    forall|k: int| 0 <= k < i ==> #[trigger] schema_ok(entries@[k].1, d as nat),
                    forall|k: int| 0 <= k < i ==> #[trigger] out@[k].0@ == entries@[k].0@,
                    forall|k: int|
                        0 <= k < i ==> #[trigger] schema_matches(out@[k].1, entries@[k].1, d as nat),
                decreases entries@.len() - i,
            {
                match parse_schema(&entries[i].1, d) {
                    Ok(sch) => {
                        out.push((entries[i].0.clone(), sch));
                    },
                    Err(e) => {
                        proof {
                            assert(!schema_ok(entries_of(lookup(fields@, key@))[i as int].1, d as nat));
                        }
                        return Err(e);
                    },
                }
                i = i + 1;
            }
            proof {
                assert(keys_of(out@) =~= keys_of(entries@));
                let sv = schema_values(out@);
                let ev = entry_values(entries@);
                lemma_schemas_match(sv, ev, d as nat);
                assert forall|k: int| 0 <= k < sv.len() implies #[trigger] schema_matches(
                    sv[k],
                    ev[k],
                    d as nat,
                ) by {
                    assert(sv[k] == out@[k].1 && ev[k] == entries@[k].1);
                }
            }
            Ok(Some(out))
        },
        Some(_) => Err(ParseError::field(key)),
    }
}

/// Reads the members shared by every schema.
pub fn parse_data_schema(f: &Vec<(String, Json)>, d: usize) -> (r: Result<DataSchema, ParseError>)
    ensures
        r is Ok <==> data_schema_ok(f@, d as nat),
        r is Ok ==> data_schema_matches(r->Ok_0, f@, d as nat),
    decreases d, 1nat,
{
    let attype = match opt_string(f, "@type") {
        Ok(v) => v,
        Err(e) => {
            return Err(e);
        },
    };
    let title = match opt_string(f, "title") {
        Ok(v) => v,
        Err(e) => {
            return Err(e);
        },
    };
    let titles = match opt_str_map(f, "titles") {
        Ok(v) => v,
        Err(e) => {
            return Err(e);
        },
    };
    let description = match opt_string(f, "description") {
        Ok(v) => v,
        Err(e) => {
            return Err(e);
        },
    };
    let descriptions = match opt_str_map(f, "descriptions") {
        Ok(v) => v,
        Err(e) => {
            return Err(e);
        },
    };
    let data_type = match opt_string(f, "type") {
        Ok(v) => v,
        Err(e) => {
            return Err(e);
        },
    };
    let const_value = match get(f, "const") {
        None => None,
        Some(Json::Null) => None,
        Some(v) => Some(copy_json(v)),
    };
    let unit = match opt_string(f, "unit") {
        Ok(v) => v,
        Err(e) => {
            return Err(e);
        },
    };
    let one_of = match get(f, "oneOf") {
        None => None,
        Some(Json::Null) => None,
        Some(Json::Array(items)) => {
            let mut out: Vec<SchemaType> = Vec::new();
            let mut i: usize = 0;
            while i < items.len()
                invariant
                    lookup(f@, "oneOf"@) == Some(Json::Array(*items)),
                    list_items(lookup(f@, "oneOf"@)) == items@,
                    i <= items@.len(),
                    out@.len() == i,
                    forall|k: int| 0 <= k < i ==> #[trigger] schema_ok(items@[k], d as nat),
                    forall|k: int| 0 <= k < i ==> #[trigger] schema_matches(out@[k], items@[k], d as nat),
                decreases items@.len() - i,
            {
                match parse_schema(&items[i], d) {
                    Ok(sch) => out.push(sch),
                    Err(e) => {
                        proof {
                            assert(!schema_ok(list_items(lookup(f@, "oneOf"@))[i as int], d as nat));
                        }
                        return Err(e);
                    },
                }
                i = i + 1;
            }
            proof {
                lemma_schemas_match(out@, items@, d as nat);
            }
            Some(out)
        },
        Some(_) => {
            return Err(ParseError::field("oneOf"));
        },
    };
    let enumeration = match get(f, "enum") {
        None => None,
        Some(Json::Null) => None,
        Some(Json::Array(items)) => {
            let mut out: Vec<Json> = Vec::new();
            let mut i: usize = 0;
            while i < items.len()
                invariant
                    i <= items@.len(),
                    out@.len() == i,
                    forall|k: int| 0 <= k < i ==> #[trigger] json_view(out@[k]) == json_view(items@[k]),
                decreases items@.len() - i,
            {
                out.push(copy_json(&items[i]));
                i = i + 1;
            }
            proof {
                lemma_items_view(items@);
                lemma_array_view(out@, items_view(items@));
            }
            Some(out)
        },
        Some(_) => {
            return Err(ParseError::field("enum"));
        },
    };
    let read_only = match opt_string(f, "ReadOnly") {
        Ok(v) => v,
        Err(e) => {
            return Err(e);
        },
    };
    let write_only = match opt_string(f, "WriteOnly") {
        Ok(v) => v,
        Err(e) => {
            return Err(e);
        },
    };
    let format = match opt_string(f, "format") {
        Ok(v) => v,
        Err(e) => {
            return Err(e);
        },
    };
    let hazards = match get(f, "hazards") {
        None => None,
        Some(Json::Null) => None,
        Some(j) => match parse_hazard(j) {
            Ok(h) => Some(h),
            Err(e) => {
                return Err(e);
            },
        },
    };
    Ok(
        DataSchema {
            attype,
            title,
            titles,
            description,
            descriptions,
            data_type,
            const_value,
            unit,
            one_of,
            enumeration,
            read_only,
            write_only,
            format,
            hazards,
        },
    )
}

/// `schema_ok` of an object, in terms of its shared members and of the
/// members of its kind.
proof fn lemma_schema_ok_unfold(j: Json, d: nat)
    requires
        d > 0,
        j is Object,
    ensures
        schema_ok(j, d) == {
            let f = members_of(j);
            &&& data_schema_ok(f, (d - 1) as nat)
            &&& if has_key(f, "minimum"@) {
                &&& opt_usize_ok(lookup(f, "minimum"@))
                &&& opt_usize_ok(lookup(f, "maximum"@))
            } else {
                &&& schema_map_ok(lookup(f, "properties"@), (d - 1) as nat)
                &&& opt_str_list_ok(lookup(f, "required"@))
            }
        },
{
    let f = members_of(j);
    let props = lookup(f, "properties"@);
    lemma_schemas_ok(list_items(lookup(f, "oneOf"@)), (d - 1) as nat);
    lemma_schemas_ok(entry_values(entries_of(props)), (d - 1) as nat);
    assert forall|i: int| 0 <= i < entries_of(props).len() implies entry_values(entries_of(props))[i]
        == #[trigger] entries_of(props)[i].1 by {}
}

/// Reads a schema whose nested schemas go at most `d` levels deep.
///
/// Which kind of schema it is follows `classify_schema` alone: a fragment
/// with a `minimum` member is an integer schema, any other an object schema.
pub fn parse_schema(j: &Json, d: usize) -> (r: Result<SchemaType, ParseError>)
    ensures
        r is Ok <==> schema_ok(*j, d as nat),
        r is Ok ==> schema_matches(r->Ok_0, *j, d as nat),
        r is Ok ==> (r->Ok_0 is IntegerSchema <==> has_key(members_of(*j), "minimum"@)),
    decreases d, 0nat,
{
    if d == 0 {
        return Err(ParseError::TooDeep);
    }
    match j {
        Json::Object(f) => {
            proof {
                lemma_schema_ok_unfold(*j, d as nat);
            }
            let data_schema = match parse_data_schema(f, d - 1) {
                Ok(v) => v,
                Err(e) => {
                    return Err(e);
                },
            };
            match classify_schema(f) {
                SchemaKind::Integer => {
                    let minimum = match opt_usize(f, "minimum") {
                        Ok(v) => v,
                        Err(e) => {
                            return Err(e);
                        },
                    };
                    let maximum = match opt_usize(f, "maximum") {
                        Ok(v) => v,
                        Err(e) => {
                            return Err(e);
                        },
                    };
                    Ok(SchemaType::IntegerSchema(IntegerSchema { data_schema, maximum, minimum }))
                },
                SchemaKind::Object => {
                    let properties = match parse_schema_map(f, "properties", d - 1) {
                        Ok(v) => v,
                        Err(e) => {
                            return Err(e);
                        },
                    };
                    let required = match opt_string_list(f, "required") {
                        Ok(v) => v,
                        Err(e) => {
                            return Err(e);
                        },
                    };
                    Ok(SchemaType::ObjectSchema(ObjectSchema { data_schema, properties, required }))
                },
            }
        },
        _ => Err(ParseError::field("schema")),
    }
}


pub open spec fn affordance_matches(a: Affordance, f: Seq<(String, Json)>, d: nat) -> bool {
    &&& str_list_view(a.attype@) == one_or_many_val(lookup(f, "@type"@))
    &&& opt_view(a.title) == opt_str_val(lookup(f, "title"@))
    &&& opt_pairs_view(a.titles) == opt_str_map_val(lookup(f, "titles"@))
    &&& opt_view(a.description) == opt_str_val(lookup(f, "description"@))
    &&& opt_pairs_view(a.descriptions) == opt_str_map_val(lookup(f, "descriptions"@))
    &&& forms_match(a.forms@, list_items(lookup(f, "forms"@)))
    &&& schema_entries_match(a.uri_variables@, entries_of(lookup(f, "uriVariables"@)), d)
}

/// Reads the members shared by properties, actions and events.
pub fn parse_affordance(f: &Vec<(String, Json)>, d: usize) -> (r: Result<Affordance, ParseError>)
    ensures
        r is Ok <==> affordance_ok(f@, d as nat),
        r is Ok ==> affordance_matches(r->Ok_0, f@, d as nat),
{
    let attype = match one_or_many(f, "@type") {
        Ok(v) => v,
        Err(e) => {
            return Err(e);
        },
    };
    let title = match opt_string(f, "title") {
        Ok(v) => v,
        Err(e) => {
            return Err(e);
        },
    };
    let titles = match opt_str_map(f, "titles") {
        Ok(v) => v,
        Err(e) => {
            return Err(e);
        },
    };
    let description = match opt_string(f, "description") {
        Ok(v) => v,
        Err(e) => {
            return Err(e);
        },
    };
    let descriptions = match opt_str_map(f, "descriptions") {
        Ok(v) => v,
        Err(e) => {
            return Err(e);
        },
    };
    let forms = match parse_forms(f) {
        Ok(v) => v,
        Err(e) => {
            return Err(e);
        },
    };
    let uri_variables = match parse_schema_map(f, "uriVariables", d) {
        Ok(Some(v)) => v,
        Ok(None) => Vec::new(),
        Err(e) => {
            return Err(e);
        },
    };
    proof {
        assert(keys_of(uri_variables@) =~= keys_of(entries_of(lookup(f@, "uriVariables"@))));
        lemma_schemas_match(schema_values(uri_variables@), entry_values(entries_of(lookup(f@, "uriVariables"@))), d as nat);
    }
    Ok(Affordance { attype, title, titles, description, descriptions, forms, uri_variables })
}

pub open spec fn property_matches(p: Property, j: Json, d: nat) -> bool {
    &&& affordance_matches(p.affordance, members_of(j), d)
    &&& schema_matches(p.schema, j, d)
    &&& p.observable == opt_bool_val(lookup(members_of(j), "observable"@))
}

/// Reads a property: its affordance and its schema are read from the same
/// members.
pub fn parse_property(j: &Json, d: usize) -> (r: Result<Property, ParseError>)
    ensures
        r is Ok <==> property_ok(*j, d as nat),
        r is Ok ==> property_matches(r->Ok_0, *j, d as nat),
{
    match j {
        Json::Object(f) => {
            let affordance = match parse_affordance(f, d) {
                Ok(v) => v,
                Err(e) => {
                    return Err(e);
                },
            };
            let schema = match parse_schema(j, d) {
                Ok(v) => v,
                Err(e) => {
                    return Err(e);
                },
            };
            let observable = match opt_bool(f, "observable") {
                Ok(v) => v,
                Err(e) => {
                    return Err(e);
                },
            };
            Ok(Property { affordance, schema, observable })
        },
        _ => Err(ParseError::field("properties")),
    }
}

pub open spec fn opt_schema_matches(o: Option<SchemaType>, v: Option<Json>, d: nat) -> bool {
    match o {
        Some(s) => v is Some && !(v matches Some(Json::Null)) && schema_matches(s, v->Some_0, d),
        None => v is None || v matches Some(Json::Null),
    }
}

/// Reads an optional schema member.
fn parse_opt_schema(f: &Vec<(String, Json)>, key: &str, d: usize) -> (r: Result<
    Option<SchemaType>,
    ParseError,
>)
    ensures
        r is Ok <==> opt_schema_ok(lookup(f@, key@), d as nat),
        r is Ok ==> opt_schema_matches(r->Ok_0, lookup(f@, key@), d as nat),
{
    match get(f, key) {
        None => Ok(None),
        Some(Json::Null) => Ok(None),
        Some(j) => match parse_schema(j, d) {
            Ok(s) => Ok(Some(s)),
            Err(e) => Err(e),
        },
    }
}

pub open spec fn action_matches(a: Action, j: Json, d: nat) -> bool {
    &&& affordance_matches(a.affordance, members_of(j), d)
    &&& opt_schema_matches(a.input, lookup(members_of(j), "input"@), d)
    &&& opt_schema_matches(a.output, lookup(members_of(j), "output"@), d)
    &&& a.safe == dflt_bool_val(lookup(members_of(j), "safe"@))
    &&& a.idempotent == dflt_bool_val(lookup(members_of(j), "idempotent"@))
}

/// Reads an action; `safe` and `idempotent` are `false` when absent.
pub fn parse_action(j: &Json, d: usize) -> (r: Result<Action, ParseError>)
    ensures
        r is Ok <==> action_ok(*j, d as nat),
        r is Ok ==> action_matches(r->Ok_0, *j, d as nat),
{
    match j {
        Json::Object(f) => {
            let affordance = match parse_affordance(f, d) {
                Ok(v) => v,
                Err(e) => {
                    return Err(e);
                },
            };
            let input = match parse_opt_schema(f, "input", d) {
                Ok(v) => v,
                Err(e) => {
                    return Err(e);
                },
            };
            let output = match parse_opt_schema(f, "output", d) {
                Ok(v) => v,
                Err(e) => {
                    return Err(e);
                },
            };
            let safe = match dflt_bool(f, "safe") {
                Ok(v) => v,
                Err(e) => {
                    return Err(e);
                },
            };
            let idempotent = match dflt_bool(f, "idempotent") {
                Ok(v) => v,
                Err(e) => {
                    return Err(e);
                },
            };
            Ok(Action { affordance, input, output, safe, idempotent })
        },
        _ => Err(ParseError::field("actions")),
    }
}

pub open spec fn opt_data_schema_matches(o: Option<DataSchema>, v: Option<Json>, d: nat) -> bool {
    match o {
        Some(ds) => v matches Some(Json::Object(_)) && data_schema_matches(ds, members_of(v->Some_0), d),
        None => v is None || v matches Some(Json::Null),
    }
}

/// Reads an optional member holding the shared members of a schema.
fn parse_opt_data_schema(f: &Vec<(String, Json)>, key: &str, d: usize) -> (r: Result<
    Option<DataSchema>,
    ParseError,
>)
    ensures
        r is Ok <==> opt_data_schema_ok(lookup(f@, key@), d as nat),
        r is Ok ==> opt_data_schema_matches(r->Ok_0, lookup(f@, key@), d as nat),
{
    match get(f, key) {
        None => Ok(None),
        Some(Json::Null) => Ok(None),
        Some(Json::Object(g)) => match parse_data_schema(g, d) {
            Ok(s) => Ok(Some(s)),
            Err(e) => Err(e),
        },
        Some(_) => Err(ParseError::field(key)),
    }
}

pub open spec fn event_matches(e: Event, j: Json, d: nat) -> bool {
    &&& affordance_matches(e.affordance, members_of(j), d)
    &&& opt_data_schema_matches(e.subscription, lookup(members_of(j), "subscription"@), d)
    &&& opt_data_schema_matches(e.data, lookup(members_of(j), "data"@), d)
    &&& opt_data_schema_matches(e.cancellation, lookup(members_of(j), "cancellation"@), d)
}

pub fn parse_event(j: &Json, d: usize) -> (r: Result<Event, ParseError>)
    ensures
        r is Ok <==> event_ok(*j, d as nat),
        r is Ok ==> event_matches(r->Ok_0, *j, d as nat),
{
    match j {
        Json::Object(f) => {
            let affordance = match parse_affordance(f, d) {
                Ok(v) => v,
                Err(e) => {
                    return Err(e);
                },
            };
            let subscription = match parse_opt_data_schema(f, "subscription", d) {
                Ok(v) => v,
                Err(e) => {
                    return Err(e);
                },
            };
            let data = match parse_opt_data_schema(f, "data", d) {
                Ok(v) => v,
                Err(e) => {
                    return Err(e);
                },
            };
            let cancellation = match parse_opt_data_schema(f, "cancellation", d) {
                Ok(v) => v,
                Err(e) => {
                    return Err(e);
                },
            };
            Ok(Event { affordance, subscription, data, cancellation })
        },
        _ => Err(ParseError::field("events")),
    }
}


/// Reads the `properties` collection: absent is empty, names are distinct.
pub fn parse_properties(f: &Vec<(String, Json)>) -> (r: Result<Vec<(String, Property)>, ParseError>)
    ensures
        r is Ok <==> collection_ok(lookup(f@, "properties"@), AffordanceKind::Property, MAX_DEPTH as nat),
        r is Ok ==> keys_of(r->Ok_0@) == keys_of(entries_of(lookup(f@, "properties"@))),
        r is Ok ==> forall|i: int|
            0 <= i < r->Ok_0@.len() ==> #[trigger] property_matches(
                r->Ok_0@[i].1,
                entries_of(lookup(f@, "properties"@))[i].1,
                MAX_DEPTH as nat,
            ),
{
    match get(f, "properties") {
        None => Ok(Vec::new()),
        Some(Json::Object(entries)) => {
            if !has_unique_keys(entries) {
                return Err(ParseError::field("properties"));
            }
            let mut out: Vec<(String, Property)> = Vec::new();
            let mut i: usize = 0;
            while i < entries.len()
                invariant
                    lookup(f@, "properties"@) == Some(Json::Object(*entries)),
                    entries_of(lookup(f@, "properties"@)) == entries@,
                    keys_unique(entries@),
                    i <= entries@.len(),
                    out@.len() == i,
                    forall|k: int|
                        0 <= k < i ==> #[trigger] affordance_entry_ok(
                            AffordanceKind::Property,
                            entries@[k].1,
                            MAX_DEPTH as nat,
                        ),
                    forall|k: int| 0 <= k < i ==> #[trigger] out@[k].0@ == entries@[k].0@,
                    forall|k: int| 0 <= k < i ==> #[trigger] property_matches(out@[k].1, entries@[k].1, MAX_DEPTH as nat),
                decreases entries@.len() - i,
            {
                match parse_property(&entries[i].1, MAX_DEPTH) {
                    Ok(item) => {
                        out.push((entries[i].0.clone(), item));
                    },
                    Err(e) => {
                        proof {
                            assert(!affordance_entry_ok(
                                AffordanceKind::Property,
                                entries_of(lookup(f@, "properties"@))[i as int].1,
                                MAX_DEPTH as nat,
                            ));
                        }
                        return Err(e);
                    },
                }
                i = i + 1;
            }
            proof {
                assert(keys_of(out@) =~= keys_of(entries@));
            }
            Ok(out)
        },
        Some(_) => Err(ParseError::field("properties")),
    }
}

/// Reads the `actions` collection: absent is empty, names are distinct.
pub fn parse_actions(f: &Vec<(String, Json)>) -> (r: Result<Vec<(String, Action)>, ParseError>)
    ensures
        r is Ok <==> collection_ok(lookup(f@, "actions"@), AffordanceKind::Action, MAX_DEPTH as nat),
        r is Ok ==> keys_of(r->Ok_0@) == keys_of(entries_of(lookup(f@, "actions"@))),
        r is Ok ==> forall|i: int|
            0 <= i < r->Ok_0@.len() ==> #[trigger] action_matches(
                r->Ok_0@[i].1,
                entries_of(lookup(f@, "actions"@))[i].1,
                MAX_DEPTH as nat,
            ),
{
    match get(f, "actions") {
        None => Ok(Vec::new()),
        Some(Json::Object(entries)) => {
            if !has_unique_keys(entries) {
                return Err(ParseError::field("actions"));
            }
            let mut out: Vec<(String, Action)> = Vec::new();
            let mut i: usize = 0;
            while i < entries.len()
                invariant
                    lookup(f@, "actions"@) == Some(Json::Object(*entries)),
                    entries_of(lookup(f@, "actions"@)) == entries@,
                    keys_unique(entries@),
                    i <= entries@.len(),
                    out@.len() == i,
                    forall|k: int|
                        0 <= k < i ==> #[trigger] affordance_entry_ok(
                            AffordanceKind::Action,
                            entries@[k].1,
                            MAX_DEPTH as nat,
                        ),
                    forall|k: int| 0 <= k < i ==> #[trigger] out@[k].0@ == entries@[k].0@,
                    forall|k: int| 0 <= k < i ==> #[trigger] action_matches(out@[k].1, entries@[k].1, MAX_DEPTH as nat),
                decreases entries@.len() - i,
            {
                match parse_action(&entries[i].1, MAX_DEPTH) {
                    Ok(item) => {
                        out.push((entries[i].0.clone(), item));
                    },
                    Err(e) => {
                        proof {
                            assert(!affordance_entry_ok(
                                AffordanceKind::Action,
                                entries_of(lookup(f@, "actions"@))[i as int].1,
                                MAX_DEPTH as nat,
                            ));
                        }
                        return Err(e);
                    },
                }
                i = i + 1;
            }
            proof {
                assert(keys_of(out@) =~= keys_of(entries@));
            }
            Ok(out)
        },
        Some(_) => Err(ParseError::field("actions")),
    }
}

/// Reads the `events` collection: absent is empty, names are distinct.
pub fn parse_events(f: &Vec<(String, Json)>) -> (r: Result<Vec<(String, Event)>, ParseError>)
    ensures
        r is Ok <==> collection_ok(lookup(f@, "events"@), AffordanceKind::Event, MAX_DEPTH as nat),
        r is Ok ==> keys_of(r->Ok_0@) == keys_of(entries_of(lookup(f@, "events"@))),
        r is Ok ==> forall|i: int|
            0 <= i < r->Ok_0@.len() ==> #[trigger] event_matches(
                r->Ok_0@[i].1,
                entries_of(lookup(f@, "events"@))[i].1,
                MAX_DEPTH as nat,
            ),
{
    match get(f, "events") {
        None => Ok(Vec::new()),
        Some(Json::Object(entries)) => {
            if !has_unique_keys(entries) {
                return Err(ParseError::field("events"));
            }
            let mut out: Vec<(String, Event)> = Vec::new();
            let mut i: usize = 0;
            while i < entries.len()
                invariant
                    lookup(f@, "events"@) == Some(Json::Object(*entries)),
                    entries_of(lookup(f@, "events"@)) == entries@,
                    keys_unique(entries@),
                    i <= entries@.len(),
                    out@.len() == i,
                    forall|k: int|
                        0 <= k < i ==> #[trigger] affordance_entry_ok(
                            AffordanceKind::Event,
                            entries@[k].1,
                            MAX_DEPTH as nat,
                        ),
                    forall|k: int| 0 <= k < i ==> #[trigger] out@[k].0@ == entries@[k].0@,
                    forall|k: int| 0 <= k < i ==> #[trigger] event_matches(out@[k].1, entries@[k].1, MAX_DEPTH as nat),
                decreases entries@.len() - i,
            {
                match parse_event(&entries[i].1, MAX_DEPTH) {
                    Ok(item) => {
                        out.push((entries[i].0.clone(), item));
                    },
                    Err(e) => {
                        proof {
                            assert(!affordance_entry_ok(
                                AffordanceKind::Event,
                                entries_of(lookup(f@, "events"@))[i as int].1,
                                MAX_DEPTH as nat,
                            ));
                        }
                        return Err(e);
                    },
                }
                i = i + 1;
            }
            proof {
                assert(keys_of(out@) =~= keys_of(entries@));
            }
            Ok(out)
        },
        Some(_) => Err(ParseError::field("events")),
    }
}

/// Reads the `securityDefinitions` member: an object of free-form schemes.
pub fn parse_security_definitions(f: &Vec<(String, Json)>) -> (r: Result<
    Vec<(String, SecurityScheme)>,
    ParseError,
>)
    ensures
        r is Ok <==> security_definitions_ok(lookup(f@, "securityDefinitions"@)),
        r is Ok ==> keys_of(r->Ok_0@) == keys_of(entries_of(lookup(f@, "securityDefinitions"@))),
        r is Ok ==> forall|i: int|
            0 <= i < r->Ok_0@.len() ==> #[trigger] pairs_view(r->Ok_0@[i].1.scheme@) == str_map_val(
                entries_of(lookup(f@, "securityDefinitions"@))[i].1,
            ),
{
    match get(f, "securityDefinitions") {
        Some(Json::Object(entries)) => {
            if !has_unique_keys(entries) {
                return Err(ParseError::field("securityDefinitions"));
            }
            let mut out: Vec<(String, SecurityScheme)> = Vec::new();
            let mut i: usize = 0;
            while i < entries.len()
                invariant
                    lookup(f@, "securityDefinitions"@) == Some(Json::Object(*entries)),
                    entries_of(lookup(f@, "securityDefinitions"@)) == entries@,
                    keys_unique(entries@),
                    i <= entries@.len(),
                    out@.len() == i,
                    forall|k: int| 0 <= k < i ==> #[trigger] str_map_ok(entries@[k].1),
                    forall|k: int| 0 <= k < i ==> #[trigger] out@[k].0@ == entries@[k].0@,
                    forall|k: int|
                        0 <= k < i ==> #[trigger] pairs_view(out@[k].1.scheme@) == str_map_val(
                            entries@[k].1,
                        ),
                decreases entries@.len() - i,
            {
                match str_map(&entries[i].1, "securityDefinitions") {
                    Ok(scheme) => {
                        out.push((entries[i].0.clone(), SecurityScheme { scheme }));
                    },
                    Err(e) => {
                        proof {
                            assert(!str_map_ok(
                                entries_of(lookup(f@, "securityDefinitions"@))[i as int].1,
                            ));
                        }
                        return Err(e);
                    },
                }
                i = i + 1;
            }
            proof {
                assert(keys_of(out@) =~= keys_of(entries@));
            }
            Ok(out)
        },
        _ => Err(ParseError::field("securityDefinitions")),
    }
}

/// What a Thing read from `j` holds.
pub open spec fn thing_matches(t: Thing, j: Json) -> bool {
    let f = members_of(j);
    let ctx = lookup(f, "@context"@)->Some_0;
    &&& json_view(t.context) == json_view(ctx)
    &&& t.id@ == dflt_str_val(lookup(f, "id"@), ""@)
    &&& str_list_view(t.attype@) == one_or_many_val(lookup(f, "@type"@))
    &&& t.title@ == opt_str_val(lookup(f, "title"@))->Some_0
    &&& t.description@ == dflt_str_val(lookup(f, "description"@), ""@)
    &&& t.base@ == dflt_str_val(lookup(f, "base"@), ""@)
    &&& t.links@.len() == list_items(lookup(f, "links"@)).len()
    &&& forall|i: int|
        0 <= i < t.links@.len() ==> #[trigger] link_matches(t.links@[i], list_items(lookup(f, "links"@))[i])
    &&& forms_match(t.forms@, list_items(lookup(f, "forms"@)))
    &&& keys_of(t.properties@) == keys_of(entries_of(lookup(f, "properties"@)))
    &&& forall|i: int|
        0 <= i < t.properties@.len() ==> #[trigger] property_matches(
            t.properties@[i].1,
            entries_of(lookup(f, "properties"@))[i].1,
            MAX_DEPTH as nat,
        )
    &&& keys_of(t.actions@) == keys_of(entries_of(lookup(f, "actions"@)))
    &&& forall|i: int|
        0 <= i < t.actions@.len() ==> #[trigger] action_matches(
            t.actions@[i].1,
            entries_of(lookup(f, "actions"@))[i].1,
            MAX_DEPTH as nat,
        )
    &&& keys_of(t.events@) == keys_of(entries_of(lookup(f, "events"@)))
    &&& forall|i: int|
        0 <= i < t.events@.len() ==> #[trigger] event_matches(
            t.events@[i].1,
            entries_of(lookup(f, "events"@))[i].1,
            MAX_DEPTH as nat,
        )
    &&& str_list_view(t.security@) == one_or_many_val(lookup(f, "security"@))
    &&& keys_of(t.security_definitions@) == keys_of(entries_of(lookup(f, "securityDefinitions"@)))
    &&& forall|i: int|
        0 <= i < t.security_definitions@.len() ==> #[trigger] pairs_view(
            t.security_definitions@[i].1.scheme@,
        ) == str_map_val(entries_of(lookup(f, "securityDefinitions"@))[i].1)
}

/// What `Thing::from_text` gives for a text that serde_json reads as a
/// value fitting in `MAX_DEPTH` levels: the result of `Thing::from_json` on
/// a value `j` of that view.
pub open spec fn text_read(text: Seq<char>, r: Result<Thing, ParseError>) -> bool {
    json_of(text) is Some && fits(json_of(text)->Some_0, MAX_DEPTH as nat) ==> exists|j: Json|
        json_view(j) == json_of(text)->Some_0 && (r is Ok <==> thing_ok(j)) && (r is Ok
            ==> thing_matches(r->Ok_0, j))
}

impl Thing {
    /// Normalizes a Thing Description.
    ///
    /// Absent `links`, `forms`, `properties`, `actions`, `events` and
    /// `security` members give empty containers; `@type` and `security` may
    /// each be one string or an array of strings.
    pub fn from_json(j: &Json) -> (r: Result<Thing, ParseError>)
        ensures
            r is Ok <==> thing_ok(*j),
            r is Ok ==> thing_matches(r->Ok_0, *j),
    {
        match j {
            Json::Object(f) => {
                let context = match get(f, "@context") {
                    Some(c) => copy_json(c),
                    None => {
                        return Err(ParseError::field("@context"));
                    },
                };
                let id = match dflt_string(f, "id", "") {
                    Ok(v) => v,
                    Err(e) => {
                        return Err(e);
                    },
                };
                let attype = match one_or_many(f, "@type") {
                    Ok(v) => v,
                    Err(e) => {
                        return Err(e);
                    },
                };
                let title = match req_string(f, "title") {
                    Ok(v) => v,
                    Err(e) => {
                        return Err(e);
                    },
                };
                let description = match dflt_string(f, "description", "") {
                    Ok(v) => v,
                    Err(e) => {
                        return Err(e);
                    },
                };
                let base = match dflt_string(f, "base", "") {
                    Ok(v) => v,
                    Err(e) => {
                        return Err(e);
                    },
                };
                let links = match parse_links(f) {
                    Ok(v) => v,
                    Err(e) => {
                        return Err(e);
                    },
                };
                let forms = match parse_forms(f) {
                    Ok(v) => v,
                    Err(e) => {
                        return Err(e);
                    },
                };
                let properties = match parse_properties(f) {
                    Ok(v) => v,
                    Err(e) => {
                        return Err(e);
                    },
                };
                let actions = match parse_actions(f) {
                    Ok(v) => v,
                    Err(e) => {
                        return Err(e);
                    },
                };
                let events = match parse_events(f) {
                    Ok(v) => v,
                    Err(e) => {
                        return Err(e);
                    },
                };
                let security = match one_or_many(f, "security") {
                    Ok(v) => v,
                    Err(e) => {
                        return Err(e);
                    },
                };
                let security_definitions = match parse_security_definitions(f) {
                    Ok(v) => v,
                    Err(e) => {
                        return Err(e);
                    },
                };
                Ok(
                    Thing {
                        context,
                        id,
                        attype,
                        title,
                        description,
                        base,
                        links,
                        forms,
                        properties,
                        actions,
                        events,
                        security,
                        security_definitions,
                    },
                )
            },
            _ => Err(ParseError::field("thing")),
        }
    }

    /// Parses and normalizes the text of a Thing Description.
    ///
    /// Text that serde_json refuses gives `Syntax`, a value nesting deeper
    /// than `MAX_DEPTH` gives `TooDeep`; otherwise the result is that of
    /// `from_json` on the value that the text denotes.
    pub fn from_text(text: &str) -> (r: Result<Thing, ParseError>)
        ensures
            json_of(text@) is None ==> r matches Err(ParseError::Syntax),
            json_of(text@) is Some && !fits(json_of(text@)->Some_0, MAX_DEPTH as nat) ==> r matches Err(
                ParseError::TooDeep,
            ),
            text_read(text@, r),
    {
        match crate::decode::parse_json(text) {
            Ok(j) => Thing::from_json(&j),
            Err(e) => Err(e),
        }
    }
}


/// Absent `properties`, `actions`, `events`, `links`, `forms` and
/// `security` members never make a document malformed, and a Thing read from
/// such a document holds empty containers for them.
pub proof fn lemma_absent_members_are_empty(j: Json, t: Thing)
    requires
        thing_matches(t, j),
        lookup(members_of(j), "properties"@) is None,
        lookup(members_of(j), "actions"@) is None,
        lookup(members_of(j), "events"@) is None,
        lookup(members_of(j), "links"@) is None,
        lookup(members_of(j), "forms"@) is None,
        lookup(members_of(j), "security"@) is None,
    ensures
        collection_ok(lookup(members_of(j), "properties"@), AffordanceKind::Property, MAX_DEPTH as nat),
        collection_ok(lookup(members_of(j), "actions"@), AffordanceKind::Action, MAX_DEPTH as nat),
        collection_ok(lookup(members_of(j), "events"@), AffordanceKind::Event, MAX_DEPTH as nat),
        links_ok(lookup(members_of(j), "links"@)),
        forms_ok(lookup(members_of(j), "forms"@)),
        one_or_many_ok(lookup(members_of(j), "security"@)),
        t.properties@.len() == 0,
        t.actions@.len() == 0,
        t.events@.len() == 0,
        t.links@.len() == 0,
        t.forms@.len() == 0,
        t.security@.len() == 0,
{
    assert(keys_of(t.properties@).len() == t.properties@.len());
    assert(keys_of(t.actions@).len() == t.actions@.len());
    assert(keys_of(t.events@).len() == t.events@.len());
    assert(str_list_view(t.security@).len() == t.security@.len());
}

} // verus!
