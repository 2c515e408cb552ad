use vstd::prelude::*;

use crate::json::{get, lookup, str_list_view, Json};
use crate::text::str_eq;

verus! {

/// Prefix of the ontology's own names.
pub const NAME_PREFIX: &'static str = "sho:";

/// A hazard of the catalog.
#[derive(Clone, Debug)]
pub struct HazardData {
    pub name: String,
    pub description: String,
    pub category: String,
}

/// A category of the catalog, with the names of its hazards.
#[derive(Clone, Debug)]
pub struct CategoryData {
    pub name: String,
    pub description: String,
    pub hazards: Vec<String>,
}

/// The hazards and categories that an ontology defines.
#[derive(Clone, Debug)]
pub struct Catalog {
    pub hazards: Vec<HazardData>,
    pub categories: Vec<CategoryData>,
}

/// Why an ontology could not be loaded.
#[derive(Clone, Debug, PartialEq)]
pub enum CatalogError {
    /// The ontology has no `@graph` array.
    NoGraph,
    /// A typed node lacks the member of that name.
    MissingField(String),
    /// A hazard names a category that the ontology does not define.
    UnknownCategory(String),
    /// No hazard or category has that name.
    NotFound,
}

/// What a node of the ontology's graph defines.
#[derive(Clone, Copy, Debug, PartialEq, Eq, Structural)]
pub enum NodeKind {
    /// Not an object with an object `rdf:type`: the node is passed over.
    Untyped,
    Hazard,
    Category,
    /// A typed node of another type.
    Other,
}

// ---------------------------------------------------------------------------
// What a graph defines
// ---------------------------------------------------------------------------

/// A name with every leading `sho:` taken off.
pub open spec fn short_name(s: Seq<char>) -> Seq<char>
    decreases s.len(),
{
    if s.len() >= 4 && s.subrange(0, 4) == NAME_PREFIX@ {
        short_name(s.subrange(4, s.len() as int))
    } else {
        s
    }
}

/// The text of a member that holds a string; empty for any other value.
pub open spec fn text_of(v: Option<Json>) -> Seq<char> {
    match v {
        Some(Json::Str(s)) => s@,
        _ => Seq::empty(),
    }
}

pub open spec fn node_fields(j: Json) -> Seq<(String, Json)> {
    match j {
        Json::Object(f) => f@,
        _ => Seq::empty(),
    }
}

pub open spec fn node_kind(j: Json) -> NodeKind {
    match j {
        Json::Object(f) => match lookup(f@, "rdf:type"@) {
            Some(Json::Object(t)) => match lookup(t@, "@id"@) {
                Some(Json::Str(s)) => if s@ == "sho:Hazard"@ {
                    NodeKind::Hazard
                } else if s@ == "sho:Category"@ {
                    NodeKind::Category
                } else {
                    NodeKind::Other
                },
                _ => NodeKind::Other,
            },
            _ => NodeKind::Untyped,
        },
        _ => NodeKind::Untyped,
    }
}

/// A typed node has an `@id` and a `description`, and a hazard also has a
/// `hasCategory`.
pub open spec fn node_ok(j: Json) -> bool {
    let f = node_fields(j);
    node_kind(j) != NodeKind::Untyped ==> {
        &&& lookup(f, "@id"@) is Some
        &&& lookup(f, "description"@) is Some
        &&& node_kind(j) == NodeKind::Hazard ==> lookup(f, "hasCategory"@) is Some
    }
}

pub open spec fn node_name(j: Json) -> Seq<char> {
    short_name(text_of(lookup(node_fields(j), "@id"@)))
}

pub open spec fn node_description(j: Json) -> Seq<char> {
    text_of(lookup(node_fields(j), "description"@))
}

pub open spec fn node_category(j: Json) -> Seq<char> {
    short_name(text_of(lookup(node_fields(j), "hasCategory"@)))
}

/// The hazards that a graph defines, in order: name, description, category.
pub open spec fn graph_hazards(g: Seq<Json>) -> Seq<(Seq<char>, Seq<char>, Seq<char>)>
    decreases g.len(),
{
    if g.len() == 0 {
        Seq::empty()
    } else {
        let last = g.last();
        let before = graph_hazards(g.drop_last());
        if node_kind(last) == NodeKind::Hazard {
            before.push((node_name(last), node_description(last), node_category(last)))
        } else {
            before
        }
    }
}

/// The categories that a graph defines, in order: name, description.
pub open spec fn graph_categories(g: Seq<Json>) -> Seq<(Seq<char>, Seq<char>)>
    decreases g.len(),
{
    if g.len() == 0 {
        Seq::empty()
    } else {
        let last = g.last();
        let before = graph_categories(g.drop_last());
        if node_kind(last) == NodeKind::Category {
            before.push((node_name(last), node_description(last)))
        } else {
            before
        }
    }
}

pub open spec fn hazard_view(h: HazardData) -> (Seq<char>, Seq<char>, Seq<char>) {
    (h.name@, h.description@, h.category@)
}

pub open spec fn hazards_view(hs: Seq<HazardData>) -> Seq<(Seq<char>, Seq<char>, Seq<char>)> {
    hs.map_values(|h: HazardData| hazard_view(h))
}

pub open spec fn categories_view(cs: Seq<CategoryData>) -> Seq<(Seq<char>, Seq<char>)> {
    cs.map_values(|c: CategoryData| (c.name@, c.description@))
}

/// The names of the hazards of category `cat`, in the order of `hs`.
pub open spec fn names_in(hs: Seq<(Seq<char>, Seq<char>, Seq<char>)>, cat: Seq<char>) -> Seq<
    Seq<char>,
>
    decreases hs.len(),
{
    if hs.len() == 0 {
        Seq::empty()
    } else {
        let before = names_in(hs.drop_last(), cat);
        if hs.last().2 == cat {
            before.push(hs.last().0)
        } else {
            before
        }
    }
}

/// Every hazard names a category of the catalog.
pub open spec fn no_orphan(
    hs: Seq<(Seq<char>, Seq<char>, Seq<char>)>,
    cs: Seq<(Seq<char>, Seq<char>)>,
) -> bool {
    forall|i: int| 0 <= i < hs.len() ==> category_named(cs, #[trigger] hs[i].2)
}

/// Whether a category of that name is among `cs`.
pub open spec fn category_named(cs: Seq<(Seq<char>, Seq<char>)>, name: Seq<char>) -> bool {
    exists|k: int| 0 <= k < cs.len() && #[trigger] cs[k].0 == name
}

impl Catalog {
    /// The catalog's consistency: every hazard belongs to a category of the
    /// catalog, and each category lists exactly the hazards that name it,
    /// in the catalog's order.
    pub open spec fn wf(&self) -> bool {
        &&& no_orphan(hazards_view(self.hazards@), categories_view(self.categories@))
        &&& forall|k: int|
            0 <= k < self.categories@.len() ==> #[trigger] str_list_view(self.categories@[k].hazards@)
                == names_in(hazards_view(self.hazards@), self.categories@[k].name@)
    }
}

// ---------------------------------------------------------------------------
// Loading
// ---------------------------------------------------------------------------

/// Whether `s` starts with `sho:`.
fn has_name_prefix(s: &str) -> (r: bool)
    ensures
        r == (s@.len() >= 4 && s@.subrange(0, 4) == NAME_PREFIX@),
{
    proof {
        reveal_strlit("sho:");
    }
    let n = s.unicode_len();
    if n < 4 {
        return false;
    }
    let r = s.get_char(0) == 's' && s.get_char(1) == 'h' && s.get_char(2) == 'o' && s.get_char(3)
        == ':';
    proof {
        if r {
            assert(s@.subrange(0, 4) =~= NAME_PREFIX@);
        } else {
            if s@.subrange(0, 4) == NAME_PREFIX@ {
                assert(s@.subrange(0, 4)[0] == 's');
                assert(s@.subrange(0, 4)[1] == 'h');
                assert(s@.subrange(0, 4)[2] == 'o');
                assert(s@.subrange(0, 4)[3] == ':');
            }
        }
    }
    r
}

/// A name with every leading `sho:` taken off.
pub fn strip_name_prefix(s: &str) -> (r: String)
    ensures
        r@ == short_name(s@),
{
    let mut cur: &str = s;
    while has_name_prefix(cur)
        invariant
            short_name(cur@) == short_name(s@),
        decreases cur@.len(),
    {
        let n = cur.unicode_len();
        cur = cur.substring_char(4, n);
    }
    String::from_str(cur)
}

/// The text of a string value; empty for any other value.
fn text(v: &Json) -> (r: &str)
    ensures
        r@ == text_of(Some(*v)),
{
    match v {
        Json::Str(s) => s.as_str(),
        _ => {
            proof {
                reveal_strlit("");
            }
            ""
        },
    }
}

/// What a node of the graph defines.
pub fn classify_node(j: &Json) -> (r: NodeKind)
    ensures
        r == node_kind(*j),
{
    match j {
        Json::Object(f) => match get(f, "rdf:type") {
            Some(Json::Object(t)) => match get(t, "@id") {
                Some(Json::Str(s)) => {
                    if str_eq(s.as_str(), "sho:Hazard") {
                        NodeKind::Hazard
                    } else if str_eq(s.as_str(), "sho:Category") {
                        NodeKind::Category
                    } else {
                        NodeKind::Other
                    }
                },
                _ => NodeKind::Other,
            },
            _ => NodeKind::Untyped,
        },
        _ => NodeKind::Untyped,
    }
}


/// Every node of the graph is well formed.
pub open spec fn nodes_ok(g: Seq<Json>) -> bool {
    forall|i: int| 0 <= i < g.len() ==> #[trigger] node_ok(g[i])
}

/// Reads the hazards and categories that the nodes of a graph define.
fn read_nodes(graph: &Vec<Json>) -> (r: Result<(Vec<HazardData>, Vec<CategoryData>), CatalogError>)
    ensures
        r is Ok <==> nodes_ok(graph@),
        r is Ok ==> hazards_view(r->Ok_0.0@) == graph_hazards(graph@),
        r is Ok ==> categories_view(r->Ok_0.1@) == graph_categories(graph@),
{
    let mut hazards: Vec<HazardData> = Vec::new();
    let mut categories: Vec<CategoryData> = Vec::new();
    let mut i: usize = 0;
    while i < graph.len()
        invariant
            i <= graph@.len(),
            forall|k: int| 0 <= k < i ==> #[trigger] node_ok(graph@[k]),
            hazards_view(hazards@) == graph_hazards(graph@.subrange(0, i as int)),
            categories_view(categories@) == graph_categories(graph@.subrange(0, i as int)),
        decreases graph@.len() - i,
    {
        let j = &graph[i];
        let ghost g1 = graph@.subrange(0, i + 1);
        proof {
            assert(g1.drop_last() =~= graph@.subrange(0, i as int));
            assert(g1.last() == graph@[i as int]);
        }
        let kind = classify_node(j);
        match j {
            Json::Object(f) => {
                if kind != NodeKind::Untyped {
                    let id = match get(f, "@id") {
                        Some(v) => text(v),
                        None => {
                            proof {
                                assert(node_fields(*j) == f@);
                                assert(!node_ok(graph@[i as int]));
                            }
                            return Err(CatalogError::MissingField(String::from_str("@id")));
                        },
                    };
                    let description = match get(f, "description") {
                        Some(v) => text(v),
                        None => {
                            proof {
                                assert(node_fields(*j) == f@);
                                assert(!node_ok(graph@[i as int]));
                            }
                            return Err(CatalogError::MissingField(String::from_str("description")));
                        },
                    };
                    if kind == NodeKind::Hazard {
                        let category = match get(f, "hasCategory") {
                            Some(v) => text(v),
                            None => {
                                proof {
                                assert(node_fields(*j) == f@);
                                assert(!node_ok(graph@[i as int]));
                            }
                            return Err(CatalogError::MissingField(String::from_str("hasCategory")));
                            },
                        };
                        let h = HazardData {
                            name: strip_name_prefix(id),
                            description: String::from_str(description),
                            category: strip_name_prefix(category),
                        };
                        let ghost before = hazards@;
                        hazards.push(h);
                        proof {
                            assert(hazards_view(hazards@) =~= hazards_view(before).push(
                                hazard_view(hazards@.last()),
                            ));
                        }
                    } else if kind == NodeKind::Category {
                        let c = CategoryData {
                            name: strip_name_prefix(id),
                            description: String::from_str(description),
                            hazards: Vec::new(),
                        };
                        let ghost before = categories@;
                        categories.push(c);
                        proof {
                            assert(categories_view(categories@) =~= categories_view(before).push(
                                (categories@.last().name@, categories@.last().description@),
                            ));
                        }
                    }
                }
            },
            _ => {},
        }
        i = i + 1;
    }
    proof {
        assert(graph@.subrange(0, graph@.len() as int) =~= graph@);
    }
    Ok((hazards, categories))
}


/// The position of the first category named `name`.
pub fn category_index(categories: &Vec<CategoryData>, name: &String) -> (r: Option<usize>)
    ensures
        match r {
            Some(k) => k < categories@.len() && categories@[k as int].name@ == name@,
            None => !category_named(categories_view(categories@), name@),
        },
{
    let mut k: usize = 0;
    while k < categories.len()
        invariant
            k <= categories@.len(),
            forall|m: int| 0 <= m < k ==> #[trigger] categories@[m].name@ != name@,
        decreases categories@.len() - k,
    {
        if categories[k].name == *name {
            return Some(k);
        }
        k = k + 1;
    }
    proof {
        let cv = categories_view(categories@);
        assert forall|m: int| 0 <= m < cv.len() implies #[trigger] cv[m].0 != name@ by {
            assert(cv[m].0 == categories@[m].name@);
        }
    }
    None
}

/// The position of the first hazard whose category is not among `categories`.
fn find_orphan(hazards: &Vec<HazardData>, categories: &Vec<CategoryData>) -> (r: Option<usize>)
    ensures
        r is None <==> no_orphan(hazards_view(hazards@), categories_view(categories@)),
        r is Some ==> r->Some_0 < hazards@.len(),
{
    let ghost hv = hazards_view(hazards@);
    let ghost cv = categories_view(categories@);
    let mut i: usize = 0;
    while i < hazards.len()
        invariant
            i <= hazards@.len(),
            hv == hazards_view(hazards@),
            cv == categories_view(categories@),
            forall|m: int| 0 <= m < i ==> category_named(cv, #[trigger] hv[m].2),
        decreases hazards@.len() - i,
    {
        match category_index(categories, &hazards[i].category) {
            Some(k) => {
                proof {
                    assert(cv[k as int].0 == hv[i as int].2);
                }
            },
            None => {
                proof {
                    assert(hv[i as int].2 == hazards@[i as int].category@);
                    assert(!category_named(cv, hv[i as int].2));
                }
                return Some(i);
            },
        }
        i = i + 1;
    }
    None
}

/// The names of the hazards of category `cat`, in order.
fn names_of_category(hazards: &Vec<HazardData>, cat: &String) -> (r: Vec<String>)
    ensures
        str_list_view(r@) == names_in(hazards_view(hazards@), cat@),
{
    let mut out: Vec<String> = Vec::new();
    let mut m: usize = 0;
    while m < hazards.len()
        invariant
            m <= hazards@.len(),
            str_list_view(out@) == names_in(hazards_view(hazards@.subrange(0, m as int)), cat@),
        decreases hazards@.len() - m,
    {
        let ghost hs = hazards_view(hazards@.subrange(0, m + 1));
        proof {
            assert(hs.drop_last() =~= hazards_view(hazards@.subrange(0, m as int)));
            assert(hs.last() == hazard_view(hazards@[m as int]));
        }
        if hazards[m].category == *cat {
            let ghost before = out@;
            out.push(hazards[m].name.clone());
            proof {
                assert(str_list_view(out@) =~= str_list_view(before).push(hazards@[m as int].name@));
            }
        }
        m = m + 1;
    }
    proof {
        assert(hazards@.subrange(0, hazards@.len() as int) =~= hazards@);
    }
    out
}

/// The catalog that a graph defines.
pub open spec fn graph_catalog_ok(g: Seq<Json>) -> bool {
    nodes_ok(g) && no_orphan(graph_hazards(g), graph_categories(g))
}

impl Catalog {
    /// Loads the hazards and categories that the nodes of an ontology's graph
    /// define.
    ///
    /// A node that is an object with an object `rdf:type` is typed; its type
    /// is the `@id` of that member. Typed nodes need an `@id` and a
    /// `description`, hazards also a `hasCategory`; names lose their leading
    /// `sho:`. Each category lists the hazards that name it, in graph order,
    /// and a hazard whose category is not defined makes the load fail.
    pub fn from_graph(graph: &Vec<Json>) -> (r: Result<Catalog, CatalogError>)
        ensures
            r is Ok <==> graph_catalog_ok(graph@),
            r is Ok ==> hazards_view(r->Ok_0.hazards@) == graph_hazards(graph@),
            r is Ok ==> categories_view(r->Ok_0.categories@) == graph_categories(graph@),
            r is Ok ==> r->Ok_0.wf(),
    {
        let (hazards, bare) = match read_nodes(graph) {
            Ok(v) => v,
            Err(e) => {
                return Err(e);
            },
        };
        match find_orphan(&hazards, &bare) {
            Some(i) => {
                return Err(CatalogError::UnknownCategory(hazards[i].category.clone()));
            },
            None => {},
        }
        let mut categories: Vec<CategoryData> = Vec::new();
        let mut k: usize = 0;
        while k < bare.len()
            invariant
                k <= bare@.len(),
                categories@.len() == k,
                forall|m: int|
                    0 <= m < k ==> #[trigger] categories@[m].name@ == bare@[m].name@
                        && categories@[m].description@ == bare@[m].description@,
                forall|m: int|
                    0 <= m < k ==> #[trigger] str_list_view(categories@[m].hazards@) == names_in(
                        hazards_view(hazards@),
                        categories@[m].name@,
                    ),
            decreases bare@.len() - k,
        {
            let names = names_of_category(&hazards, &bare[k].name);
            categories.push(
                CategoryData {
                    name: bare[k].name.clone(),
                    description: bare[k].description.clone(),
                    hazards: names,
                },
            );
            k = k + 1;
        }
        proof {
            assert(categories_view(categories@) =~= categories_view(bare@));
        }
        Ok(Catalog { hazards, categories })
    }

    /// Loads the catalog of an ontology document: the nodes of its `@graph`.
    pub fn from_ontology(j: &Json) -> (r: Result<Catalog, CatalogError>)
        ensures
            r is Ok <==> (j is Object && list_of(lookup(node_fields(*j), "@graph"@)) is Some
                && graph_catalog_ok(list_of(lookup(node_fields(*j), "@graph"@))->Some_0)),
            r is Ok ==> r->Ok_0.wf(),
            r is Ok ==> hazards_view(r->Ok_0.hazards@) == graph_hazards(
                list_of(lookup(node_fields(*j), "@graph"@))->Some_0,
            ),
            r is Ok ==> categories_view(r->Ok_0.categories@) == graph_categories(
                list_of(lookup(node_fields(*j), "@graph"@))->Some_0,
            ),
    {
        match j {
            Json::Object(f) => match get(f, "@graph") {
                Some(Json::Array(graph)) => Catalog::from_graph(graph),
                _ => Err(CatalogError::NoGraph),
            },
            _ => Err(CatalogError::NoGraph),
        }
    }

    /// The first hazard of that name.
    pub fn hazard_by_id(&self, name: &str) -> (r: Result<&HazardData, CatalogError>)
        ensures
            match r {
                Ok(h) => exists|i: int|
                    0 <= i < self.hazards@.len() && self.hazards@[i] == *h && (forall|m: int|
                        0 <= m < i ==> #[trigger] self.hazards@[m].name@ != name@),
                Err(e) => e == CatalogError::NotFound,
            },
            r is Ok ==> r->Ok_0.name@ == name@,
            r is Err <==> forall|i: int|
                0 <= i < self.hazards@.len() ==> #[trigger] self.hazards@[i].name@ != name@,
    {
        let mut i: usize = 0;
        while i < self.hazards.len()
            invariant
                i <= self.hazards@.len(),
                forall|m: int| 0 <= m < i ==> #[trigger] self.hazards@[m].name@ != name@,
            decreases self.hazards@.len() - i,
        {
            if str_eq(self.hazards[i].name.as_str(), name) {
                return Ok(&self.hazards[i]);
            }
            i = i + 1;
        }
        Err(CatalogError::NotFound)
    }

    /// The category that a hazard belongs to.
    pub fn category_of(&self, hazard: &HazardData) -> (r: Result<&CategoryData, CatalogError>)
        ensures
            r is Ok ==> r->Ok_0.name@ == hazard.category@,
            r is Ok ==> exists|k: int| 0 <= k < self.categories@.len() && self.categories@[k] == *r->Ok_0,
            r is Err <==> !category_named(categories_view(self.categories@), hazard.category@),
            r is Err ==> r->Err_0 == CatalogError::NotFound,
    {
        match category_index(&self.categories, &hazard.category) {
            Some(k) => {
                proof {
                    assert(categories_view(self.categories@)[k as int].0 == hazard.category@);
                }
                Ok(&self.categories[k])
            },
            None => Err(CatalogError::NotFound),
        }
    }

    /// The names of the hazards of a category, in catalog order.
    pub fn hazards_of<'a>(&'a self, category: &'a CategoryData) -> (r: &'a Vec<String>)
        ensures
            self.wf() && (exists|k: int| 0 <= k < self.categories@.len() && self.categories@[k] == *category)
                ==> str_list_view(r@) == names_in(hazards_view(self.hazards@), category.name@),
    {
        &category.hazards
    }
}

/// The items of an array member; `None` for any other value.
pub open spec fn list_of(v: Option<Json>) -> Option<Seq<Json>> {
    match v {
        Some(Json::Array(items)) => Some(items@),
        _ => None,
    }
}

/// A hazard whose category is `cat` is among the names that `names_in`
/// gives for `cat`.
pub proof fn lemma_names_in_contains(hs: Seq<(Seq<char>, Seq<char>, Seq<char>)>, i: int, cat: Seq<char>)
    requires
        0 <= i < hs.len(),
        hs[i].2 == cat,
    ensures
        names_in(hs, cat).contains(hs[i].0),
    decreases hs.len(),
{
    let before = names_in(hs.drop_last(), cat);
    if i == hs.len() - 1 {
        assert(names_in(hs, cat).last() == hs[i].0);
    } else {
        lemma_names_in_contains(hs.drop_last(), i, cat);
        let k = choose|k: int| 0 <= k < before.len() && before[k] == hs[i].0;
        if hs.last().2 == cat {
            assert(names_in(hs, cat)[k] == hs[i].0);
        } else {
            assert(names_in(hs, cat)[k] == hs[i].0);
        }
    }
}

/// In a consistent catalog, every hazard belongs to a category of the
/// catalog, and is listed among the hazards of that category.
pub proof fn lemma_catalog_round_trip(c: Catalog, i: int)
    requires
        c.wf(),
        0 <= i < c.hazards@.len(),
    ensures
        exists|k: int|
            0 <= k < c.categories@.len() && #[trigger] c.categories@[k].name@ == c.hazards@[i].category@,
        forall|k: int|
            0 <= k < c.categories@.len() && #[trigger] c.categories@[k].name@ == c.hazards@[i].category@
                ==> str_list_view(c.categories@[k].hazards@).contains(c.hazards@[i].name@),
{
    let hv = hazards_view(c.hazards@);
    let cv = categories_view(c.categories@);
    assert(category_named(cv, hv[i].2));
    let k0 = choose|k: int| 0 <= k < cv.len() && #[trigger] cv[k].0 == hv[i].2;
    assert(c.categories@[k0].name@ == c.hazards@[i].category@);
    assert forall|k: int|
        0 <= k < c.categories@.len() && #[trigger] c.categories@[k].name@ == c.hazards@[i].category@
            implies str_list_view(c.categories@[k].hazards@).contains(c.hazards@[i].name@) by {
        lemma_names_in_contains(hv, i, c.categories@[k].name@);
    }
}

} // verus!
