use sifis::catalog::{strip_name_prefix, Catalog, CatalogError};
use sifis::decode::parse_json;

const ONTOLOGY: &str = r#"{
    "@context": {"sho": "https://purl.org/sifis/hazards#"},
    "@graph": [
        {"@id": "sho:Safety", "rdf:type": {"@id": "sho:Category"},
         "description": "Category which includes all the safety-related hazards."},
        {"@id": "sho:FireHazard", "rdf:type": {"@id": "sho:Hazard"},
         "description": "The execution may cause fire", "hasCategory": "sho:Safety"},
        {"@id": "sho:Financial", "rdf:type": {"@id": "sho:Category"},
         "description": "Category which includes all the financial-related hazards."},
        {"@id": "sho:SpendMoney", "rdf:type": {"@id": "sho:Hazard"},
         "description": "The execution authorises the app to use payment information and make a payment transaction",
         "hasCategory": "sho:Financial"},
        {"@id": "sho:Explosion", "rdf:type": {"@id": "sho:Hazard"},
         "description": "The execution may cause an explosion", "hasCategory": "sho:Safety"},
        {"@id": "sho:Privacy", "rdf:type": {"@id": "sho:Category"},
         "description": "Category which includes all the privacy-related hazards."},
        {"note": "not typed"},
        {"@id": "sho:hasCategory", "rdf:type": {"@id": "owl:ObjectProperty"}, "description": "link"}
    ]
}"#;

fn load(text: &str) -> Result<Catalog, CatalogError> {
    Catalog::from_ontology(&parse_json(text).unwrap())
}

#[test]
fn loads_hazards_and_categories_in_order() {
    let c = load(ONTOLOGY).unwrap();
    let names: Vec<&str> = c.hazards.iter().map(|h| h.name.as_str()).collect();
    assert_eq!(names, vec!["FireHazard", "SpendMoney", "Explosion"]);
    let cats: Vec<&str> = c.categories.iter().map(|c| c.name.as_str()).collect();
    assert_eq!(cats, vec!["Safety", "Financial", "Privacy"]);
    assert_eq!(c.hazards[0].category, "Safety");
    assert_eq!(c.hazards[0].description, "The execution may cause fire");
}

#[test]
fn categories_list_their_hazards() {
    let c = load(ONTOLOGY).unwrap();
    assert_eq!(c.categories[0].hazards, vec!["FireHazard", "Explosion"]);
    assert_eq!(c.categories[1].hazards, vec!["SpendMoney"]);
    assert!(c.categories[2].hazards.is_empty());
}

#[test]
fn every_hazard_is_in_its_category() {
    let c = load(ONTOLOGY).unwrap();
    for h in &c.hazards {
        let cat = c.category_of(h).unwrap();
        assert_eq!(cat.name, h.category);
        assert!(c.hazards_of(cat).contains(&h.name));
    }
}

#[test]
fn hazard_by_id_and_not_found() {
    let c = load(ONTOLOGY).unwrap();
    assert_eq!(c.hazard_by_id("Explosion").unwrap().category, "Safety");
    assert_eq!(c.hazard_by_id("Earthquake").unwrap_err(), CatalogError::NotFound);
}

#[test]
fn orphan_hazard_is_refused() {
    let text = r#"{"@graph": [
        {"@id": "sho:Flood", "rdf:type": {"@id": "sho:Hazard"},
         "description": "d", "hasCategory": "sho:Weather"}]}"#;
    assert_eq!(load(text).unwrap_err(), CatalogError::UnknownCategory("Weather".to_string()));
}

#[test]
fn typed_node_without_description_is_refused() {
    let text = r#"{"@graph": [{"@id": "sho:Safety", "rdf:type": {"@id": "sho:Category"}}]}"#;
    assert_eq!(
        load(text).unwrap_err(),
        CatalogError::MissingField("description".to_string())
    );
}

#[test]
fn hazard_without_category_is_refused() {
    let text = r#"{"@graph": [{"@id": "sho:X", "rdf:type": {"@id": "sho:Hazard"}, "description": "d"}]}"#;
    assert_eq!(
        load(text).unwrap_err(),
        CatalogError::MissingField("hasCategory".to_string())
    );
}

#[test]
fn ontology_without_graph_is_refused() {
    assert_eq!(load(r#"{"graph": []}"#).unwrap_err(), CatalogError::NoGraph);
    assert_eq!(load(r#"[1]"#).unwrap_err(), CatalogError::NoGraph);
}

#[test]
fn name_prefix_is_stripped_repeatedly() {
    assert_eq!(strip_name_prefix("sho:FireHazard"), "FireHazard");
    assert_eq!(strip_name_prefix("sho:sho:X"), "X");
    assert_eq!(strip_name_prefix("FireHazard"), "FireHazard");
    assert_eq!(strip_name_prefix("sho"), "sho");
    assert_eq!(strip_name_prefix("xsho:Y"), "xsho:Y");
}
