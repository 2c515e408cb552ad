use sifis::hazard::Hazard as ThingHazard;
use sifis::label::Label;
use sifis::ontology::{Category, Hazard, CATEGORY_COUNT, HAZARD_COUNT};

fn thing_hazard(name: &str) -> ThingHazard {
    ThingHazard::new("h".to_string(), name.to_string(), String::new(), None)
}

fn every_hazard() -> Vec<Hazard> {
    (0..HAZARD_COUNT).map(Hazard::from_index).collect()
}

#[test]
fn has_hazard_finds_each_name() {
    for h in every_hazard() {
        assert_eq!(Hazard::has_hazard(&thing_hazard(h.name())), Some(h));
    }
    assert_eq!(Hazard::has_hazard(&thing_hazard("FireHazard")), Some(Hazard::FireHazard));
}

#[test]
fn has_hazard_unknown_name_is_none() {
    assert_eq!(Hazard::has_hazard(&thing_hazard("Earthquake")), None);
    assert_eq!(Hazard::has_hazard(&thing_hazard("firehazard")), None);
    assert_eq!(Hazard::has_hazard(&thing_hazard("")), None);
}

#[test]
fn descriptions_and_names() {
    assert_eq!(Hazard::FireHazard.get_description(), "The execution may cause fire");
    assert_eq!(
        Hazard::AudioVideoStream.get_description(),
        "The execution authorises the app to obtain a video stream with audio"
    );
    assert_eq!(Hazard::WaterFlooding.to_string(), "WaterFlooding");
    assert_eq!(Category::Privacy.to_string(), "Privacy");
}

#[test]
fn categories_of_hazards() {
    assert_eq!(Hazard::FireHazard.has_category(), Category::Safety);
    assert_eq!(Hazard::SpendMoney.has_category(), Category::Financial);
    assert_eq!(Hazard::TakePictures.has_category(), Category::Privacy);
}

#[test]
fn all_hazards_lists_every_name_in_order() {
    let names = Hazard::all_hazards();
    assert_eq!(names.len(), HAZARD_COUNT);
    assert_eq!(names[0], "AirPoisoning");
    assert_eq!(names[HAZARD_COUNT - 1], "WaterFlooding");
    for (i, h) in every_hazard().iter().enumerate() {
        assert_eq!(names[i], h.name());
    }
}

#[test]
fn all_categories_lists_every_name() {
    assert_eq!(Category::all_categories(), &["Financial", "Privacy", "Safety"]);
    assert_eq!(Category::all_categories().len(), CATEGORY_COUNT);
}

#[test]
fn category_lists_are_consistent() {
    for h in every_hazard() {
        assert!(h.has_category().all_hazards().contains(&h));
    }
    for c in [Category::Financial, Category::Privacy, Category::Safety] {
        for h in c.all_hazards() {
            assert_eq!(h.has_category(), c);
        }
    }
    assert_eq!(Category::Financial.all_hazards().len(), 5);
    assert_eq!(Category::Privacy.all_hazards().len(), 8);
    assert_eq!(Category::Safety.all_hazards().len(), 9);
}

#[test]
fn risk_score_bounds() {
    let score = |s: Option<i64>| ThingHazard::new(String::new(), String::new(), String::new(), s);
    assert!(score(Some(0)).has_valid_risk_score());
    assert!(score(Some(10)).has_valid_risk_score());
    assert!(score(Some(5)).has_valid_risk_score());
    assert!(!score(None).has_valid_risk_score());
    assert!(!score(Some(-1)).has_valid_risk_score());
    assert!(!score(Some(11)).has_valid_risk_score());
}

#[test]
fn label_risk_score_bounds() {
    let label = |s: Option<i64>| Label::new(String::new(), String::new(), s);
    assert!(label(Some(0)).has_valid_risk_score());
    assert!(label(Some(10)).has_valid_risk_score());
    assert!(!label(None).has_valid_risk_score());
    assert!(!label(Some(-1)).has_valid_risk_score());
    assert!(!label(Some(11)).has_valid_risk_score());
}
