use sifis::templates::{hypens_to_underscores, Rust, Templates};

#[test]
fn info_lists_builtin_templates() {
    assert_eq!(
        Templates::info(),
        "Available built-in templates:\n    rust            Generate hazards documentation for Rust APIs\n"
    );
    assert_eq!(
        Templates::info(),
        format!(
            "Available built-in templates:\n    {:<15} {}\n",
            "rust", "Generate hazards documentation for Rust APIs"
        )
    );
}

#[test]
fn template_names() {
    assert_eq!(Templates::Rust.name(), "rust");
    assert_eq!(Templates::variants(), vec![Templates::Rust]);
}

#[test]
fn hyphens_become_underscores() {
    assert_eq!(hypens_to_underscores("fire-hazard-x"), "fire_hazard_x");
    assert_eq!(hypens_to_underscores("plain"), "plain");
    assert_eq!(hypens_to_underscores(""), "");
    assert_eq!(hypens_to_underscores("--"), "__");
}

#[test]
fn rust_project_structure() {
    let _ = Rust::create();
    let s = Rust::project_structure();
    assert_eq!(s.dirs, vec![vec!["src".to_string()]]);
    assert_eq!(
        s.files,
        vec![(vec!["src".to_string(), "ontology.rs".to_string()], "rs.api".to_string())]
    );
}
