use vstd::prelude::*;

use crate::hazard::{is_valid_risk_score, valid_risk_score};

verus! {

/// A hazard label.
///
/// A risk score can *only* assume values in the range [0, 10]. Values outside
/// of the defined range are invalid.
#[derive(Clone, Debug)]
pub struct Label {
    pub name: String,
    pub description: String,
    pub risk_score: Option<i64>,
}

impl Label {
    pub fn new(name: String, description: String, risk_score: Option<i64>) -> (r: Label)
        ensures
            r.name == name,
            r.description == description,
            r.risk_score == risk_score,
    {
        Label { name, description, risk_score }
    }

    /// Whether the label carries a risk score in `[0, 10]`.
    pub fn has_valid_risk_score(&self) -> (r: bool)
        ensures
            r == valid_risk_score(self.risk_score),
    {
        is_valid_risk_score(self.risk_score)
    }
}

/// Something that can tell whether it carries a given label.
pub trait WithLabel {
    fn has_label(&self, label: &Label) -> bool;
}

} // verus!
