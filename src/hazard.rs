use vstd::prelude::*;

verus! {

/// The largest valid risk score; the smallest is 0.
pub const MAX_RISK_SCORE: i64 = 10;

/// A risk score is valid when it is present and lies in `[0, 10]`.
pub open spec fn valid_risk_score(score: Option<i64>) -> bool {
    match score {
        Some(v) => 0 <= v <= MAX_RISK_SCORE,
        None => false,
    }
}

/// Whether a risk score is present and lies in `[0, 10]`.
pub fn is_valid_risk_score(score: Option<i64>) -> (r: bool)
    ensures
        r == valid_risk_score(score),
{
    match score {
        Some(v) => 0 <= v && v <= MAX_RISK_SCORE,
        None => false,
    }
}

/// A hazard attached to a device capability.
///
/// A risk score can *only* assume values in the range [0, 10]. A hazard with a
/// score outside that range is still a usable record: the score is kept as it
/// was given and reported as invalid by `has_valid_risk_score`.
#[derive(Clone, Debug)]
pub struct Hazard {
    pub id: String,
    pub name: String,
    pub description: String,
    pub risk_score: Option<i64>,
}

impl Hazard {
    pub fn new(id: String, name: String, description: String, risk_score: Option<i64>) -> (r:
        Hazard)
        ensures
            r.id == id,
            r.name == name,
            r.description == description,
            r.risk_score == risk_score,
    {
        Hazard { id, name, description, risk_score }
    }

    /// Whether the hazard carries a risk score in `[0, 10]`.
    pub fn has_valid_risk_score(&self) -> (r: bool)
        ensures
            r == valid_risk_score(self.risk_score),
    {
        is_valid_risk_score(self.risk_score)
    }
}

/// Something that can tell whether it carries a given hazard.
pub trait WithLabel {
    fn has_label(&self, label: &Hazard) -> bool;
}

} // verus!
