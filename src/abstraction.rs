use vstd::prelude::*;

use crate::json::str_list_view;
use crate::text::str_eq;
use crate::thing::{Property, Thing};

verus! {

/// Hazards type.
#[derive(Clone, Copy, Debug, PartialEq, Eq, Structural)]
pub enum Hazards {
    AirPoisoning,
    Asphyxia,
    AudioVideoRecordAndStore,
    AudioVideoStream,
    ElectricEnergyConsumption,
    Explosion,
    FireHazard,
    GasConsumption,
    LogEnergyConsumption,
    LogUsageTime,
    PaySubscriptionFee,
    PowerOutage,
    PowerSurge,
    RecordIssuedCommands,
    RecordUserPreferences,
    SpendMoney,
    SpoiledFood,
    TakeDeviceScreenshots,
    TakePictures,
    UnauthorisedPhysicalAccess,
    WaterConsumption,
    WaterFlooding,
}

/// Categories.
#[derive(Clone, Copy, Debug, PartialEq, Eq, Structural)]
pub enum Categories {
    Financial,
    Privacy,
    Safety,
}

/// Percentage in the range [0, 100].
#[derive(Clone, Copy, Debug, PartialEq, Eq, Structural)]
pub struct Percentage(pub u8);

impl Percentage {
    /// Creates a new `Percentage`; values above 100 become 100.
    pub fn new(val: u8) -> (r: Percentage)
        ensures
            r.0 == if val <= 100 {
                val
            } else {
                100
            },
    {
        if val <= 100 {
            Percentage(val)
        } else {
            Percentage(100)
        }
    }
}

/// Colour of a light.
#[derive(Clone, Copy, Debug, PartialEq, Eq, Structural)]
pub struct Rgb(pub u8, pub u8, pub u8);

impl Rgb {
    /// Creates a new `Rgb`.
    pub fn new(r: u8, g: u8, b: u8) -> (c: Rgb)
        ensures
            c == Rgb(r, g, b),
    {
        Rgb(r, g, b)
    }
}

/// Whether a Thing is annotated with the type `at_type`.
pub open spec fn has_type(t: Thing, at_type: Seq<char>) -> bool {
    str_list_view(t.attype@).contains(at_type)
}

/// The predicate "annotated with the type `at_type`".
pub open spec fn of_type(at_type: Seq<char>) -> spec_fn(Thing) -> bool {
    |t: Thing| has_type(t, at_type)
}

/// Whether a sequence of annotations holds `at_type`.
pub fn annotations_contain(attype: &Vec<String>, at_type: &str) -> (r: bool)
    ensures
        r == str_list_view(attype@).contains(at_type@),
{
    let mut i: usize = 0;
    while i < attype.len()
        invariant
            i <= attype@.len(),
            forall|k: int| 0 <= k < i ==> #[trigger] attype@[k]@ != at_type@,
        decreases attype@.len() - i,
    {
        if str_eq(attype[i].as_str(), at_type) {
            proof {
                assert(str_list_view(attype@)[i as int] == at_type@);
            }
            return true;
        }
        i = i + 1;
    }
    proof {
        if str_list_view(attype@).contains(at_type@) {
            let k = choose|k: int| 0 <= k < attype@.len() && str_list_view(attype@)[k] == at_type@;
            assert(attype@[k]@ == at_type@);
        }
    }
    false
}

/// Whether a Thing is annotated with the type `at_type`.
pub fn thing_has_type(t: &Thing, at_type: &str) -> (r: bool)
    ensures
        r == has_type(*t, at_type@),
{
    annotations_contain(&t.attype, at_type)
}

impl Property {
    /// The type annotations of the property.
    pub fn attype(&self) -> (r: &[String])
        ensures
            r@ == self.affordance.attype@,
    {
        self.affordance.attype.as_slice()
    }
}

impl Thing {
    /// The position of the first property annotated with the type
    /// `at_type`, if any.
    pub fn property_of_type(&self, at_type: &str) -> (r: Option<usize>)
        ensures
            match r {
                Some(i) => i < self.properties@.len() && str_list_view(
                    self.properties@[i as int].1.affordance.attype@,
                ).contains(at_type@) && forall|k: int|
                    0 <= k < i ==> !str_list_view(
                        #[trigger] self.properties@[k].1.affordance.attype@,
                    ).contains(at_type@),
                None => forall|k: int|
                    0 <= k < self.properties@.len() ==> !str_list_view(
                        #[trigger] self.properties@[k].1.affordance.attype@,
                    ).contains(at_type@),
            },
    {
        let mut i: usize = 0;
        while i < self.properties.len()
            invariant
                i <= self.properties@.len(),
                forall|k: int|
                    0 <= k < i ==> !str_list_view(
                        #[trigger] self.properties@[k].1.affordance.attype@,
                    ).contains(at_type@),
            decreases self.properties@.len() - i,
        {
            if annotations_contain(&self.properties[i].1.affordance.attype, at_type) {
                return Some(i);
            }
            i = i + 1;
        }
        None
    }
}

/// The Things annotated with the type `at_type`, in order.
pub fn select_of_type(things: Vec<Thing>, at_type: &str) -> (r: Vec<Thing>)
    ensures
        r@ == things@.filter(of_type(at_type@)),
{
    let ghost all = things@;
    let ghost pred = of_type(at_type@);
    let n = things.len();
    let mut rest = things;
    let mut out: Vec<Thing> = Vec::new();
    let mut i: usize = 0;
    while i < n
        invariant
            pred == of_type(at_type@),
            n == all.len(),
            i <= n,
            rest@ == all.subrange(i as int, n as int),
            out@ == all.subrange(0, i as int).filter(pred),
        decreases n - i,
    {
        let t = rest.remove(0);
        let keep = thing_has_type(&t, at_type);
        proof {
            reveal(Seq::filter);
            let s1 = all.subrange(0, i + 1);
            assert(s1.drop_last() =~= all.subrange(0, i as int));
            assert(t == all[i as int]);
            assert(s1.last() == t);
            assert(rest@ =~= all.subrange(i + 1, n as int));
            assert(pred(t) == keep);
            assert(s1.filter(pred) == if keep {
                all.subrange(0, i as int).filter(pred).push(t)
            } else {
                all.subrange(0, i as int).filter(pred)
            });
        }
        if keep {
            out.push(t);
        }
        i = i + 1;
    }
    proof {
        assert(all.subrange(0, n as int) =~= all);
    }
    out
}

/// The first Thing annotated with the type `at_type` whose identifier is
/// `id`, if any.
pub fn find_of_type(things: Vec<Thing>, at_type: &str, id: &str) -> (r: Option<Thing>)
    ensures
        match r {
            Some(t) => exists|i: int|
                0 <= i < things@.len() && things@[i] == t && has_type(t, at_type@) && t.id@ == id@
                    && forall|k: int|
                    0 <= k < i ==> !(has_type(#[trigger] things@[k], at_type@) && things@[k].id@
                        == id@),
            None => forall|k: int|
                0 <= k < things@.len() ==> !(has_type(#[trigger] things@[k], at_type@)
                    && things@[k].id@ == id@),
        },
{
    let ghost all = things@;
    let n = things.len();
    let mut rest = things;
    let mut i: usize = 0;
    while i < n
        invariant
            all == things@,
            n == all.len(),
            i <= n,
            rest@ == all.subrange(i as int, n as int),
            forall|k: int|
                0 <= k < i ==> !(has_type(#[trigger] all[k], at_type@) && all[k].id@ == id@),
        decreases n - i,
    {
        let t = rest.remove(0);
        proof {
            assert(t == all[i as int]);
            assert(rest@ =~= all.subrange(i + 1, n as int));
        }
        if thing_has_type(&t, at_type) && str_eq(t.id.as_str(), id) {
            proof {
                assert(all[i as int] == t);
                assert(exists|j: int|
                    0 <= j < all.len() && all[j] == t && has_type(t, at_type@) && t.id@ == id@
                        && forall|k: int|
                        0 <= k < j ==> !(has_type(#[trigger] all[k], at_type@) && all[k].id@
                            == id@));
            }
            return Some(t);
        }
        i = i + 1;
    }
    None
}

/// A Thing that is a light.
#[derive(Debug)]
pub struct Light(pub Thing);

/// A Thing that is an oven.
#[derive(Debug)]
pub struct Oven(pub Thing);

impl Light {
    /// The type annotation of lights.
    pub const AT_TYPE: &'static str = "Light";

    /// The Thing as a light, if it is annotated as one; else the Thing back.
    pub fn from_thing(t: Thing) -> (r: Result<Light, Thing>)
        ensures
            r is Ok <==> has_type(t, Self::AT_TYPE@),
            r is Ok ==> r->Ok_0.0 == t,
            r is Err ==> r->Err_0 == t,
    {
        if thing_has_type(&t, Self::AT_TYPE) {
            Ok(Light(t))
        } else {
            Err(t)
        }
    }
}

impl Oven {
    /// The type annotation of ovens.
    pub const AT_TYPE: &'static str = "Oven";

    /// The Thing as an oven, if it is annotated as one; else the Thing back.
    pub fn from_thing(t: Thing) -> (r: Result<Oven, Thing>)
        ensures
            r is Ok <==> has_type(t, Self::AT_TYPE@),
            r is Ok ==> r->Ok_0.0 == t,
            r is Err ==> r->Err_0 == t,
    {
        if thing_has_type(&t, Self::AT_TYPE) {
            Ok(Oven(t))
        } else {
            Err(t)
        }
    }
}

} // verus!
