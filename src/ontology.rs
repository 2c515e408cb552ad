use vstd::prelude::*;

use crate::hazard::Hazard as ThingHazard;
use crate::text::str_eq;

verus! {

/// Number of hazard kinds that the ontology defines.
pub const HAZARD_COUNT: usize = 22;

/// Number of hazard categories that the ontology defines.
pub const CATEGORY_COUNT: usize = 3;

/// Hazards type.
#[derive(Clone, Copy, Debug, PartialEq, Eq, Structural)]
pub enum Hazard {
    /// The execution may release toxic gases
    AirPoisoning,
    /// The execution may cause oxygen deficiency by gaseous substances
    Asphyxia,
    /// The execution authorises the app to record and save a video with audio on persistent storage
    AudioVideoRecordAndStore,
    /// The execution authorises the app to obtain a video stream with audio
    AudioVideoStream,
    /// The execution enables a device that consumes electricity
    ElectricEnergyConsumption,
    /// The execution may cause an explosion
    Explosion,
    /// The execution may cause fire
    FireHazard,
    /// The execution enables a device that consumes gas
    GasConsumption,
    /// The execution authorises the app to get and save information about the app's energy impact on the device the app runs on
    LogEnergyConsumption,
    /// The execution authorises the app to get and save information about the app's duration of use
    LogUsageTime,
    /// The execution authorises the app to use payment information and make a periodic payment
    PaySubscriptionFee,
    /// The execution may cause an interruption in the supply of electricity
    PowerOutage,
    /// The execution may lead to exposure to high voltages
    PowerSurge,
    /// The execution authorises the app to get and save user inputs
    RecordIssuedCommands,
    /// The execution authorises the app to get and save information about the user's preferences
    RecordUserPreferences,
    /// The execution authorises the app to use payment information and make a payment transaction
    SpendMoney,
    /// The execution may lead to rotten food
    SpoiledFood,
    /// The execution authorises the app to read the display output and take screenshots of it
    TakeDeviceScreenshots,
    /// The execution authorises the app to use a camera and take photos
    TakePictures,
    /// The execution disables a protection mechanism and unauthorised individuals may physically enter home
    UnauthorisedPhysicalAccess,
    /// The execution enables a device that consumes water
    WaterConsumption,
    /// The execution allows water usage which may lead to flood
    WaterFlooding,
}

/// Categories associated to an hazard.
#[derive(Clone, Copy, Debug, PartialEq, Eq, Structural)]
pub enum Category {
    /// Category which includes all the financial-related hazards.
    Financial,
    /// Category which includes all the privacy-related hazards.
    Privacy,
    /// Category which includes all the safety-related hazards.
    Safety,
}

/// The name of a hazard, as the ontology spells it.
pub open spec fn hazard_name(h: Hazard) -> Seq<char> {
    match h {
        Hazard::AirPoisoning => "AirPoisoning"@,
        Hazard::Asphyxia => "Asphyxia"@,
        Hazard::AudioVideoRecordAndStore => "AudioVideoRecordAndStore"@,
        Hazard::AudioVideoStream => "AudioVideoStream"@,
        Hazard::ElectricEnergyConsumption => "ElectricEnergyConsumption"@,
        Hazard::Explosion => "Explosion"@,
        Hazard::FireHazard => "FireHazard"@,
        Hazard::GasConsumption => "GasConsumption"@,
        Hazard::LogEnergyConsumption => "LogEnergyConsumption"@,
        Hazard::LogUsageTime => "LogUsageTime"@,
        Hazard::PaySubscriptionFee => "PaySubscriptionFee"@,
        Hazard::PowerOutage => "PowerOutage"@,
        Hazard::PowerSurge => "PowerSurge"@,
        Hazard::RecordIssuedCommands => "RecordIssuedCommands"@,
        Hazard::RecordUserPreferences => "RecordUserPreferences"@,
        Hazard::SpendMoney => "SpendMoney"@,
        Hazard::SpoiledFood => "SpoiledFood"@,
        Hazard::TakeDeviceScreenshots => "TakeDeviceScreenshots"@,
        Hazard::TakePictures => "TakePictures"@,
        Hazard::UnauthorisedPhysicalAccess => "UnauthorisedPhysicalAccess"@,
        Hazard::WaterConsumption => "WaterConsumption"@,
        Hazard::WaterFlooding => "WaterFlooding"@,
    }
}

/// The description of a hazard.
pub open spec fn hazard_description(h: Hazard) -> Seq<char> {
    match h {
        Hazard::AirPoisoning => "The execution may release toxic gases"@,
        Hazard::Asphyxia => "The execution may cause oxygen deficiency by gaseous substances"@,
        Hazard::AudioVideoRecordAndStore => "The execution authorises the app to record and save a video with audio on persistent storage"@,
        Hazard::AudioVideoStream => "The execution authorises the app to obtain a video stream with audio"@,
        Hazard::ElectricEnergyConsumption => "The execution enables a device that consumes electricity"@,
        Hazard::Explosion => "The execution may cause an explosion"@,
        Hazard::FireHazard => "The execution may cause fire"@,
        Hazard::GasConsumption => "The execution enables a device that consumes gas"@,
        Hazard::LogEnergyConsumption => "The execution authorises the app to get and save information about the app's energy impact on the device the app runs on"@,
        Hazard::LogUsageTime => "The execution authorises the app to get and save information about the app's duration of use"@,
        Hazard::PaySubscriptionFee => "The execution authorises the app to use payment information and make a periodic payment"@,
        Hazard::PowerOutage => "The execution may cause an interruption in the supply of electricity"@,
        Hazard::PowerSurge => "The execution may lead to exposure to high voltages"@,
        Hazard::RecordIssuedCommands => "The execution authorises the app to get and save user inputs"@,
        Hazard::RecordUserPreferences => "The execution authorises the app to get and save information about the user's preferences"@,
        Hazard::SpendMoney => "The execution authorises the app to use payment information and make a payment transaction"@,
        Hazard::SpoiledFood => "The execution may lead to rotten food"@,
        Hazard::TakeDeviceScreenshots => "The execution authorises the app to read the display output and take screenshots of it"@,
        Hazard::TakePictures => "The execution authorises the app to use a camera and take photos"@,
        Hazard::UnauthorisedPhysicalAccess => "The execution disables a protection mechanism and unauthorised individuals may physically enter home"@,
        Hazard::WaterConsumption => "The execution enables a device that consumes water"@,
        Hazard::WaterFlooding => "The execution allows water usage which may lead to flood"@,
    }
}

/// The category that a hazard belongs to.
pub open spec fn category_of(h: Hazard) -> Category {
    match h {
        Hazard::AirPoisoning => Category::Safety,
        Hazard::Asphyxia => Category::Safety,
        Hazard::AudioVideoRecordAndStore => Category::Privacy,
        Hazard::AudioVideoStream => Category::Privacy,
        Hazard::ElectricEnergyConsumption => Category::Financial,
        Hazard::Explosion => Category::Safety,
        Hazard::FireHazard => Category::Safety,
        Hazard::GasConsumption => Category::Financial,
        Hazard::LogEnergyConsumption => Category::Privacy,
        Hazard::LogUsageTime => Category::Privacy,
        Hazard::PaySubscriptionFee => Category::Financial,
        Hazard::PowerOutage => Category::Safety,
        Hazard::PowerSurge => Category::Safety,
        Hazard::RecordIssuedCommands => Category::Privacy,
        Hazard::RecordUserPreferences => Category::Privacy,
        Hazard::SpendMoney => Category::Financial,
        Hazard::SpoiledFood => Category::Safety,
        Hazard::TakeDeviceScreenshots => Category::Privacy,
        Hazard::TakePictures => Category::Privacy,
        Hazard::UnauthorisedPhysicalAccess => Category::Safety,
        Hazard::WaterConsumption => Category::Financial,
        Hazard::WaterFlooding => Category::Safety,
    }
}

/// The position of a hazard in the ontology's listing.
pub open spec fn hazard_index(h: Hazard) -> int {
    match h {
        Hazard::AirPoisoning => 0,
        Hazard::Asphyxia => 1,
        Hazard::AudioVideoRecordAndStore => 2,
        Hazard::AudioVideoStream => 3,
        Hazard::ElectricEnergyConsumption => 4,
        Hazard::Explosion => 5,
        Hazard::FireHazard => 6,
        Hazard::GasConsumption => 7,
        Hazard::LogEnergyConsumption => 8,
        Hazard::LogUsageTime => 9,
        Hazard::PaySubscriptionFee => 10,
        Hazard::PowerOutage => 11,
        Hazard::PowerSurge => 12,
        Hazard::RecordIssuedCommands => 13,
        Hazard::RecordUserPreferences => 14,
        Hazard::SpendMoney => 15,
        Hazard::SpoiledFood => 16,
        Hazard::TakeDeviceScreenshots => 17,
        Hazard::TakePictures => 18,
        Hazard::UnauthorisedPhysicalAccess => 19,
        Hazard::WaterConsumption => 20,
        Hazard::WaterFlooding => 21,
    }
}

/// The hazard at a position of the ontology's listing.
pub open spec fn hazard_at(i: int) -> Hazard
    recommends
        0 <= i < HAZARD_COUNT,
{
    if i == 0 {
        Hazard::AirPoisoning
    } else if i == 1 {
        Hazard::Asphyxia
    } else if i == 2 {
        Hazard::AudioVideoRecordAndStore
    } else if i == 3 {
        Hazard::AudioVideoStream
    } else if i == 4 {
        Hazard::ElectricEnergyConsumption
    } else if i == 5 {
        Hazard::Explosion
    } else if i == 6 {
        Hazard::FireHazard
    } else if i == 7 {
        Hazard::GasConsumption
    } else if i == 8 {
        Hazard::LogEnergyConsumption
    } else if i == 9 {
        Hazard::LogUsageTime
    } else if i == 10 {
        Hazard::PaySubscriptionFee
    } else if i == 11 {
        Hazard::PowerOutage
    } else if i == 12 {
        Hazard::PowerSurge
    } else if i == 13 {
        Hazard::RecordIssuedCommands
    } else if i == 14 {
        Hazard::RecordUserPreferences
    } else if i == 15 {
        Hazard::SpendMoney
    } else if i == 16 {
        Hazard::SpoiledFood
    } else if i == 17 {
        Hazard::TakeDeviceScreenshots
    } else if i == 18 {
        Hazard::TakePictures
    } else if i == 19 {
        Hazard::UnauthorisedPhysicalAccess
    } else if i == 20 {
        Hazard::WaterConsumption
    } else {
        Hazard::WaterFlooding
    }
}

/// The hazards of a category, in the ontology's order.
pub open spec fn hazards_of(c: Category) -> Seq<Hazard> {
    match c {
        Category::Financial => seq![
            Hazard::ElectricEnergyConsumption,
            Hazard::GasConsumption,
            Hazard::PaySubscriptionFee,
            Hazard::SpendMoney,
            Hazard::WaterConsumption,
        ],
        Category::Privacy => seq![
            Hazard::AudioVideoRecordAndStore,
            Hazard::AudioVideoStream,
            Hazard::LogEnergyConsumption,
            Hazard::LogUsageTime,
            Hazard::RecordIssuedCommands,
            Hazard::RecordUserPreferences,
            Hazard::TakeDeviceScreenshots,
            Hazard::TakePictures,
        ],
        Category::Safety => seq![
            Hazard::AirPoisoning,
            Hazard::Asphyxia,
            Hazard::Explosion,
            Hazard::FireHazard,
            Hazard::PowerOutage,
            Hazard::PowerSurge,
            Hazard::SpoiledFood,
            Hazard::UnauthorisedPhysicalAccess,
            Hazard::WaterFlooding,
        ],
    }
}

/// The name of a category.
pub open spec fn category_name(c: Category) -> Seq<char> {
    match c {
        Category::Financial => "Financial"@,
        Category::Privacy => "Privacy"@,
        Category::Safety => "Safety"@,
    }
}

/// The category at a position of the ontology's listing.
pub open spec fn category_at(i: int) -> Category {
    if i == 0 {
        Category::Financial
    } else if i == 1 {
        Category::Privacy
    } else {
        Category::Safety
    }
}

impl Hazard {
    /// The hazard at a position of `all_hazards`.
    pub fn from_index(i: usize) -> (r: Hazard)
        requires
            i < HAZARD_COUNT,
        ensures
            r == hazard_at(i as int),
    {
        if i == 0 {
            Hazard::AirPoisoning
        } else if i == 1 {
            Hazard::Asphyxia
        } else if i == 2 {
            Hazard::AudioVideoRecordAndStore
        } else if i == 3 {
            Hazard::AudioVideoStream
        } else if i == 4 {
            Hazard::ElectricEnergyConsumption
        } else if i == 5 {
            Hazard::Explosion
        } else if i == 6 {
            Hazard::FireHazard
        } else if i == 7 {
            Hazard::GasConsumption
        } else if i == 8 {
            Hazard::LogEnergyConsumption
        } else if i == 9 {
            Hazard::LogUsageTime
        } else if i == 10 {
            Hazard::PaySubscriptionFee
        } else if i == 11 {
            Hazard::PowerOutage
        } else if i == 12 {
            Hazard::PowerSurge
        } else if i == 13 {
            Hazard::RecordIssuedCommands
        } else if i == 14 {
            Hazard::RecordUserPreferences
        } else if i == 15 {
            Hazard::SpendMoney
        } else if i == 16 {
            Hazard::SpoiledFood
        } else if i == 17 {
            Hazard::TakeDeviceScreenshots
        } else if i == 18 {
            Hazard::TakePictures
        } else if i == 19 {
            Hazard::UnauthorisedPhysicalAccess
        } else if i == 20 {
            Hazard::WaterConsumption
        } else {
            Hazard::WaterFlooding
        }
    }

    /// The name of the hazard.
    pub fn name(&self) -> (r: &'static str)
        ensures
            r@ == hazard_name(*self),
    {
        match self {
            Hazard::AirPoisoning => "AirPoisoning",
            Hazard::Asphyxia => "Asphyxia",
            Hazard::AudioVideoRecordAndStore => "AudioVideoRecordAndStore",
            Hazard::AudioVideoStream => "AudioVideoStream",
            Hazard::ElectricEnergyConsumption => "ElectricEnergyConsumption",
            Hazard::Explosion => "Explosion",
            Hazard::FireHazard => "FireHazard",
            Hazard::GasConsumption => "GasConsumption",
            Hazard::LogEnergyConsumption => "LogEnergyConsumption",
            Hazard::LogUsageTime => "LogUsageTime",
            Hazard::PaySubscriptionFee => "PaySubscriptionFee",
            Hazard::PowerOutage => "PowerOutage",
            Hazard::PowerSurge => "PowerSurge",
            Hazard::RecordIssuedCommands => "RecordIssuedCommands",
            Hazard::RecordUserPreferences => "RecordUserPreferences",
            Hazard::SpendMoney => "SpendMoney",
            Hazard::SpoiledFood => "SpoiledFood",
            Hazard::TakeDeviceScreenshots => "TakeDeviceScreenshots",
            Hazard::TakePictures => "TakePictures",
            Hazard::UnauthorisedPhysicalAccess => "UnauthorisedPhysicalAccess",
            Hazard::WaterConsumption => "WaterConsumption",
            Hazard::WaterFlooding => "WaterFlooding",
        }
    }

    /// The name of the hazard, as an owned string.
    pub fn to_string(&self) -> (r: String)
        ensures
            r@ == hazard_name(*self),
    {
        String::from_str(self.name())
    }

    /// Returns the `Hazard` type associated to a Thing.
    ///
    /// It returns `None` if no type has been found for the given
    /// Thing.
    pub fn has_hazard(thing_hazard: &ThingHazard) -> (r: Option<Hazard>)
        ensures
            forall|h: Hazard| #[trigger] hazard_name(h) == thing_hazard.name@ <==> r == Some(h),
    {
        let names = Hazard::all_hazards();
        let mut i: usize = 0;
        while i < HAZARD_COUNT
            invariant
                i <= HAZARD_COUNT,
                names@.len() == HAZARD_COUNT,
                forall|j: int| 0 <= j < HAZARD_COUNT ==> #[trigger] names@[j]@ == hazard_name(hazard_at(j)),
                forall|j: int| 0 <= j < i ==> hazard_name(#[trigger] hazard_at(j)) != thing_hazard.name@,
            decreases HAZARD_COUNT - i,
        {
            if str_eq(names[i], thing_hazard.name.as_str()) {
                let found = Hazard::from_index(i);
                proof {
                    assert forall|h: Hazard| #[trigger] hazard_name(h) == thing_hazard.name@ <==> Some(
                        found,
                    ) == Some(h) by {
                        if hazard_name(h) == thing_hazard.name@ {
                            lemma_hazard_names_distinct(h, found);
                        }
                    }
                }
                return Some(found);
            }
            i = i + 1;
        }
        proof {
            assert forall|h: Hazard| hazard_name(h) != thing_hazard.name@ by {
                lemma_hazard_index(h);
                assert(hazard_name(hazard_at(hazard_index(h))) != thing_hazard.name@);
            }
        }
        None
    }

    /// Returns the description associated to an `Hazard` type.
    pub fn get_description(&self) -> (r: &'static str)
        ensures
            r@ == hazard_description(*self),
    {
        match self {
            Hazard::AirPoisoning => "The execution may release toxic gases",
            Hazard::Asphyxia => "The execution may cause oxygen deficiency by gaseous substances",
            Hazard::AudioVideoRecordAndStore => "The execution authorises the app to record and save a video with audio on persistent storage",
            Hazard::AudioVideoStream => "The execution authorises the app to obtain a video stream with audio",
            Hazard::ElectricEnergyConsumption => "The execution enables a device that consumes electricity",
            Hazard::Explosion => "The execution may cause an explosion",
            Hazard::FireHazard => "The execution may cause fire",
            Hazard::GasConsumption => "The execution enables a device that consumes gas",
            Hazard::LogEnergyConsumption => "The execution authorises the app to get and save information about the app's energy impact on the device the app runs on",
            Hazard::LogUsageTime => "The execution authorises the app to get and save information about the app's duration of use",
            Hazard::PaySubscriptionFee => "The execution authorises the app to use payment information and make a periodic payment",
            Hazard::PowerOutage => "The execution may cause an interruption in the supply of electricity",
            Hazard::PowerSurge => "The execution may lead to exposure to high voltages",
            Hazard::RecordIssuedCommands => "The execution authorises the app to get and save user inputs",
            Hazard::RecordUserPreferences => "The execution authorises the app to get and save information about the user's preferences",
            Hazard::SpendMoney => "The execution authorises the app to use payment information and make a payment transaction",
            Hazard::SpoiledFood => "The execution may lead to rotten food",
            Hazard::TakeDeviceScreenshots => "The execution authorises the app to read the display output and take screenshots of it",
            Hazard::TakePictures => "The execution authorises the app to use a camera and take photos",
            Hazard::UnauthorisedPhysicalAccess => "The execution disables a protection mechanism and unauthorised individuals may physically enter home",
            Hazard::WaterConsumption => "The execution enables a device that consumes water",
            Hazard::WaterFlooding => "The execution allows water usage which may lead to flood",
        }
    }

    /// Returns the `Category` associated to an `Hazard`.
    pub fn has_category(&self) -> (r: Category)
        ensures
            r == category_of(*self),
    {
        match self {
            Hazard::AirPoisoning => Category::Safety,
            Hazard::Asphyxia => Category::Safety,
            Hazard::AudioVideoRecordAndStore => Category::Privacy,
            Hazard::AudioVideoStream => Category::Privacy,
            Hazard::ElectricEnergyConsumption => Category::Financial,
            Hazard::Explosion => Category::Safety,
            Hazard::FireHazard => Category::Safety,
            Hazard::GasConsumption => Category::Financial,
            Hazard::LogEnergyConsumption => Category::Privacy,
            Hazard::LogUsageTime => Category::Privacy,
            Hazard::PaySubscriptionFee => Category::Financial,
            Hazard::PowerOutage => Category::Safety,
            Hazard::PowerSurge => Category::Safety,
            Hazard::RecordIssuedCommands => Category::Privacy,
            Hazard::RecordUserPreferences => Category::Privacy,
            Hazard::SpendMoney => Category::Financial,
            Hazard::SpoiledFood => Category::Safety,
            Hazard::TakeDeviceScreenshots => Category::Privacy,
            Hazard::TakePictures => Category::Privacy,
            Hazard::UnauthorisedPhysicalAccess => Category::Safety,
            Hazard::WaterConsumption => Category::Financial,
            Hazard::WaterFlooding => Category::Safety,
        }
    }

    /// Returns all `Hazard` types as immutable strings.
    pub fn all_hazards() -> (r: &'static [&'static str])
        ensures
            r@.len() == HAZARD_COUNT,
            forall|i: int| 0 <= i < HAZARD_COUNT ==> #[trigger] r@[i]@ == hazard_name(hazard_at(i)),
    {
        &[
            "AirPoisoning",
            "Asphyxia",
            "AudioVideoRecordAndStore",
            "AudioVideoStream",
            "ElectricEnergyConsumption",
            "Explosion",
            "FireHazard",
            "GasConsumption",
            "LogEnergyConsumption",
            "LogUsageTime",
            "PaySubscriptionFee",
            "PowerOutage",
            "PowerSurge",
            "RecordIssuedCommands",
            "RecordUserPreferences",
            "SpendMoney",
            "SpoiledFood",
            "TakeDeviceScreenshots",
            "TakePictures",
            "UnauthorisedPhysicalAccess",
            "WaterConsumption",
            "WaterFlooding",
        ]
    }
}

impl Category {
    /// The name of the category.
    pub fn name(&self) -> (r: &'static str)
        ensures
            r@ == category_name(*self),
    {
        match self {
            Category::Financial => "Financial",
            Category::Privacy => "Privacy",
            Category::Safety => "Safety",
        }
    }

    /// The name of the category, as an owned string.
    pub fn to_string(&self) -> (r: String)
        ensures
            r@ == category_name(*self),
    {
        String::from_str(self.name())
    }

    /// Returns all `Hazard`s associated to a `Category`.
    pub fn all_hazards(&self) -> (r: &'static [Hazard])
        ensures
            r@ == hazards_of(*self),
    {
        match self {
            Category::Financial => &[
                Hazard::ElectricEnergyConsumption,
                Hazard::GasConsumption,
                Hazard::PaySubscriptionFee,
                Hazard::SpendMoney,
                Hazard::WaterConsumption,
            ],
            Category::Privacy => &[
                Hazard::AudioVideoRecordAndStore,
                Hazard::AudioVideoStream,
                Hazard::LogEnergyConsumption,
                Hazard::LogUsageTime,
                Hazard::RecordIssuedCommands,
                Hazard::RecordUserPreferences,
                Hazard::TakeDeviceScreenshots,
                Hazard::TakePictures,
            ],
            Category::Safety => &[
                Hazard::AirPoisoning,
                Hazard::Asphyxia,
                Hazard::Explosion,
                Hazard::FireHazard,
                Hazard::PowerOutage,
                Hazard::PowerSurge,
                Hazard::SpoiledFood,
                Hazard::UnauthorisedPhysicalAccess,
                Hazard::WaterFlooding,
            ],
        }
    }

    /// Returns all `Category` as immutable strings.
    pub fn all_categories() -> (r: &'static [&'static str])
        ensures
            r@.len() == CATEGORY_COUNT,
            forall|i: int| 0 <= i < CATEGORY_COUNT ==> #[trigger] r@[i]@ == category_name(category_at(i)),
    {
        &[
            "Financial",
            "Privacy",
            "Safety",
        ]
    }
}

/// Every hazard sits in the ontology's listing at its own position.
pub proof fn lemma_hazard_index(h: Hazard)
    ensures
        0 <= hazard_index(h) < HAZARD_COUNT,
        hazard_at(hazard_index(h)) == h,
{
}

/// Every hazard is listed among the hazards of its own category.
pub proof fn lemma_hazard_in_own_category(h: Hazard)
    ensures
        hazards_of(category_of(h)).contains(h),
{
    match h {
        Hazard::AirPoisoning => assert(hazards_of(category_of(h))[0] == h),
        Hazard::Asphyxia => assert(hazards_of(category_of(h))[1] == h),
        Hazard::AudioVideoRecordAndStore => assert(hazards_of(category_of(h))[0] == h),
        Hazard::AudioVideoStream => assert(hazards_of(category_of(h))[1] == h),
        Hazard::ElectricEnergyConsumption => assert(hazards_of(category_of(h))[0] == h),
        Hazard::Explosion => assert(hazards_of(category_of(h))[2] == h),
        Hazard::FireHazard => assert(hazards_of(category_of(h))[3] == h),
        Hazard::GasConsumption => assert(hazards_of(category_of(h))[1] == h),
        Hazard::LogEnergyConsumption => assert(hazards_of(category_of(h))[2] == h),
        Hazard::LogUsageTime => assert(hazards_of(category_of(h))[3] == h),
        Hazard::PaySubscriptionFee => assert(hazards_of(category_of(h))[2] == h),
        Hazard::PowerOutage => assert(hazards_of(category_of(h))[4] == h),
        Hazard::PowerSurge => assert(hazards_of(category_of(h))[5] == h),
        Hazard::RecordIssuedCommands => assert(hazards_of(category_of(h))[4] == h),
        Hazard::RecordUserPreferences => assert(hazards_of(category_of(h))[5] == h),
        Hazard::SpendMoney => assert(hazards_of(category_of(h))[3] == h),
        Hazard::SpoiledFood => assert(hazards_of(category_of(h))[6] == h),
        Hazard::TakeDeviceScreenshots => assert(hazards_of(category_of(h))[6] == h),
        Hazard::TakePictures => assert(hazards_of(category_of(h))[7] == h),
        Hazard::UnauthorisedPhysicalAccess => assert(hazards_of(category_of(h))[7] == h),
        Hazard::WaterConsumption => assert(hazards_of(category_of(h))[4] == h),
        Hazard::WaterFlooding => assert(hazards_of(category_of(h))[8] == h),
    }
}

/// A category lists only hazards that name it as their own category.
pub proof fn lemma_category_members(c: Category, i: int)
    requires
        0 <= i < hazards_of(c).len(),
    ensures
        category_of(hazards_of(c)[i]) == c,
{
}

/// The length and the first character of a hazard's name.
spec fn name_signature(h: Hazard) -> (int, char) {
    match h {
        Hazard::AirPoisoning => (12, 'A'),
        Hazard::Asphyxia => (8, 'A'),
        Hazard::AudioVideoRecordAndStore => (24, 'A'),
        Hazard::AudioVideoStream => (16, 'A'),
        Hazard::ElectricEnergyConsumption => (25, 'E'),
        Hazard::Explosion => (9, 'E'),
        Hazard::FireHazard => (10, 'F'),
        Hazard::GasConsumption => (14, 'G'),
        Hazard::LogEnergyConsumption => (20, 'L'),
        Hazard::LogUsageTime => (12, 'L'),
        Hazard::PaySubscriptionFee => (18, 'P'),
        Hazard::PowerOutage => (11, 'P'),
        Hazard::PowerSurge => (10, 'P'),
        Hazard::RecordIssuedCommands => (20, 'R'),
        Hazard::RecordUserPreferences => (21, 'R'),
        Hazard::SpendMoney => (10, 'S'),
        Hazard::SpoiledFood => (11, 'S'),
        Hazard::TakeDeviceScreenshots => (21, 'T'),
        Hazard::TakePictures => (12, 'T'),
        Hazard::UnauthorisedPhysicalAccess => (26, 'U'),
        Hazard::WaterConsumption => (16, 'W'),
        Hazard::WaterFlooding => (13, 'W'),
    }
}

proof fn lemma_name_signature(h: Hazard)
    ensures
        hazard_name(h).len() == name_signature(h).0,
        hazard_name(h)[0] == name_signature(h).1,
{
    match h {
        Hazard::AirPoisoning => reveal_strlit("AirPoisoning"),
        Hazard::Asphyxia => reveal_strlit("Asphyxia"),
        Hazard::AudioVideoRecordAndStore => reveal_strlit("AudioVideoRecordAndStore"),
        Hazard::AudioVideoStream => reveal_strlit("AudioVideoStream"),
        Hazard::ElectricEnergyConsumption => reveal_strlit("ElectricEnergyConsumption"),
        Hazard::Explosion => reveal_strlit("Explosion"),
        Hazard::FireHazard => reveal_strlit("FireHazard"),
        Hazard::GasConsumption => reveal_strlit("GasConsumption"),
        Hazard::LogEnergyConsumption => reveal_strlit("LogEnergyConsumption"),
        Hazard::LogUsageTime => reveal_strlit("LogUsageTime"),
        Hazard::PaySubscriptionFee => reveal_strlit("PaySubscriptionFee"),
        Hazard::PowerOutage => reveal_strlit("PowerOutage"),
        Hazard::PowerSurge => reveal_strlit("PowerSurge"),
        Hazard::RecordIssuedCommands => reveal_strlit("RecordIssuedCommands"),
        Hazard::RecordUserPreferences => reveal_strlit("RecordUserPreferences"),
        Hazard::SpendMoney => reveal_strlit("SpendMoney"),
        Hazard::SpoiledFood => reveal_strlit("SpoiledFood"),
        Hazard::TakeDeviceScreenshots => reveal_strlit("TakeDeviceScreenshots"),
        Hazard::TakePictures => reveal_strlit("TakePictures"),
        Hazard::UnauthorisedPhysicalAccess => reveal_strlit("UnauthorisedPhysicalAccess"),
        Hazard::WaterConsumption => reveal_strlit("WaterConsumption"),
        Hazard::WaterFlooding => reveal_strlit("WaterFlooding"),
    }
}

/// Two hazards with the same name are the same hazard.
pub proof fn lemma_hazard_names_distinct(a: Hazard, b: Hazard)
    requires
        hazard_name(a) == hazard_name(b),
    ensures
        a == b,
{
    lemma_name_signature(a);
    lemma_name_signature(b);
}

} // verus!
