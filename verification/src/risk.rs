//! The catalogue of risks: one entry for each hazard.

use std::borrow::Cow;

use vstd::prelude::*;

use crate::hazard::{Category, Id};
use crate::text::clone_text;

verus! {

/// What a [`Detail`] stands for.
pub struct DetailView {
    pub id: Id,
    pub category: Category,
    pub description: Seq<char>,
    pub name: Seq<char>,
}

/// The description of a risk.
#[derive(Debug, Eq, Hash, PartialEq)]
pub struct Detail {
    id: Id,
    category: Category,
    /// The description of the hazard, in human-readable form.
    pub description: Cow<'static, str>,
    /// The name of the hazard, in human-readable form.
    pub name: Cow<'static, str>,
}

impl View for Detail {
    type V = DetailView;

    closed spec fn view(&self) -> DetailView {
        DetailView {
            id: self.id,
            category: self.category,
            description: self.description@,
            name: self.name@,
        }
    }
}

impl Clone for Detail {
    fn clone(&self) -> (copy: Detail)
        ensures
            copy@ == self@,
    {
        Detail {
            id: self.id,
            category: self.category,
            description: clone_text(&self.description),
            name: clone_text(&self.name),
        }
    }
}

impl Detail {
    /// A description of the risk `id`, which need not be the catalogue's.
    pub fn new(
        id: Id,
        category: Category,
        description: Cow<'static, str>,
        name: Cow<'static, str>,
    ) -> (detail: Detail)
        ensures
            detail@ == (DetailView { id, category, description: description@, name: name@ }),
    {
        Detail { id, category, description, name }
    }

    /// The ID of the hazard.
    #[must_use]
    pub fn id(&self) -> (id: Id)
        ensures
            id == self@.id,
    {
        self.id
    }

    /// The category of the hazard.
    #[must_use]
    pub fn category(&self) -> (category: Category)
        ensures
            category == self@.category,
    {
        self.category
    }
}

/// The catalogue: what is known of each hazard.
pub open spec fn catalogue(id: Id) -> DetailView {
    match id {
        Id::AirPoisoning => DetailView {
            id: Id::AirPoisoning,
            category: Category::Safety,
            description: "The execution may release toxic gases"@,
            name: "Air poisoning"@,
        },
        Id::Asphyxia => DetailView {
            id: Id::Asphyxia,
            category: Category::Safety,
            description: "The execution may cause oxygen deficiency by gaseous substances"@,
            name: "Asphyxia"@,
        },
        Id::AudioVideoRecordAndStore => DetailView {
            id: Id::AudioVideoRecordAndStore,
            category: Category::Privacy,
            description: "The execution authorises the app to record and save a video with audio on persistent storage"@,
            name: "Audio video record and store"@,
        },
        Id::AudioVideoStream => DetailView {
            id: Id::AudioVideoStream,
            category: Category::Privacy,
            description: "The execution authorises the app to obtain a video stream with audio"@,
            name: "Audio video stream"@,
        },
        Id::Burn => DetailView {
            id: Id::Burn,
            category: Category::Safety,
            description: "The execution may cause skin burns"@,
            name: "Burn"@,
        },
        Id::ElectricEnergyConsumption => DetailView {
            id: Id::ElectricEnergyConsumption,
            category: Category::Financial,
            description: "The execution enables a device that consumes electricity"@,
            name: "Electric energy consumption"@,
        },
        Id::Explosion => DetailView {
            id: Id::Explosion,
            category: Category::Safety,
            description: "The execution may cause an explosion"@,
            name: "Explosion"@,
        },
        Id::FireHazard => DetailView {
            id: Id::FireHazard,
            category: Category::Safety,
            description: "The execution may cause fire"@,
            name: "Fire hazard"@,
        },
        Id::GasConsumption => DetailView {
            id: Id::GasConsumption,
            category: Category::Financial,
            description: "The execution enables a device that consumes gas"@,
            name: "Gas consumption"@,
        },
        Id::LogEnergyConsumption => DetailView {
            id: Id::LogEnergyConsumption,
            category: Category::Privacy,
            description: "The execution authorises the app to get and save information about the app's energy impact on the device the app runs on"@,
            name: "Log energy consumption"@,
        },
        Id::LogUsageTime => DetailView {
            id: Id::LogUsageTime,
            category: Category::Privacy,
            description: "The execution authorises the app to get and save information about the app's duration of use"@,
            name: "Log usage time"@,
        },
        Id::PaySubscriptionFee => DetailView {
            id: Id::PaySubscriptionFee,
            category: Category::Financial,
            description: "The execution authorises the app to use payment information and make a periodic payment"@,
            name: "Pay subscription fee"@,
        },
        Id::PowerOutage => DetailView {
            id: Id::PowerOutage,
            category: Category::Safety,
            description: "The execution may cause an interruption in the supply of electricity"@,
            name: "Power outage"@,
        },
        Id::PowerSurge => DetailView {
            id: Id::PowerSurge,
            category: Category::Safety,
            description: "The execution may lead to exposure to high voltages"@,
            name: "Power surge"@,
        },
        Id::RecordIssuedCommands => DetailView {
            id: Id::RecordIssuedCommands,
            category: Category::Privacy,
            description: "The execution authorises the app to get and save user inputs"@,
            name: "Record issued commands"@,
        },
        Id::RecordUserPreferences => DetailView {
            id: Id::RecordUserPreferences,
            category: Category::Privacy,
            description: "The execution authorises the app to get and save information about the user's preferences"@,
            name: "Record user preferences"@,
        },
        Id::Scald => DetailView {
            id: Id::Scald,
            category: Category::Safety,
            description: "The execution may cause burns from hot liquid or steam"@,
            name: "Scald"@,
        },
        Id::SpendMoney => DetailView {
            id: Id::SpendMoney,
            category: Category::Financial,
            description: "The execution authorises the app to use payment information and make a payment transaction"@,
            name: "Spend money"@,
        },
        Id::SpoiledFood => DetailView {
            id: Id::SpoiledFood,
            category: Category::Safety,
            description: "The execution may lead to rotten food"@,
            name: "Spoiled food"@,
        },
        Id::TakeDeviceScreenshots => DetailView {
            id: Id::TakeDeviceScreenshots,
            category: Category::Privacy,
            description: "The execution authorises the app to read the display output and take screenshots of it"@,
            name: "Take device screenshots"@,
        },
        Id::TakePictures => DetailView {
            id: Id::TakePictures,
            category: Category::Privacy,
            description: "The execution authorises the app to use a camera and take photos"@,
            name: "Take pictures"@,
        },
        Id::UnauthorisedPhysicalAccess => DetailView {
            id: Id::UnauthorisedPhysicalAccess,
            category: Category::Safety,
            description: "The execution disables a protection mechanism and unauthorised individuals may physically enter home"@,
            name: "Unauthorised physical access"@,
        },
        Id::WaterConsumption => DetailView {
            id: Id::WaterConsumption,
            category: Category::Financial,
            description: "The execution enables a device that consumes water"@,
            name: "Water consumption"@,
        },
        Id::WaterFlooding => DetailView {
            id: Id::WaterFlooding,
            category: Category::Safety,
            description: "The execution allows water usage which may lead to flood"@,
            name: "Water flooding"@,
        },
    }
}

/// The catalogue's entry for a hazard is filed under that hazard.
pub proof fn lemma_catalogue_id(id: Id)
    ensures
        catalogue(id).id == id,
{
}

/// An air poisoning risk.
pub fn air_poisoning() -> (detail: Detail)
    ensures
        detail@ == catalogue(Id::AirPoisoning),
{
    Detail {
        id: Id::AirPoisoning,
        category: Category::Safety,
        description: Cow::Borrowed("The execution may release toxic gases"),
        name: Cow::Borrowed("Air poisoning"),
    }
}

/// An asphyxia risk.
pub fn asphyxia() -> (detail: Detail)
    ensures
        detail@ == catalogue(Id::Asphyxia),
{
    Detail {
        id: Id::Asphyxia,
        category: Category::Safety,
        description: Cow::Borrowed("The execution may cause oxygen deficiency by gaseous substances"),
        name: Cow::Borrowed("Asphyxia"),
    }
}

/// An audio video record and store risk.
pub fn audio_video_record_and_store() -> (detail: Detail)
    ensures
        detail@ == catalogue(Id::AudioVideoRecordAndStore),
{
    Detail {
        id: Id::AudioVideoRecordAndStore,
        category: Category::Privacy,
        description: Cow::Borrowed("The execution authorises the app to record and save a video with audio on persistent storage"),
        name: Cow::Borrowed("Audio video record and store"),
    }
}

/// An audio video stream risk.
pub fn audio_video_stream() -> (detail: Detail)
    ensures
        detail@ == catalogue(Id::AudioVideoStream),
{
    Detail {
        id: Id::AudioVideoStream,
        category: Category::Privacy,
        description: Cow::Borrowed("The execution authorises the app to obtain a video stream with audio"),
        name: Cow::Borrowed("Audio video stream"),
    }
}

/// A burn risk.
pub fn burn() -> (detail: Detail)
    ensures
        detail@ == catalogue(Id::Burn),
{
    Detail {
        id: Id::Burn,
        category: Category::Safety,
        description: Cow::Borrowed("The execution may cause skin burns"),
        name: Cow::Borrowed("Burn"),
    }
}

/// An electric energy consumption risk.
pub fn electric_energy_consumption() -> (detail: Detail)
    ensures
        detail@ == catalogue(Id::ElectricEnergyConsumption),
{
    Detail {
        id: Id::ElectricEnergyConsumption,
        category: Category::Financial,
        description: Cow::Borrowed("The execution enables a device that consumes electricity"),
        name: Cow::Borrowed("Electric energy consumption"),
    }
}

/// An explosion risk.
pub fn explosion() -> (detail: Detail)
    ensures
        detail@ == catalogue(Id::Explosion),
{
    Detail {
        id: Id::Explosion,
        category: Category::Safety,
        description: Cow::Borrowed("The execution may cause an explosion"),
        name: Cow::Borrowed("Explosion"),
    }
}

/// A fire risk.
pub fn fire_hazard() -> (detail: Detail)
    ensures
        detail@ == catalogue(Id::FireHazard),
{
    Detail {
        id: Id::FireHazard,
        category: Category::Safety,
        description: Cow::Borrowed("The execution may cause fire"),
        name: Cow::Borrowed("Fire hazard"),
    }
}

/// A gas consumption risk.
pub fn gas_consumption() -> (detail: Detail)
    ensures
        detail@ == catalogue(Id::GasConsumption),
{
    Detail {
        id: Id::GasConsumption,
        category: Category::Financial,
        description: Cow::Borrowed("The execution enables a device that consumes gas"),
        name: Cow::Borrowed("Gas consumption"),
    }
}

/// A log energy consumption risk.
pub fn log_energy_consumption() -> (detail: Detail)
    ensures
        detail@ == catalogue(Id::LogEnergyConsumption),
{
    Detail {
        id: Id::LogEnergyConsumption,
        category: Category::Privacy,
        description: Cow::Borrowed("The execution authorises the app to get and save information about the app's energy impact on the device the app runs on"),
        name: Cow::Borrowed("Log energy consumption"),
    }
}

/// A log usage time risk.
pub fn log_usage_time() -> (detail: Detail)
    ensures
        detail@ == catalogue(Id::LogUsageTime),
{
    Detail {
        id: Id::LogUsageTime,
        category: Category::Privacy,
        description: Cow::Borrowed("The execution authorises the app to get and save information about the app's duration of use"),
        name: Cow::Borrowed("Log usage time"),
    }
}

/// A pay subscription fee risk.
pub fn pay_subscription_fee() -> (detail: Detail)
    ensures
        detail@ == catalogue(Id::PaySubscriptionFee),
{
    Detail {
        id: Id::PaySubscriptionFee,
        category: Category::Financial,
        description: Cow::Borrowed("The execution authorises the app to use payment information and make a periodic payment"),
        name: Cow::Borrowed("Pay subscription fee"),
    }
}

/// A power outage risk.
pub fn power_outage() -> (detail: Detail)
    ensures
        detail@ == catalogue(Id::PowerOutage),
{
    Detail {
        id: Id::PowerOutage,
        category: Category::Safety,
        description: Cow::Borrowed("The execution may cause an interruption in the supply of electricity"),
        name: Cow::Borrowed("Power outage"),
    }
}

/// A power surge risk.
pub fn power_surge() -> (detail: Detail)
    ensures
        detail@ == catalogue(Id::PowerSurge),
{
    Detail {
        id: Id::PowerSurge,
        category: Category::Safety,
        description: Cow::Borrowed("The execution may lead to exposure to high voltages"),
        name: Cow::Borrowed("Power surge"),
    }
}

/// A record issued commands risk.
pub fn record_issued_commands() -> (detail: Detail)
    ensures
        detail@ == catalogue(Id::RecordIssuedCommands),
{
    Detail {
        id: Id::RecordIssuedCommands,
        category: Category::Privacy,
        description: Cow::Borrowed("The execution authorises the app to get and save user inputs"),
        name: Cow::Borrowed("Record issued commands"),
    }
}

/// A record user preferences risk.
pub fn record_user_preferences() -> (detail: Detail)
    ensures
        detail@ == catalogue(Id::RecordUserPreferences),
{
    Detail {
        id: Id::RecordUserPreferences,
        category: Category::Privacy,
        description: Cow::Borrowed("The execution authorises the app to get and save information about the user's preferences"),
        name: Cow::Borrowed("Record user preferences"),
    }
}

/// A scald risk.
pub fn scald() -> (detail: Detail)
    ensures
        detail@ == catalogue(Id::Scald),
{
    Detail {
        id: Id::Scald,
        category: Category::Safety,
        description: Cow::Borrowed("The execution may cause burns from hot liquid or steam"),
        name: Cow::Borrowed("Scald"),
    }
}

/// A spend money risk.
pub fn spend_money() -> (detail: Detail)
    ensures
        detail@ == catalogue(Id::SpendMoney),
{
    Detail {
        id: Id::SpendMoney,
        category: Category::Financial,
        description: Cow::Borrowed("The execution authorises the app to use payment information and make a payment transaction"),
        name: Cow::Borrowed("Spend money"),
    }
}

/// A spoiled food risk.
pub fn spoiled_food() -> (detail: Detail)
    ensures
        detail@ == catalogue(Id::SpoiledFood),
{
    Detail {
        id: Id::SpoiledFood,
        category: Category::Safety,
        description: Cow::Borrowed("The execution may lead to rotten food"),
        name: Cow::Borrowed("Spoiled food"),
    }
}

/// A take device screenshots risk.
pub fn take_device_screenshots() -> (detail: Detail)
    ensures
        detail@ == catalogue(Id::TakeDeviceScreenshots),
{
    Detail {
        id: Id::TakeDeviceScreenshots,
        category: Category::Privacy,
        description: Cow::Borrowed("The execution authorises the app to read the display output and take screenshots of it"),
        name: Cow::Borrowed("Take device screenshots"),
    }
}

/// A take pictures risk.
pub fn take_pictures() -> (detail: Detail)
    ensures
        detail@ == catalogue(Id::TakePictures),
{
    Detail {
        id: Id::TakePictures,
        category: Category::Privacy,
        description: Cow::Borrowed("The execution authorises the app to use a camera and take photos"),
        name: Cow::Borrowed("Take pictures"),
    }
}

/// An unauthorised physical access risk.
pub fn unauthorised_physical_access() -> (detail: Detail)
    ensures
        detail@ == catalogue(Id::UnauthorisedPhysicalAccess),
{
    Detail {
        id: Id::UnauthorisedPhysicalAccess,
        category: Category::Safety,
        description: Cow::Borrowed("The execution disables a protection mechanism and unauthorised individuals may physically enter home"),
        name: Cow::Borrowed("Unauthorised physical access"),
    }
}

/// A water consumption risk.
pub fn water_consumption() -> (detail: Detail)
    ensures
        detail@ == catalogue(Id::WaterConsumption),
{
    Detail {
        id: Id::WaterConsumption,
        category: Category::Financial,
        description: Cow::Borrowed("The execution enables a device that consumes water"),
        name: Cow::Borrowed("Water consumption"),
    }
}

/// A water flooding risk.
pub fn water_flooding() -> (detail: Detail)
    ensures
        detail@ == catalogue(Id::WaterFlooding),
{
    Detail {
        id: Id::WaterFlooding,
        category: Category::Safety,
        description: Cow::Borrowed("The execution allows water usage which may lead to flood"),
        name: Cow::Borrowed("Water flooding"),
    }
}

} // verus!
