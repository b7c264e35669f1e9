use sifis_td::hazard::{Category, Id};
use sifis_td::risk;
use sifis_td::risk::Detail;

fn check(detail: Detail, id: Id, category: Category, name: &str, description: &str) {
    assert_eq!(detail.id(), id);
    assert_eq!(detail.category(), category);
    assert_eq!(detail.name, name);
    assert_eq!(detail.description, description);
    assert_eq!(id.risk(), detail);
}

#[test]
fn air_poisoning() {
    check(
        risk::air_poisoning(),
        Id::AirPoisoning,
        Category::Safety,
        "Air poisoning",
        "The execution may release toxic gases",
    );
}

#[test]
fn asphyxia() {
    check(
        risk::asphyxia(),
        Id::Asphyxia,
        Category::Safety,
        "Asphyxia",
        "The execution may cause oxygen deficiency by gaseous substances",
    );
}

#[test]
fn audio_video_record_and_store() {
    check(
        risk::audio_video_record_and_store(),
        Id::AudioVideoRecordAndStore,
        Category::Privacy,
        "Audio video record and store",
        "The execution authorises the app to record and save a video with audio on persistent storage",
    );
}

#[test]
fn audio_video_stream() {
    check(
        risk::audio_video_stream(),
        Id::AudioVideoStream,
        Category::Privacy,
        "Audio video stream",
        "The execution authorises the app to obtain a video stream with audio",
    );
}

#[test]
fn electric_energy_consumption() {
    check(
        risk::electric_energy_consumption(),
        Id::ElectricEnergyConsumption,
        Category::Financial,
        "Electric energy consumption",
        "The execution enables a device that consumes electricity",
    );
}

#[test]
fn explosion() {
    check(
        risk::explosion(),
        Id::Explosion,
        Category::Safety,
        "Explosion",
        "The execution may cause an explosion",
    );
}

#[test]
fn fire_hazard() {
    check(
        risk::fire_hazard(),
        Id::FireHazard,
        Category::Safety,
        "Fire hazard",
        "The execution may cause fire",
    );
}

#[test]
fn gas_consumption() {
    check(
        risk::gas_consumption(),
        Id::GasConsumption,
        Category::Financial,
        "Gas consumption",
        "The execution enables a device that consumes gas",
    );
}

#[test]
fn log_energy_consumption() {
    check(
        risk::log_energy_consumption(),
        Id::LogEnergyConsumption,
        Category::Privacy,
        "Log energy consumption",
        "The execution authorises the app to get and save information about the app's energy impact on the device the app runs on",
    );
}

#[test]
fn log_usage_time() {
    check(
        risk::log_usage_time(),
        Id::LogUsageTime,
        Category::Privacy,
        "Log usage time",
        "The execution authorises the app to get and save information about the app's duration of use",
    );
}

#[test]
fn pay_subscription_fee() {
    check(
        risk::pay_subscription_fee(),
        Id::PaySubscriptionFee,
        Category::Financial,
        "Pay subscription fee",
        "The execution authorises the app to use payment information and make a periodic payment",
    );
}

#[test]
fn power_outage() {
    check(
        risk::power_outage(),
        Id::PowerOutage,
        Category::Safety,
        "Power outage",
        "The execution may cause an interruption in the supply of electricity",
    );
}

#[test]
fn power_surge() {
    check(
        risk::power_surge(),
        Id::PowerSurge,
        Category::Safety,
        "Power surge",
        "The execution may lead to exposure to high voltages",
    );
}

#[test]
fn record_issued_commands() {
    check(
        risk::record_issued_commands(),
        Id::RecordIssuedCommands,
        Category::Privacy,
        "Record issued commands",
        "The execution authorises the app to get and save user inputs",
    );
}

#[test]
fn record_user_preferences() {
    check(
        risk::record_user_preferences(),
        Id::RecordUserPreferences,
        Category::Privacy,
        "Record user preferences",
        "The execution authorises the app to get and save information about the user's preferences",
    );
}

#[test]
fn spend_money() {
    check(
        risk::spend_money(),
        Id::SpendMoney,
        Category::Financial,
        "Spend money",
        "The execution authorises the app to use payment information and make a payment transaction",
    );
}

#[test]
fn spoiled_food() {
    check(
        risk::spoiled_food(),
        Id::SpoiledFood,
        Category::Safety,
        "Spoiled food",
        "The execution may lead to rotten food",
    );
}

#[test]
fn take_device_screenshots() {
    check(
        risk::take_device_screenshots(),
        Id::TakeDeviceScreenshots,
        Category::Privacy,
        "Take device screenshots",
        "The execution authorises the app to read the display output and take screenshots of it",
    );
}

#[test]
fn take_pictures() {
    check(
        risk::take_pictures(),
        Id::TakePictures,
        Category::Privacy,
        "Take pictures",
        "The execution authorises the app to use a camera and take photos",
    );
}

#[test]
fn unauthorised_physical_access() {
    check(
        risk::unauthorised_physical_access(),
        Id::UnauthorisedPhysicalAccess,
        Category::Safety,
        "Unauthorised physical access",
        "The execution disables a protection mechanism and unauthorised individuals may physically enter home",
    );
}

#[test]
fn water_consumption() {
    check(
        risk::water_consumption(),
        Id::WaterConsumption,
        Category::Financial,
        "Water consumption",
        "The execution enables a device that consumes water",
    );
}

#[test]
fn water_flooding() {
    check(
        risk::water_flooding(),
        Id::WaterFlooding,
        Category::Safety,
        "Water flooding",
        "The execution allows water usage which may lead to flood",
    );
}

#[test]
fn burn() {
    let detail = risk::burn();
    assert_eq!(detail.id(), Id::Burn);
    assert_eq!(detail.category(), Category::Safety);
    assert_eq!(detail.name, "Burn");
    assert_eq!(Id::Burn.risk(), detail);
}

#[test]
fn scald() {
    let detail = risk::scald();
    assert_eq!(detail.id(), Id::Scald);
    assert_eq!(detail.category(), Category::Safety);
    assert_eq!(detail.name, "Scald");
    assert_eq!(Id::Scald.risk(), detail);
}

#[test]
fn every_entry_is_filed_under_its_hazard() {
    let ids = [
        Id::AirPoisoning,
        Id::Asphyxia,
        Id::AudioVideoRecordAndStore,
        Id::AudioVideoStream,
        Id::Burn,
        Id::ElectricEnergyConsumption,
        Id::Explosion,
        Id::FireHazard,
        Id::GasConsumption,
        Id::LogEnergyConsumption,
        Id::LogUsageTime,
        Id::PaySubscriptionFee,
        Id::PowerOutage,
        Id::PowerSurge,
        Id::RecordIssuedCommands,
        Id::RecordUserPreferences,
        Id::Scald,
        Id::SpendMoney,
        Id::SpoiledFood,
        Id::TakeDeviceScreenshots,
        Id::TakePictures,
        Id::UnauthorisedPhysicalAccess,
        Id::WaterConsumption,
        Id::WaterFlooding,
    ];
    for (index, id) in ids.iter().enumerate() {
        let detail = id.risk();
        assert_eq!(detail.id(), *id);
        assert!(!detail.name.is_empty());
        assert!(!detail.description.is_empty());
        for other in &ids[index + 1..] {
            assert_ne!(other.risk(), detail);
        }
    }
}

#[test]
fn a_detail_can_be_written_by_hand() {
    let detail = Detail::new(
        Id::Burn,
        Category::Financial,
        "of my own".into(),
        String::from("Mine").into(),
    );
    assert_eq!(detail.id(), Id::Burn);
    assert_eq!(detail.category(), Category::Financial);
    assert_eq!(detail.description, "of my own");
    assert_eq!(detail.name, "Mine");
    assert_ne!(detail, risk::burn());
    assert_eq!(detail.clone(), detail);
    assert_eq!(risk::fire_hazard().clone(), risk::fire_hazard());
}
