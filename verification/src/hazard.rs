//! Hazard-related structures.

use std::borrow::Cow;
use std::ops::Deref;

use vstd::prelude::*;
use vstd::std_specs::convert::TryFromSpecImpl;

use crate::condition;
use crate::risk;
use crate::text::clone_text;

verus! {

/// The ID of an hazard.
#[derive(Debug, Clone, Copy, Eq, Hash, PartialEq, Structural)]
#[non_exhaustive]
pub enum Id {
    /// Air poisoning
    AirPoisoning,
    /// Asphyxia
    Asphyxia,
    /// Audio video record and store
    AudioVideoRecordAndStore,
    /// Audio video stream
    AudioVideoStream,
    /// Burn
    Burn,
    /// Electric energy consumption
    ElectricEnergyConsumption,
    /// Explosion
    Explosion,
    /// Fire hazard
    FireHazard,
    /// Gas consumption
    GasConsumption,
    /// Log energy consumption
    LogEnergyConsumption,
    /// Log usage time
    LogUsageTime,
    /// Pay subscription fee
    PaySubscriptionFee,
    /// Power outage
    PowerOutage,
    /// Power surge
    PowerSurge,
    /// Record issued commands
    RecordIssuedCommands,
    /// Record user preferences
    RecordUserPreferences,
    /// Scald
    Scald,
    /// Spend money
    SpendMoney,
    /// Spoiled food
    SpoiledFood,
    /// Take device screenshots
    TakeDeviceScreenshots,
    /// Take pictures
    TakePictures,
    /// Unauthorised physical access
    UnauthorisedPhysicalAccess,
    /// Water consumption
    WaterConsumption,
    /// Water flooding
    WaterFlooding,
}

impl Id {
    /// The catalogue's entry for this hazard.
    pub fn risk(self) -> (detail: risk::Detail)
        ensures
            detail@ == risk::catalogue(self),
            detail@.id == self,
    {
        match self {
            Id::AirPoisoning => risk::air_poisoning(),
            Id::Asphyxia => risk::asphyxia(),
            Id::AudioVideoRecordAndStore => risk::audio_video_record_and_store(),
            Id::AudioVideoStream => risk::audio_video_stream(),
            Id::Burn => risk::burn(),
            Id::ElectricEnergyConsumption => risk::electric_energy_consumption(),
            Id::Explosion => risk::explosion(),
            Id::FireHazard => risk::fire_hazard(),
            Id::GasConsumption => risk::gas_consumption(),
            Id::LogEnergyConsumption => risk::log_energy_consumption(),
            Id::LogUsageTime => risk::log_usage_time(),
            Id::PaySubscriptionFee => risk::pay_subscription_fee(),
            Id::PowerOutage => risk::power_outage(),
            Id::PowerSurge => risk::power_surge(),
            Id::RecordIssuedCommands => risk::record_issued_commands(),
            Id::RecordUserPreferences => risk::record_user_preferences(),
            Id::Scald => risk::scald(),
            Id::SpendMoney => risk::spend_money(),
            Id::SpoiledFood => risk::spoiled_food(),
            Id::TakeDeviceScreenshots => risk::take_device_screenshots(),
            Id::TakePictures => risk::take_pictures(),
            Id::UnauthorisedPhysicalAccess => risk::unauthorised_physical_access(),
            Id::WaterConsumption => risk::water_consumption(),
            Id::WaterFlooding => risk::water_flooding(),
        }
    }
}

/// The category of an hazard.
#[derive(Debug, Clone, Copy, Eq, Hash, PartialEq, Structural)]
#[non_exhaustive]
pub enum Category {
    /// Financial
    Financial,
    /// Privacy
    Privacy,
    /// Safety
    Safety,
}

/// The risk associated with the hazard, with the level of risk.
///
/// This structure only contains the `id` of the risk and not all its details.
/// These are available in [`risk::Detail`] instead.
#[derive(Debug, Clone, Copy, Eq, Hash, PartialEq, Structural)]
pub struct Risk {
    /// The id of the associated risk.
    pub id: Id,
    /// The risk level for the hazard.
    pub level: u8,
}

/// The text that a pointer is kept as: the `#` that may lead a pointer
/// written as a URI fragment is left out.
pub open spec fn pointer_text(text: Seq<char>) -> Seq<char> {
    if text.len() > 0 && text[0] == '#' {
        text.skip(1)
    } else {
        text
    }
}

/// Whether `text` is a JSON pointer in its kept form: it is empty or starts
/// with `/`, and each `~` in it starts one of the escapes `~0` and `~1`.
pub open spec fn is_canonical_pointer(text: Seq<char>) -> bool {
    &&& text.len() > 0 ==> text[0] == '/'
    &&& forall|i: int|
        0 <= i < text.len() && #[trigger] text[i] == '~' ==> i + 1 < text.len() && (text[i + 1]
            == '0' || text[i + 1] == '1')
}

/// Whether `text` is accepted as a JSON pointer: a pointer in its kept form,
/// or one behind a leading `#`.
pub open spec fn is_json_pointer(text: Seq<char>) -> bool {
    is_canonical_pointer(pointer_text(text))
}

/// The text that a pointer is kept as is itself accepted, and kept as it is:
/// a pointer that is written out and read again is the same pointer.
pub proof fn lemma_kept_text_is_pointer(text: Seq<char>)
    requires
        is_canonical_pointer(text),
    ensures
        is_json_pointer(text),
        pointer_text(text) == text,
{
}

/// What is kept of an accepted text is a pointer in its kept form.
pub proof fn lemma_pointer_text_is_canonical(text: Seq<char>)
    requires
        is_json_pointer(text),
    ensures
        is_canonical_pointer(pointer_text(text)),
        pointer_text(pointer_text(text)) == pointer_text(text),
{
}

/// A text that does not start with `/` is no JSON pointer, unless it is empty
/// or `#`, or starts with `#/`.
pub proof fn lemma_leading_slash(text: Seq<char>)
    requires
        text.len() > 0,
        text[0] != '/',
        !(text[0] == '#' && (text.len() == 1 || text[1] == '/')),
    ensures
        !is_json_pointer(text),
{
    if text[0] == '#' {
        assert(text.skip(1)[0] == text[1]);
    }
}

/// `jsonptr::Pointer::try_from` on a `&str`, and `jsonptr::Pointer::as_str` on
/// what it returns. The text is accepted exactly when it is empty, `#`, or
/// starts with `/` or `#/` and has `0` or `1` behind every `~`; the pointer
/// then holds the text without the leading `#`.
#[verifier::external_body]
fn parse_pointer(text: &str) -> (kept: Option<String>)
    ensures
        kept is Some <==> is_json_pointer(text@),
        kept matches Some(k) ==> k@ == pointer_text(text@),
{
    match jsonptr::Pointer::try_from(text) {
        Ok(pointer) => Some(String::from(pointer.as_str())),
        Err(_) => None,
    }
}

/// An opaque abstraction for a JSON Pointer (RFC 6901).
#[derive(Debug, Eq, Hash, PartialEq)]
pub struct JsonPointer(String);

impl Clone for JsonPointer {
    fn clone(&self) -> (copy: Self)
        ensures
            copy@ == self@,
    {
        proof {
            use_type_invariant(self);
        }
        JsonPointer(self.0.clone())
    }
}

impl View for JsonPointer {
    type V = Seq<char>;

    closed spec fn view(&self) -> Seq<char> {
        self.0@
    }
}

impl JsonPointer {
    #[verifier::type_invariant]
    spec fn well_formed(self) -> bool {
        is_canonical_pointer(self.0@)
    }

    /// The pointer as text. The text is accepted as a pointer, and gives
    /// this pointer again.
    pub fn as_str(&self) -> (text: &str)
        ensures
            text@ == self@,
            is_canonical_pointer(text@),
            is_json_pointer(text@),
            pointer_text(text@) == self@,
    {
        proof {
            use_type_invariant(self);
        }
        self.0.as_str()
    }
}

/// An error caused by an invalid JSON pointer.
#[derive(Debug, PartialEq, Eq, Hash)]
pub struct InvalidJsonPointer<'a>(Cow<'a, str>);

impl<'a> Clone for InvalidJsonPointer<'a> {
    fn clone(&self) -> (copy: Self)
        ensures
            copy@ == self@,
    {
        InvalidJsonPointer(clone_text(&self.0))
    }
}

impl<'a> View for InvalidJsonPointer<'a> {
    type V = Seq<char>;

    closed spec fn view(&self) -> Seq<char> {
        self.0@
    }
}

impl<'a> InvalidJsonPointer<'a> {
    /// The text that was refused.
    pub fn as_str(&self) -> (text: &str)
        ensures
            text@ == self@,
    {
        match &self.0 {
            Cow::Borrowed(text) => text,
            Cow::Owned(text) => text.as_str(),
        }
    }
}

impl<'a> TryFrom<&'a str> for JsonPointer {
    type Error = InvalidJsonPointer<'a>;

    fn try_from(value: &'a str) -> (r: Result<Self, Self::Error>)
        ensures
            r is Ok <==> is_json_pointer(value@),
            r matches Ok(pointer) ==> pointer@ == pointer_text(value@),
            r matches Err(error) ==> error@ == value@,
    {
        match parse_pointer(value) {
            Some(kept) => Ok(JsonPointer(kept)),
            None => Err(InvalidJsonPointer(Cow::Borrowed(value))),
        }
    }
}

/// What `try_from` returns is stated by its own contract, over views: no
/// specification function can name the pointer that it builds.
impl<'a> TryFromSpecImpl<&'a str> for JsonPointer {
    open spec fn obeys_try_from_spec() -> bool {
        false
    }

    closed spec fn try_from_spec(value: &'a str) -> Result<Self, Self::Error> {
        Err(InvalidJsonPointer(Cow::Borrowed(value)))
    }
}

impl TryFrom<String> for JsonPointer {
    type Error = InvalidJsonPointer<'static>;

    fn try_from(value: String) -> (r: Result<Self, Self::Error>)
        ensures
            r is Ok <==> is_json_pointer(value@),
            r matches Ok(pointer) ==> pointer@ == pointer_text(value@),
            r matches Err(error) ==> error@ == value@,
    {
        match parse_pointer(value.as_str()) {
            Some(kept) => Ok(JsonPointer(kept)),
            None => Err(InvalidJsonPointer(Cow::Owned(value))),
        }
    }
}

/// As for `&str`: the contract of `try_from` says what it returns.
impl TryFromSpecImpl<String> for JsonPointer {
    open spec fn obeys_try_from_spec() -> bool {
        false
    }

    closed spec fn try_from_spec(value: String) -> Result<Self, Self::Error> {
        Err(InvalidJsonPointer(Cow::Owned(value)))
    }
}

impl Deref for JsonPointer {
    type Target = str;

    fn deref(&self) -> (text: &str)
        ensures
            text@ == self@,
    {
        self.0.as_str()
    }
}

impl AsRef<str> for JsonPointer {
    fn as_ref(&self) -> (text: &str)
        ensures
            text@ == self@,
    {
        self.0.as_str()
    }
}

/// What a [`Condition`] stands for.
pub struct ConditionView {
    pub pointer: Seq<char>,
    pub condition: condition::ConditionView,
}

/// A condition that needs to be satisfied based on the data available from the Thing.
#[derive(Debug, Eq, Hash, PartialEq)]
pub struct Condition {
    /// The JSON pointer for the expression to be evaluated.
    ///
    /// The relative document is the Thing Description.
    pub pointer: JsonPointer,
    /// The condition that needs to be satisfied.
    pub condition: condition::Condition,
}

impl View for Condition {
    type V = ConditionView;

    open spec fn view(&self) -> ConditionView {
        ConditionView { pointer: self.pointer@, condition: self.condition@ }
    }
}

impl Clone for Condition {
    fn clone(&self) -> (copy: Condition)
        ensures
            copy@ == self@,
    {
        Condition { pointer: self.pointer.clone(), condition: self.condition.clone() }
    }
}

/// What a [`Hazard`] stands for.
pub struct HazardView {
    pub risk: Risk,
    pub conditions: Seq<Seq<ConditionView>>,
}

/// An hazard element.
#[derive(Debug, Eq, Hash, PartialEq)]
pub struct Hazard {
    /// The associated risk.
    pub risk: Risk,
    /// The set of conditions that are required in order to trigger the hazard.
    ///
    /// There are two nested levels of vectors. The inner one express a logic
    /// `AND` between [`Condition`]s, the outer one express a logic `OR`
    /// between sets of conditions: `vec![vec![a, b], vec![c], vec![d, e, f]]`
    /// is `(a && b) || c || (d && e && f)`.
    pub conditions: Vec<Vec<Condition>>,
}

/// The conditions of a hazard, each by its view.
pub open spec fn conditions_view(conditions: Seq<Vec<Condition>>) -> Seq<Seq<ConditionView>> {
    conditions.map_values(|group: Vec<Condition>| group@.map_values(|c: Condition| c@))
}

impl View for Hazard {
    type V = HazardView;

    open spec fn view(&self) -> HazardView {
        HazardView { risk: self.risk, conditions: conditions_view(self.conditions@) }
    }
}

impl Clone for Hazard {
    fn clone(&self) -> (copy: Hazard)
        ensures
            copy@ == self@,
    {
        let conditions = self.conditions.clone();
        proof {
            let views = |clause: Vec<Condition>| clause@.map_values(|c: Condition| c@);
            assert forall|i: int| 0 <= i < conditions@.len() implies views(
                #[trigger] conditions@[i],
            ) == views(self.conditions@[i]) by {
                let theirs = self.conditions@[i];
                let ours = conditions@[i];
                assert(cloned(theirs, ours));
                assert(ours@.len() == theirs@.len());
                assert forall|j: int| 0 <= j < ours@.len() implies (#[trigger] ours@[j])@
                    == theirs@[j]@ by {
                    assert(cloned(theirs@[j], ours@[j]));
                }
                assert(ours@.map_values(|c: Condition| c@) =~= theirs@.map_values(
                    |c: Condition| c@,
                ));
            }
            assert(conditions_view(conditions@) =~= conditions_view(self.conditions@));
        }
        Hazard { risk: self.risk, conditions }
    }
}

} // verus!
