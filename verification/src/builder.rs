//! Builders for the hazards of a Thing and for the conditions that trigger them.
//!
//! A set of conditions is a disjunction of clauses, and a clause a conjunction
//! of comparisons. The builder of such a set carries two flags in its type:
//! whether the clause at hand holds a comparison yet, and whether the builder
//! works inside an `or`. What can be called on it follows from the two.

use vstd::prelude::*;

use crate::condition;
use crate::condition::{Operation, Value};
use crate::hazard;
use crate::hazard::{
    is_json_pointer, pointer_text, ConditionView, Hazard, HazardView, Id, JsonPointer, Risk,
};
use crate::risk;
use crate::risk::{Detail, DetailView};
use crate::Sifis;

verus! {

/// A set of conditions: the clauses, each with its comparisons, in order.
pub type Clauses = Seq<Seq<ConditionView>>;

/// The clauses once a comparison is awaited: a set without clauses gets its
/// first one, and every other set stays as it is.
pub open spec fn opened(clauses: Clauses) -> Clauses {
    if clauses.len() == 0 {
        seq![Seq::empty()]
    } else {
        clauses
    }
}

/// The clauses with one more comparison at the end of the last clause.
pub open spec fn committed(clauses: Clauses, entry: ConditionView) -> Clauses
    recommends
        clauses.len() > 0,
{
    clauses.update(clauses.len() - 1, clauses.last().push(entry))
}

/// The clauses with a new, empty clause behind them.
pub open spec fn branched(clauses: Clauses) -> Clauses {
    clauses.push(Seq::empty())
}

/// Whether each clause but the last holds a comparison.
pub open spec fn settled_but_last(clauses: Clauses) -> bool {
    forall|i: int| 0 <= i < clauses.len() - 1 ==> (#[trigger] clauses[i]).len() > 0
}

/// Whether every clause holds a comparison.
pub open spec fn settled(clauses: Clauses) -> bool {
    forall|i: int| 0 <= i < clauses.len() ==> (#[trigger] clauses[i]).len() > 0
}

/// What the two flags say of the clauses: with `init` there is a clause and
/// every clause holds a comparison; without it the last clause, if there is
/// one, holds none, and the others do. A nested builder works behind at least
/// one finished clause, and a builder that is neither holds no clause at all.
pub open spec fn shaped(clauses: Clauses, init: bool, nested: bool) -> bool {
    &&& settled_but_last(clauses)
    &&& init ==> clauses.len() > 0 && clauses.last().len() > 0
    &&& !init && clauses.len() > 0 ==> clauses.last().len() == 0
    &&& nested ==> clauses.len() >= 2
    &&& !init && !nested ==> clauses.len() == 0
}

/// The comparison of the value behind `pointer` with `value`: equality where
/// there is no operation.
pub open spec fn comparison(pointer: Seq<char>, value: Value, op: Option<Operation>)
    -> ConditionView {
    ConditionView {
        pointer: pointer_text(pointer),
        condition: match op {
            None => condition::ConditionView::Value(value@),
            Some(op) => condition::ConditionView::Expr(condition::ExprView { value: value@, op }),
        },
    }
}

/// Whether `value` can be made a [`Value`]: its conversion never fails.
pub open spec fn converts<T: TryInto<Value>>(value: T) -> bool {
    forall|r: Result<Value, T::Error>|
        call_ensures(<T as TryInto<Value>>::try_into, (value,), r) ==> r is Ok
}

/// Whether `converted` is a [`Value`] that the conversion of `value` may give.
pub open spec fn converted_to<T: TryInto<Value>>(value: T, converted: Value) -> bool {
    call_ensures(<T as TryInto<Value>>::try_into, (value,), Ok(converted))
}

/// The hazards' identifiers, in order.
pub open spec fn ids(hazards: Seq<HazardView>) -> Seq<Id> {
    hazards.map_values(|hazard: HazardView| hazard.risk.id)
}

/// The identifiers in `ids`, each once, in the order in which they first occur.
pub open spec fn first_seen(ids: Seq<Id>) -> Seq<Id>
    decreases ids.len(),
{
    if ids.len() == 0 {
        Seq::empty()
    } else {
        let earlier = first_seen(ids.drop_last());
        if earlier.contains(ids.last()) {
            earlier
        } else {
            earlier.push(ids.last())
        }
    }
}

/// The catalogue's entries for the risks that the hazards name, each once, in
/// the order in which the hazards first name them.
pub open spec fn risks_of(hazards: Seq<HazardView>) -> Seq<DetailView> {
    first_seen(ids(hazards)).map_values(|id: Id| risk::catalogue(id))
}

/// Whether every clause of every hazard holds a comparison.
pub open spec fn all_settled(hazards: Seq<HazardView>) -> bool {
    forall|i: int| 0 <= i < hazards.len() ==> settled((#[trigger] hazards[i]).conditions)
}

/// Whether the function can be called on every builder that holds no clause.
pub open spec fn accepts_fresh<F, const INIT: bool>(condition: F) -> bool where
    F: FnOnce(Condition<false, false>) -> Condition<INIT, false>,
{
    forall|fresh: Condition<false, false>|
        fresh@ == Clauses::empty() ==> condition.requires((fresh,))
}

/// Collects the hazards of a Thing, and the catalogue's entry for each risk
/// that they name.
#[derive(Debug)]
pub struct Builder {
    risks: Vec<Detail>,
    hazards: Vec<Hazard>,
}

impl Default for Builder {
    fn default() -> (builder: Builder)
        ensures
            builder.hazards() == Seq::<HazardView>::empty(),
            builder.risks() == Seq::<DetailView>::empty(),
    {
        let risks: Vec<Detail> = Vec::new();
        let hazards: Vec<Hazard> = Vec::new();
        proof {
            let none = hazards@.map_values(|hazard: Hazard| hazard@);
            assert(ids(none) =~= Seq::empty());
            assert(risks@.map_values(|detail: Detail| detail@) =~= risks_of(none));
        }
        Builder { risks, hazards }
    }
}

impl Builder {
    #[verifier::type_invariant]
    spec fn well_formed(self) -> bool {
        &&& self.risks() == risks_of(self.hazards())
        &&& all_settled(self.hazards())
    }

    /// The hazards collected so far.
    pub closed spec fn hazards(self) -> Seq<HazardView> {
        self.hazards@.map_values(|hazard: Hazard| hazard@)
    }

    /// The catalogue entries collected so far.
    pub closed spec fn risks(self) -> Seq<DetailView> {
        self.risks@.map_values(|detail: Detail| detail@)
    }

    /// Whether `after` is this builder with one more hazard: `risk`, under
    /// `conditions`. The catalogue's entry for the risk is added where no
    /// earlier hazard names it, so that the entries stay those of the risks
    /// that the hazards name, each once, in the order of their first hazard.
    pub open spec fn recorded(self, risk: Risk, conditions: Clauses, after: Builder) -> bool {
        &&& after.hazards() == self.hazards().push(HazardView { risk, conditions })
        &&& after.risks() == if ids(self.hazards()).contains(risk.id) {
            self.risks()
        } else {
            self.risks().push(risk::catalogue(risk.id))
        }
        &&& after.risks() == risks_of(after.hazards())
    }

    /// Whether `after` is this builder with one more hazard: the risk `id` at
    /// `level`, under the conditions that `condition` made of a builder
    /// without clauses.
    pub open spec fn extended<F, const INIT: bool>(
        self,
        id: Id,
        level: u8,
        condition: F,
        after: Builder,
    ) -> bool where F: FnOnce(Condition<false, false>) -> Condition<INIT, false> {
        exists|fresh: Condition<false, false>, done: Condition<INIT, false>|
            {
                &&& fresh@ == Clauses::empty()
                &&& condition.ensures((fresh,), done)
                &&& shaped(done@, INIT, false)
                &&& self.recorded(Risk { id, level }, done@, after)
            }
    }

    /// Adds a hazard: the risk `id` at `level`, triggered under the conditions
    /// that `condition` builds.
    #[must_use]
    pub fn hazard<F, const INIT: bool>(
        self,
        id: Id,
        level: u8,
        condition: F,
    ) -> (builder: Self) where F: FnOnce(Condition<false, false>) -> Condition<INIT, false>
        requires
            accepts_fresh(condition),
        ensures
            self.extended(id, level, condition, builder),
    {
        let fresh: Condition<false, false> = Condition(Vec::new());
        assert(fresh@ =~= Clauses::empty());
        let done = condition(fresh);
        self.record(Risk { id, level }, done)
    }

    /// Adds the hazard of `risk` under the conditions that `done` holds.
    fn record<const INIT: bool>(self, risk: Risk, done: Condition<INIT, false>) -> (builder: Self)
        ensures
            self.recorded(risk, done@, builder),
            shaped(done@, INIT, false),
    {
        proof {
            use_type_invariant(&self);
            use_type_invariant(&done);
        }
        let id = risk.id;
        let Builder { mut risks, mut hazards } = self;
        let hazard = Hazard { risk, conditions: done.0 };
        let ghost added = hazard@;
        hazards.push(hazard);
        proof {
            let before = self.hazards();
            let after = hazards@.map_values(|hazard: Hazard| hazard@);
            assert(after =~= before.push(added));
            lemma_risks_of_push(before, added);
            lemma_first_seen_contains(ids(before), id);
            assert forall|i: int| 0 <= i < after.len() implies settled(
                (#[trigger] after[i]).conditions,
            ) by {
                if i < before.len() {
                    assert(after[i] == before[i]);
                }
            }
        }

        let mut known = false;
        let mut i: usize = 0;
        while i < risks.len()
            invariant
                i <= risks.len(),
                risks@ == self.risks@,
                known <==> exists|k: int| 0 <= k < i && (#[trigger] risks@[k])@.id == id,
            decreases risks.len() - i,
        {
            if risks[i].id() == id {
                known = true;
            }
            i += 1;
        }
        proof {
            let seen = first_seen(ids(self.hazards()));
            assert(self.risks().len() == risks@.len());
            assert(self.risks().len() == seen.len());
            assert forall|k: int| 0 <= k < seen.len() implies (#[trigger] risks@[k])@.id
                == seen[k] by {
                assert(self.risks()[k] == risks@[k]@);
                risk::lemma_catalogue_id(seen[k]);
            }
            if known {
                let k = choose|k: int|
                    0 <= k < risks@.len() && (#[trigger] risks@[k])@.id == id;
                assert(seen[k] == id);
            }
            if seen.contains(id) {
                let k = choose|k: int| 0 <= k < seen.len() && seen[k] == id;
                assert(risks@[k]@.id == id);
            }
        }
        if !known {
            risks.push(id.risk());
            assert(risks@.map_values(|detail: Detail| detail@) =~= self.risks().push(
                risk::catalogue(id),
            ));
        }
        Builder { risks, hazards }
    }

    /// The hazards and the catalogue entries that were collected.
    #[must_use]
    pub fn build(self) -> (sifis: Sifis)
        ensures
            sifis@.hazards == self.hazards(),
            sifis@.risks == self.risks(),
            sifis@.risks == risks_of(sifis@.hazards),
            all_settled(sifis@.hazards),
    {
        proof {
            use_type_invariant(&self);
        }
        let Builder { risks, hazards } = self;
        Sifis { risks, hazards }
    }

    /// Adds an air poisoning hazard: [`hazard`](Builder::hazard) with
    /// [`Id::AirPoisoning`].
    #[must_use]
    pub fn air_poisoning<F, const INIT: bool>(
        self,
        level: u8,
        condition: F,
    ) -> (builder: Self) where F: FnOnce(Condition<false, false>) -> Condition<INIT, false>
        requires
            accepts_fresh(condition),
        ensures
            self.extended(Id::AirPoisoning, level, condition, builder),
    {
        self.hazard(Id::AirPoisoning, level, condition)
    }

    /// Adds an asphyxia hazard: [`hazard`](Builder::hazard) with
    /// [`Id::Asphyxia`].
    #[must_use]
    pub fn asphyxia<F, const INIT: bool>(
        self,
        level: u8,
        condition: F,
    ) -> (builder: Self) where F: FnOnce(Condition<false, false>) -> Condition<INIT, false>
        requires
            accepts_fresh(condition),
        ensures
            self.extended(Id::Asphyxia, level, condition, builder),
    {
        self.hazard(Id::Asphyxia, level, condition)
    }

    /// Adds an audio video record and store hazard: [`hazard`](Builder::hazard) with
    /// [`Id::AudioVideoRecordAndStore`].
    #[must_use]
    pub fn audio_video_record_and_store<F, const INIT: bool>(
        self,
        level: u8,
        condition: F,
    ) -> (builder: Self) where F: FnOnce(Condition<false, false>) -> Condition<INIT, false>
        requires
            accepts_fresh(condition),
        ensures
            self.extended(Id::AudioVideoRecordAndStore, level, condition, builder),
    {
        self.hazard(Id::AudioVideoRecordAndStore, level, condition)
    }

    /// Adds an audio video stream hazard: [`hazard`](Builder::hazard) with
    /// [`Id::AudioVideoStream`].
    #[must_use]
    pub fn audio_video_stream<F, const INIT: bool>(
        self,
        level: u8,
        condition: F,
    ) -> (builder: Self) where F: FnOnce(Condition<false, false>) -> Condition<INIT, false>
        requires
            accepts_fresh(condition),
        ensures
            self.extended(Id::AudioVideoStream, level, condition, builder),
    {
        self.hazard(Id::AudioVideoStream, level, condition)
    }

    /// Adds a burn hazard: [`hazard`](Builder::hazard) with
    /// [`Id::Burn`].
    #[must_use]
    pub fn burn<F, const INIT: bool>(
        self,
        level: u8,
        condition: F,
    ) -> (builder: Self) where F: FnOnce(Condition<false, false>) -> Condition<INIT, false>
        requires
            accepts_fresh(condition),
        ensures
            self.extended(Id::Burn, level, condition, builder),
    {
        self.hazard(Id::Burn, level, condition)
    }

    /// Adds an electric energy consumption hazard: [`hazard`](Builder::hazard) with
    /// [`Id::ElectricEnergyConsumption`].
    #[must_use]
    pub fn electric_energy_consumption<F, const INIT: bool>(
        self,
        level: u8,
        condition: F,
    ) -> (builder: Self) where F: FnOnce(Condition<false, false>) -> Condition<INIT, false>
        requires
            accepts_fresh(condition),
        ensures
            self.extended(Id::ElectricEnergyConsumption, level, condition, builder),
    {
        self.hazard(Id::ElectricEnergyConsumption, level, condition)
    }

    /// Adds an explosion hazard: [`hazard`](Builder::hazard) with
    /// [`Id::Explosion`].
    #[must_use]
    pub fn explosion<F, const INIT: bool>(
        self,
        level: u8,
        condition: F,
    ) -> (builder: Self) where F: FnOnce(Condition<false, false>) -> Condition<INIT, false>
        requires
            accepts_fresh(condition),
        ensures
            self.extended(Id::Explosion, level, condition, builder),
    {
        self.hazard(Id::Explosion, level, condition)
    }

    /// Adds a fire hazard: [`hazard`](Builder::hazard) with
    /// [`Id::FireHazard`].
    #[must_use]
    pub fn fire_hazard<F, const INIT: bool>(
        self,
        level: u8,
        condition: F,
    ) -> (builder: Self) where F: FnOnce(Condition<false, false>) -> Condition<INIT, false>
        requires
            accepts_fresh(condition),
        ensures
            self.extended(Id::FireHazard, level, condition, builder),
    {
        self.hazard(Id::FireHazard, level, condition)
    }

    /// Adds a gas consumption hazard: [`hazard`](Builder::hazard) with
    /// [`Id::GasConsumption`].
    #[must_use]
    pub fn gas_consumption<F, const INIT: bool>(
        self,
        level: u8,
        condition: F,
    ) -> (builder: Self) where F: FnOnce(Condition<false, false>) -> Condition<INIT, false>
        requires
            accepts_fresh(condition),
        ensures
            self.extended(Id::GasConsumption, level, condition, builder),
    {
        self.hazard(Id::GasConsumption, level, condition)
    }

    /// Adds a log energy consumption hazard: [`hazard`](Builder::hazard) with
    /// [`Id::LogEnergyConsumption`].
    #[must_use]
    pub fn log_energy_consumption<F, const INIT: bool>(
        self,
        level: u8,
        condition: F,
    ) -> (builder: Self) where F: FnOnce(Condition<false, false>) -> Condition<INIT, false>
        requires
            accepts_fresh(condition),
        ensures
            self.extended(Id::LogEnergyConsumption, level, condition, builder),
    {
        self.hazard(Id::LogEnergyConsumption, level, condition)
    }

    /// Adds a log usage time hazard: [`hazard`](Builder::hazard) with
    /// [`Id::LogUsageTime`].
    #[must_use]
    pub fn log_usage_time<F, const INIT: bool>(
        self,
        level: u8,
        condition: F,
    ) -> (builder: Self) where F: FnOnce(Condition<false, false>) -> Condition<INIT, false>
        requires
            accepts_fresh(condition),
        ensures
            self.extended(Id::LogUsageTime, level, condition, builder),
    {
        self.hazard(Id::LogUsageTime, level, condition)
    }

    /// Adds a pay subscription fee hazard: [`hazard`](Builder::hazard) with
    /// [`Id::PaySubscriptionFee`].
    #[must_use]
    pub fn pay_subscription_fee<F, const INIT: bool>(
        self,
        level: u8,
        condition: F,
    ) -> (builder: Self) where F: FnOnce(Condition<false, false>) -> Condition<INIT, false>
        requires
            accepts_fresh(condition),
        ensures
            self.extended(Id::PaySubscriptionFee, level, condition, builder),
    {
        self.hazard(Id::PaySubscriptionFee, level, condition)
    }

    /// Adds a power outage hazard: [`hazard`](Builder::hazard) with
    /// [`Id::PowerOutage`].
    #[must_use]
    pub fn power_outage<F, const INIT: bool>(
        self,
        level: u8,
        condition: F,
    ) -> (builder: Self) where F: FnOnce(Condition<false, false>) -> Condition<INIT, false>
        requires
            accepts_fresh(condition),
        ensures
            self.extended(Id::PowerOutage, level, condition, builder),
    {
        self.hazard(Id::PowerOutage, level, condition)
    }

    /// Adds a power surge hazard: [`hazard`](Builder::hazard) with
    /// [`Id::PowerSurge`].
    #[must_use]
    pub fn power_surge<F, const INIT: bool>(
        self,
        level: u8,
        condition: F,
    ) -> (builder: Self) where F: FnOnce(Condition<false, false>) -> Condition<INIT, false>
        requires
            accepts_fresh(condition),
        ensures
            self.extended(Id::PowerSurge, level, condition, builder),
    {
        self.hazard(Id::PowerSurge, level, condition)
    }

    /// Adds a record issued commands hazard: [`hazard`](Builder::hazard) with
    /// [`Id::RecordIssuedCommands`].
    #[must_use]
    pub fn record_issued_commands<F, const INIT: bool>(
        self,
        level: u8,
        condition: F,
    ) -> (builder: Self) where F: FnOnce(Condition<false, false>) -> Condition<INIT, false>
        requires
            accepts_fresh(condition),
        ensures
            self.extended(Id::RecordIssuedCommands, level, condition, builder),
    {
        self.hazard(Id::RecordIssuedCommands, level, condition)
    }

    /// Adds a record user preferences hazard: [`hazard`](Builder::hazard) with
    /// [`Id::RecordUserPreferences`].
    #[must_use]
    pub fn record_user_preferences<F, const INIT: bool>(
        self,
        level: u8,
        condition: F,
    ) -> (builder: Self) where F: FnOnce(Condition<false, false>) -> Condition<INIT, false>
        requires
            accepts_fresh(condition),
        ensures
            self.extended(Id::RecordUserPreferences, level, condition, builder),
    {
        self.hazard(Id::RecordUserPreferences, level, condition)
    }

    /// Adds a scald hazard: [`hazard`](Builder::hazard) with
    /// [`Id::Scald`].
    #[must_use]
    pub fn scald<F, const INIT: bool>(
        self,
        level: u8,
        condition: F,
    ) -> (builder: Self) where F: FnOnce(Condition<false, false>) -> Condition<INIT, false>
        requires
            accepts_fresh(condition),
        ensures
            self.extended(Id::Scald, level, condition, builder),
    {
        self.hazard(Id::Scald, level, condition)
    }

    /// Adds a spend money hazard: [`hazard`](Builder::hazard) with
    /// [`Id::SpendMoney`].
    #[must_use]
    pub fn spend_money<F, const INIT: bool>(
        self,
        level: u8,
        condition: F,
    ) -> (builder: Self) where F: FnOnce(Condition<false, false>) -> Condition<INIT, false>
        requires
            accepts_fresh(condition),
        ensures
            self.extended(Id::SpendMoney, level, condition, builder),
    {
        self.hazard(Id::SpendMoney, level, condition)
    }

    /// Adds a spoiled food hazard: [`hazard`](Builder::hazard) with
    /// [`Id::SpoiledFood`].
    #[must_use]
    pub fn spoiled_food<F, const INIT: bool>(
        self,
        level: u8,
        condition: F,
    ) -> (builder: Self) where F: FnOnce(Condition<false, false>) -> Condition<INIT, false>
        requires
            accepts_fresh(condition),
        ensures
            self.extended(Id::SpoiledFood, level, condition, builder),
    {
        self.hazard(Id::SpoiledFood, level, condition)
    }

    /// Adds a take device screenshots hazard: [`hazard`](Builder::hazard) with
    /// [`Id::TakeDeviceScreenshots`].
    #[must_use]
    pub fn take_device_screenshots<F, const INIT: bool>(
        self,
        level: u8,
        condition: F,
    ) -> (builder: Self) where F: FnOnce(Condition<false, false>) -> Condition<INIT, false>
        requires
            accepts_fresh(condition),
        ensures
            self.extended(Id::TakeDeviceScreenshots, level, condition, builder),
    {
        self.hazard(Id::TakeDeviceScreenshots, level, condition)
    }

    /// Adds a take pictures hazard: [`hazard`](Builder::hazard) with
    /// [`Id::TakePictures`].
    #[must_use]
    pub fn take_pictures<F, const INIT: bool>(
        self,
        level: u8,
        condition: F,
    ) -> (builder: Self) where F: FnOnce(Condition<false, false>) -> Condition<INIT, false>
        requires
            accepts_fresh(condition),
        ensures
            self.extended(Id::TakePictures, level, condition, builder),
    {
        self.hazard(Id::TakePictures, level, condition)
    }

    /// Adds an unauthorised physical access hazard: [`hazard`](Builder::hazard) with
    /// [`Id::UnauthorisedPhysicalAccess`].
    #[must_use]
    pub fn unauthorised_physical_access<F, const INIT: bool>(
        self,
        level: u8,
        condition: F,
    ) -> (builder: Self) where F: FnOnce(Condition<false, false>) -> Condition<INIT, false>
        requires
            accepts_fresh(condition),
        ensures
            self.extended(Id::UnauthorisedPhysicalAccess, level, condition, builder),
    {
        self.hazard(Id::UnauthorisedPhysicalAccess, level, condition)
    }

    /// Adds a water consumption hazard: [`hazard`](Builder::hazard) with
    /// [`Id::WaterConsumption`].
    #[must_use]
    pub fn water_consumption<F, const INIT: bool>(
        self,
        level: u8,
        condition: F,
    ) -> (builder: Self) where F: FnOnce(Condition<false, false>) -> Condition<INIT, false>
        requires
            accepts_fresh(condition),
        ensures
            self.extended(Id::WaterConsumption, level, condition, builder),
    {
        self.hazard(Id::WaterConsumption, level, condition)
    }

    /// Adds a water flooding hazard: [`hazard`](Builder::hazard) with
    /// [`Id::WaterFlooding`].
    #[must_use]
    pub fn water_flooding<F, const INIT: bool>(
        self,
        level: u8,
        condition: F,
    ) -> (builder: Self) where F: FnOnce(Condition<false, false>) -> Condition<INIT, false>
        requires
            accepts_fresh(condition),
        ensures
            self.extended(Id::WaterFlooding, level, condition, builder),
    {
        self.hazard(Id::WaterFlooding, level, condition)
    }
}

/// A set of conditions under construction.
///
/// `INIT` says that the last clause holds a comparison, `NESTED` that the
/// builder was handed to the function given to [`or`](Condition::or).
#[derive(Debug)]
pub struct Condition<const INIT: bool, const NESTED: bool>(Vec<Vec<hazard::Condition>>);

impl<const INIT: bool, const NESTED: bool> View for Condition<INIT, NESTED> {
    type V = Clauses;

    closed spec fn view(&self) -> Clauses {
        hazard::conditions_view(self.0@)
    }
}

impl<const INIT: bool, const NESTED: bool> Condition<INIT, NESTED> {
    #[verifier::type_invariant]
    spec fn well_formed(self) -> bool {
        shaped(self@, INIT, NESTED)
    }

    fn add_condition(self, pointer: String) -> (partial: PartialCondition<NESTED>)
        ensures
            partial.conditions() == opened(self@),
            partial.pointer() == pointer@,
            shaped(self@, INIT, NESTED),
    {
        proof {
            use_type_invariant(&self);
        }
        let mut conditions = self.0;
        if conditions.len() == 0 {
            conditions.push(Vec::new());
            assert(hazard::conditions_view(conditions@)[0] =~= Seq::empty());
        }
        let outer_index = conditions.len() - 1;
        assert(hazard::conditions_view(conditions@) =~= opened(self@));
        PartialCondition { conditions, outer_index, pointer }
    }
}

impl<const NESTED: bool> Condition<false, NESTED> {
    /// Starts a clause with the value behind `pointer`; the comparison follows.
    #[must_use]
    pub fn when(self, pointer: &str) -> (partial: PartialCondition<NESTED>)
        ensures
            partial.conditions() == opened(self@),
            partial.pointer() == pointer@,
            NESTED ==> partial.conditions().len() == self@.len(),
    {
        self.add_condition(pointer.to_owned())
    }
}

impl<const NESTED: bool> Condition<true, NESTED> {
    /// Goes on with the clause at hand: the value behind `pointer` joins it
    /// once the comparison follows.
    #[must_use]
    pub fn and(self, pointer: &str) -> (partial: PartialCondition<NESTED>)
        ensures
            partial.conditions() == self@,
            partial.pointer() == pointer@,
    {
        self.add_condition(pointer.to_owned())
    }
}

impl Condition<true, false> {
    /// Starts a new clause, which the function `f` fills. The builder that `f`
    /// gets is nested: it has no `or` of its own.
    #[must_use]
    pub fn or<F>(self, f: F) -> (built: Condition<true, false>) where
        F: FnOnce(Condition<false, true>) -> Condition<true, true>,

        requires
            forall|nested: Condition<false, true>|
                nested@ == branched(self@) ==> f.requires((nested,)),
        ensures
            exists|nested: Condition<false, true>, filled: Condition<true, true>|
                nested@ == branched(self@) && f.ensures((nested,), filled) && built@ == filled@,
            shaped(built@, true, false),
    {
        proof {
            use_type_invariant(&self);
        }
        let mut conditions = self.0;
        conditions.push(Vec::new());
        assert(hazard::conditions_view(conditions@) =~= branched(self@)) by {
            assert(hazard::conditions_view(conditions@).last() =~= Seq::empty());
        }
        let filled = f(Condition(conditions));
        proof {
            use_type_invariant(&filled);
        }
        Condition(filled.0)
    }
}

/// A set of conditions that awaits the comparison for a pointer.
#[derive(Debug)]
pub struct PartialCondition<const NESTED: bool> {
    conditions: Vec<Vec<hazard::Condition>>,
    outer_index: usize,
    pointer: String,
}

impl<const NESTED: bool> PartialCondition<NESTED> {
    #[verifier::type_invariant]
    spec fn well_formed(self) -> bool {
        &&& self.conditions@.len() > 0
        &&& self.outer_index == self.conditions@.len() - 1
        &&& settled_but_last(self.conditions())
        &&& NESTED ==> self.conditions@.len() >= 2
    }

    /// The clauses so far; the comparison will join the last one.
    pub closed spec fn conditions(self) -> Clauses {
        hazard::conditions_view(self.conditions@)
    }

    /// The pointer to the value that will be compared, as it was given.
    pub closed spec fn pointer(self) -> Seq<char> {
        self.pointer@
    }

    /// Whether `after` holds the clauses of this builder and, at the end of
    /// the last one, the comparison with what `value` converts to.
    pub open spec fn compared<T: TryInto<Value>>(
        self,
        value: T,
        op: Option<Operation>,
        after: Clauses,
    ) -> bool {
        exists|converted: Value|
            converted_to(value, converted) && after == committed(
                self.conditions(),
                comparison(self.pointer(), converted, op),
            )
    }

    /// Asks that the value behind the pointer equals `value`.
    #[must_use]
    pub fn eq<T: TryInto<Value>>(self, value: T) -> (built: Condition<true, NESTED>)
        requires
            is_json_pointer(self.pointer()),
            converts(value),
        ensures
            self.compared(value, None, built@),
    {
        let make_condition = |v: Value| -> (made: condition::Condition)
            ensures
                made == condition::Condition::Value(v),
            {
                condition::Condition::Value(v)
            };
        self.op(value, make_condition)
    }

    /// Asks that the value behind the pointer differs from `value`.
    #[must_use]
    pub fn ne<T: TryInto<Value>>(self, value: T) -> (built: Condition<true, NESTED>)
        requires
            is_json_pointer(self.pointer()),
            converts(value),
        ensures
            self.compared(value, Some(Operation::Ne), built@),
    {
        self.expr(value, Operation::Ne)
    }

    /// Asks that the value behind the pointer is less than `value`.
    #[must_use]
    pub fn lt<T: TryInto<Value>>(self, value: T) -> (built: Condition<true, NESTED>)
        requires
            is_json_pointer(self.pointer()),
            converts(value),
        ensures
            self.compared(value, Some(Operation::Lt), built@),
    {
        self.expr(value, Operation::Lt)
    }

    /// Asks that the value behind the pointer is at most `value`.
    #[must_use]
    pub fn le<T: TryInto<Value>>(self, value: T) -> (built: Condition<true, NESTED>)
        requires
            is_json_pointer(self.pointer()),
            converts(value),
        ensures
            self.compared(value, Some(Operation::Le), built@),
    {
        self.expr(value, Operation::Le)
    }

    /// Asks that the value behind the pointer is at least `value`.
    #[must_use]
    pub fn ge<T: TryInto<Value>>(self, value: T) -> (built: Condition<true, NESTED>)
        requires
            is_json_pointer(self.pointer()),
            converts(value),
        ensures
            self.compared(value, Some(Operation::Ge), built@),
    {
        self.expr(value, Operation::Ge)
    }

    /// Asks that the value behind the pointer is greater than `value`.
    #[must_use]
    pub fn gt<T: TryInto<Value>>(self, value: T) -> (built: Condition<true, NESTED>)
        requires
            is_json_pointer(self.pointer()),
            converts(value),
        ensures
            self.compared(value, Some(Operation::Gt), built@),
    {
        self.expr(value, Operation::Gt)
    }

    fn op<T: TryInto<Value>, F>(self, value: T, make_condition: F) -> (built: Condition<
        true,
        NESTED,
    >) where F: FnOnce(Value) -> condition::Condition
        requires
            is_json_pointer(self.pointer()),
            converts(value),
            forall|v: Value| make_condition.requires((v,)),
        ensures
            exists|converted: Value, made: condition::Condition|
                converted_to(value, converted) && make_condition.ensures((converted,), made)
                    && built@ == committed(
                    self.conditions(),
                    ConditionView { pointer: pointer_text(self.pointer()), condition: made@ },
                ),
    {
        proof {
            use_type_invariant(&self);
        }
        let PartialCondition { mut conditions, outer_index, pointer } = self;
        let pointer = match JsonPointer::try_from(pointer) {
            Ok(pointer) => pointer,
            Err(_) => vstd::pervasive::unreached(),
        };
        let value = match value.try_into() {
            Ok(value) => value,
            Err(_) => vstd::pervasive::unreached(),
        };
        let condition = make_condition(value);
        let entry = hazard::Condition { pointer, condition };
        let ghost before = conditions@;
        conditions[outer_index].push(entry);
        proof {
            let last = outer_index as int;
            assert(conditions@.len() == before.len());
            assert(conditions@[last]@ == before[last]@.push(entry));
            assert(forall|i: int|
                0 <= i < before.len() && i != last ==> conditions@[i] == before[i]);
            let built = hazard::conditions_view(conditions@);
            let expected = committed(hazard::conditions_view(before), entry@);
            assert(built[last] =~= expected[last]);
            assert(built =~= expected);
        }
        Condition(conditions)
    }

    fn expr<T: TryInto<Value>>(self, value: T, op: Operation) -> (built: Condition<true, NESTED>)
        requires
            is_json_pointer(self.pointer()),
            converts(value),
        ensures
            self.compared(value, Some(op), built@),
    {
        let make_condition = |v: Value| -> (made: condition::Condition)
            ensures
                made == condition::Condition::Expr((condition::Expr { value: v, op })),
            {
                condition::Condition::Expr(condition::Expr { value: v, op })
            };
        self.op(value, make_condition)
    }
}

/// A comparison, then another for the same clause: one clause that holds
/// both, in the order in which they were given.
pub proof fn lemma_and_joins_clause(first: ConditionView, second: ConditionView)
    ensures
        committed(opened(committed(opened(Clauses::empty()), first)), second) == seq![
            seq![first, second],
        ],
{
    let one = committed(opened(Clauses::empty()), first);
    assert(one =~= seq![seq![first]]);
    let both = committed(opened(one), second);
    assert(both[0] =~= seq![first, second]);
    assert(both =~= seq![seq![first, second]]);
}

/// A comparison, then one behind an `or`: two clauses of one comparison each.
pub proof fn lemma_or_starts_clause(first: ConditionView, second: ConditionView)
    ensures
        committed(opened(branched(committed(opened(Clauses::empty()), first))), second) == seq![
            seq![first],
            seq![second],
        ],
{
    let one = committed(opened(Clauses::empty()), first);
    assert(one =~= seq![seq![first]]);
    let two = committed(opened(branched(one)), second);
    assert(two[0] =~= seq![first]);
    assert(two[1] =~= seq![second]);
    assert(two =~= seq![seq![first], seq![second]]);
}

/// Two comparisons, then two behind an `or`: two clauses of two comparisons
/// each, everything in the order in which it was given.
pub proof fn lemma_mixed_nesting(
    a: ConditionView,
    b: ConditionView,
    c: ConditionView,
    d: ConditionView,
)
    ensures
        committed(
            opened(
                committed(
                    opened(
                        branched(committed(opened(committed(opened(Clauses::empty()), a)), b)),
                    ),
                    c,
                ),
            ),
            d,
        ) == seq![seq![a, b], seq![c, d]],
{
    lemma_and_joins_clause(a, b);
    let left = seq![seq![a, b]];
    let half = committed(opened(branched(left)), c);
    assert(half[0] =~= seq![a, b]);
    assert(half[1] =~= seq![c]);
    let whole = committed(opened(half), d);
    assert(whole[0] =~= seq![a, b]);
    assert(whole[1] =~= seq![c, d]);
    assert(whole =~= seq![seq![a, b], seq![c, d]]);
}

/// Behind an `or` no clause is ever started: awaiting a comparison and
/// committing one both keep the number of clauses of a nested builder.
pub proof fn lemma_nested_keeps_clauses(clauses: Clauses, init: bool, entry: ConditionView)
    requires
        shaped(clauses, init, true),
    ensures
        opened(clauses) == clauses,
        committed(clauses, entry).len() == clauses.len(),
        shaped(committed(clauses, entry), true, true),
{
}

/// A hazard whose function hands its builder back as it came has no
/// conditions.
pub proof fn lemma_no_condition<F>(
    before: Builder,
    id: Id,
    level: u8,
    condition: F,
    after: Builder,
) where F: FnOnce(Condition<false, false>) -> Condition<false, false>
    requires
        forall|given: Condition<false, false>, handed: Condition<false, false>|
            condition.ensures((given,), handed) ==> handed@ == given@,
        before.extended(id, level, condition, after),
    ensures
        after.hazards() == before.hazards().push(
            HazardView { risk: Risk { id, level }, conditions: Clauses::empty() },
        ),
{
}

/// An identifier occurs among the first-seen ones exactly when it occurs at all.
pub proof fn lemma_first_seen_contains(all: Seq<Id>, id: Id)
    ensures
        first_seen(all).contains(id) <==> all.contains(id),
    decreases all.len(),
{
    if all.len() > 0 {
        let earlier = all.drop_last();
        lemma_first_seen_contains(earlier, id);
        lemma_first_seen_contains(earlier, all.last());
        if all.contains(id) {
            let k = choose|k: int| 0 <= k < all.len() && all[k] == id;
            if k < all.len() - 1 {
                assert(earlier[k] == id);
            }
        }
        if earlier.contains(id) {
            let k = choose|k: int| 0 <= k < earlier.len() && earlier[k] == id;
            assert(all[k] == id);
        }
        if !first_seen(earlier).contains(all.last()) {
            let grown = first_seen(earlier).push(all.last());
            if first_seen(earlier).contains(id) {
                let seen = first_seen(earlier);
                let k = choose|k: int| 0 <= k < seen.len() && seen[k] == id;
                assert(grown[k] == id);
            }
            assert(grown.last() == all.last());
        }
        assert(all[all.len() - 1] == all.last());
    }
}

/// No identifier occurs twice among the first-seen ones.
pub proof fn lemma_first_seen_no_duplicates(all: Seq<Id>)
    ensures
        first_seen(all).no_duplicates(),
    decreases all.len(),
{
    if all.len() > 0 {
        lemma_first_seen_no_duplicates(all.drop_last());
    }
}

/// The first-seen identifiers stand in the order in which they first occur:
/// the one at `i` occurs before the one at a later place `j` does at all.
pub proof fn lemma_first_seen_order(all: Seq<Id>, i: int, j: int)
    requires
        0 <= i < j < first_seen(all).len(),
    ensures
        exists|k: int|
            0 <= k < all.len() && #[trigger] all[k] == first_seen(all)[i] && forall|m: int|
                0 <= m <= k ==> all[m] != first_seen(all)[j],
    decreases all.len(),
{
    let earlier = all.drop_last();
    let seen = first_seen(earlier);
    if j < seen.len() {
        lemma_first_seen_order(earlier, i, j);
        let k = choose|k: int|
            0 <= k < earlier.len() && #[trigger] earlier[k] == seen[i] && forall|m: int|
                0 <= m <= k ==> earlier[m] != seen[j];
        assert(all[k] == first_seen(all)[i]);
        assert forall|m: int| 0 <= m <= k implies all[m] != first_seen(all)[j] by {
            assert(all[m] == earlier[m]);
        }
    } else {
        lemma_first_seen_contains(earlier, all.last());
        lemma_first_seen_contains(earlier, seen[i]);
        assert(seen.contains(seen[i]));
        let k = choose|k: int| 0 <= k < earlier.len() && earlier[k] == seen[i];
        assert(all[k] == first_seen(all)[i]);
        assert forall|m: int| 0 <= m <= k implies all[m] != first_seen(all)[j] by {
            assert(all[m] == earlier[m]);
            assert(earlier.contains(earlier[m]));
        }
    }
}

/// One more hazard adds its risk's entry to the catalogue entries where no
/// earlier hazard names that risk, and leaves them as they are where one does.
pub proof fn lemma_risks_of_push(hazards: Seq<HazardView>, hazard: HazardView)
    ensures
        risks_of(hazards.push(hazard)) == if ids(hazards).contains(hazard.risk.id) {
            risks_of(hazards)
        } else {
            risks_of(hazards).push(risk::catalogue(hazard.risk.id))
        },
{
    let id = hazard.risk.id;
    assert(ids(hazards.push(hazard)) =~= ids(hazards).push(id));
    assert(ids(hazards).push(id).drop_last() =~= ids(hazards));
    lemma_first_seen_contains(ids(hazards), id);
    if !ids(hazards).contains(id) {
        assert(risks_of(hazards.push(hazard)) =~= risks_of(hazards).push(risk::catalogue(id)));
    }
}

} // verus!
