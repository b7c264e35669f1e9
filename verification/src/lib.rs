//! Hazards of a connected device, and the conditions under which they arise.
//!
//! A [`Sifis`] value lists the hazards of a Thing, each with the conditions
//! that trigger it, and the catalogue's description of every risk that the
//! hazards name. [`Sifis::builder`] builds one from calls.

pub mod builder;
pub mod condition;
pub mod hazard;
pub mod risk;
mod text;

use vstd::prelude::*;

use crate::hazard::{Hazard, HazardView};
use crate::risk::{Detail, DetailView};

verus! {

/// What a [`Sifis`] stands for.
pub struct SifisView {
    pub risks: Seq<DetailView>,
    pub hazards: Seq<HazardView>,
}

/// The hazards of a Thing.
#[derive(Debug, Eq, Hash, PartialEq)]
pub struct Sifis {
    /// The description of each risk that a hazard names.
    pub risks: Vec<Detail>,
    /// The hazards.
    pub hazards: Vec<Hazard>,
}

impl View for Sifis {
    type V = SifisView;

    open spec fn view(&self) -> SifisView {
        SifisView {
            risks: self.risks@.map_values(|detail: Detail| detail@),
            hazards: self.hazards@.map_values(|hazard: Hazard| hazard@),
        }
    }
}

impl Clone for Sifis {
    fn clone(&self) -> (copy: Sifis)
        ensures
            copy@ == self@,
    {
        let risks = self.risks.clone();
        let hazards = self.hazards.clone();
        proof {
            assert forall|i: int| 0 <= i < risks@.len() implies (#[trigger] risks@[i])@
                == self.risks@[i]@ by {
                assert(cloned(self.risks@[i], risks@[i]));
            }
            assert forall|i: int| 0 <= i < hazards@.len() implies (#[trigger] hazards@[i])@
                == self.hazards@[i]@ by {
                assert(cloned(self.hazards@[i], hazards@[i]));
            }
            assert(risks@.map_values(|detail: Detail| detail@) =~= self.risks@.map_values(
                |detail: Detail| detail@,
            ));
            assert(hazards@.map_values(|hazard: Hazard| hazard@) =~= self.hazards@.map_values(
                |hazard: Hazard| hazard@,
            ));
        }
        Sifis { risks, hazards }
    }
}

impl Sifis {
    /// A builder that holds no hazard yet.
    #[must_use]
    pub fn builder() -> (builder: builder::Builder)
        ensures
            builder.hazards() == Seq::<HazardView>::empty(),
            builder.risks() == Seq::<DetailView>::empty(),
    {
        builder::Builder::default()
    }
}

impl Default for Sifis {
    fn default() -> (sifis: Sifis)
        ensures
            sifis@.risks == Seq::<DetailView>::empty(),
            sifis@.hazards == Seq::<HazardView>::empty(),
    {
        Sifis { risks: Vec::new(), hazards: Vec::new() }
    }
}

} // verus!
