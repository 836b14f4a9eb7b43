//! The orbit of a planet at an instant.

use vstd::prelude::*;
use crate::elements::{element_at, element_of, Element};
use crate::perturbation::{
    latitude_terms,
    latitude_terms_at,
    longitude_terms,
    longitude_terms_at,
    terms_wf,
    views,
    PeriodicTerm,
    TermModel,
};
use crate::planet::Planet;
use crate::quantity::{quantity_is_its_value, Quantity, FULL_TURN, ONE, UNITS_PER_ONE};
use crate::time::DayCount;

verus! {

/// The orbit of a planet at an instant, as numbers: the numerator of each
/// element, and the waves of each correction where the planet has one.
pub struct OrbitModel {
    pub ascending_node: int,
    pub inclination: int,
    pub argument_of_periapsis: int,
    pub semi_major_axis: int,
    pub eccentricity: int,
    pub mean_anomaly: int,
    pub longitude_perturbation: Option<Seq<TermModel>>,
    pub latitude_perturbation: Option<Seq<TermModel>>,
}

/// The orbit of a planet at an instant: the ellipse, its place in space, the
/// place of the planet on it, and the corrections that the position needs.
/// Angles are in degrees, the semi-major axis in astronomical units. An orbit
/// is made anew for every instant and never changed.
#[derive(Debug)]
pub struct Orbit {
    pub ascending_node: Quantity,
    pub inclination: Quantity,
    pub argument_of_periapsis: Quantity,
    pub semi_major_axis: Quantity,
    pub eccentricity: Quantity,
    pub mean_anomaly: Quantity,
    pub longitude_perturbation: Option<Vec<PeriodicTerm>>,
    pub latitude_perturbation: Option<Vec<PeriodicTerm>>,
}

/// The waves of a correction as numbers, where there is a correction.
pub open spec fn correction_view(terms: Option<Vec<PeriodicTerm>>) -> Option<Seq<TermModel>> {
    match terms {
        Some(terms) => Some(views(terms@)),
        None => None,
    }
}

/// Every argument of the waves of a correction is a well-formed quantity in
/// the range of a full turn.
pub open spec fn correction_wf(terms: Option<Vec<PeriodicTerm>>) -> bool {
    match terms {
        Some(terms) => terms_wf(terms@),
        None => true,
    }
}

impl View for Orbit {
    type V = OrbitModel;

    open spec fn view(&self) -> OrbitModel {
        OrbitModel {
            ascending_node: self.ascending_node@,
            inclination: self.inclination@,
            argument_of_periapsis: self.argument_of_periapsis@,
            semi_major_axis: self.semi_major_axis@,
            eccentricity: self.eccentricity@,
            mean_anomaly: self.mean_anomaly@,
            longitude_perturbation: correction_view(self.longitude_perturbation),
            latitude_perturbation: correction_view(self.latitude_perturbation),
        }
    }
}

impl Orbit {
    /// Every quantity of the orbit is well formed, and the mean anomaly lies
    /// in the range from 0 to 360 degrees, 360 left out.
    pub open spec fn wf(self) -> bool {
        &&& self.ascending_node.wf()
        &&& self.inclination.wf()
        &&& self.argument_of_periapsis.wf()
        &&& self.semi_major_axis.wf()
        &&& self.eccentricity.wf()
        &&& self.mean_anomaly.wf()
        &&& correction_wf(self.longitude_perturbation)
        &&& correction_wf(self.latitude_perturbation)
        &&& 0 <= self.mean_anomaly@ < FULL_TURN
    }

    /// Whether the position on this orbit needs a correction, in longitude
    /// or in latitude. Where it needs none, the position found on the
    /// ellipse is final.
    pub fn is_perturbed(&self) -> (b: bool)
        ensures
            b == (self@.longitude_perturbation.is_some() || self@.latitude_perturbation.is_some()),
    {
        self.longitude_perturbation.is_some() || self.latitude_perturbation.is_some()
    }

    /// Whether the orbit is an ellipse: whether its eccentricity is at least
    /// 0 and less than 1.
    pub fn is_elliptical(&self) -> (b: bool)
        ensures
            b == (0 <= self@.eccentricity < ONE),
    {
        let units = self.eccentricity.units();
        0 <= units && units < UNITS_PER_ONE
    }
}

/// The orbit of a planet, `nanos` nanoseconds after the reference epoch.
pub open spec fn orbit_at(planet: Planet, nanos: int) -> OrbitModel {
    OrbitModel {
        ascending_node: element_at(planet, Element::AscendingNode, nanos),
        inclination: element_at(planet, Element::Inclination, nanos),
        argument_of_periapsis: element_at(planet, Element::ArgumentOfPeriapsis, nanos),
        semi_major_axis: element_at(planet, Element::SemiMajorAxis, nanos),
        eccentricity: element_at(planet, Element::Eccentricity, nanos),
        mean_anomaly: element_at(planet, Element::MeanAnomaly, nanos),
        longitude_perturbation: longitude_terms_at(planet, nanos),
        latitude_perturbation: latitude_terms_at(planet, nanos),
    }
}

/// The orbit of a planet at a day count.
pub fn elements_of(planet: Planet, d: DayCount) -> (orbit: Orbit)
    ensures
        orbit@ == orbit_at(planet, d.nanos as int),
        orbit.wf(),
{
    let longitude_perturbation = longitude_terms(planet, d);
    let latitude_perturbation = latitude_terms(planet, d);
    assert(correction_view(longitude_perturbation) == longitude_terms_at(planet, d.nanos as int));
    assert(correction_view(latitude_perturbation) == latitude_terms_at(planet, d.nanos as int));
    Orbit {
        ascending_node: element_of(planet, Element::AscendingNode, d),
        inclination: element_of(planet, Element::Inclination, d),
        argument_of_periapsis: element_of(planet, Element::ArgumentOfPeriapsis, d),
        semi_major_axis: element_of(planet, Element::SemiMajorAxis, d),
        eccentricity: element_of(planet, Element::Eccentricity, d),
        mean_anomaly: element_of(planet, Element::MeanAnomaly, d),
        longitude_perturbation,
        latitude_perturbation,
    }
}

/// The theory corrects the longitude of Jupiter, Saturn and Uranus, the
/// latitude of Saturn, and nothing else: the orbit of Mercury, Venus, the
/// Earth, Mars or Neptune carries no correction at any instant.
pub proof fn corrections_belong_to_the_giants(planet: Planet, nanos: int)
    ensures
        orbit_at(planet, nanos).longitude_perturbation.is_some() <==> planet.is_perturbed(),
        orbit_at(planet, nanos).latitude_perturbation.is_some() <==> planet == Planet::Saturn,
        !planet.is_perturbed() ==> orbit_at(planet, nanos).longitude_perturbation.is_none()
            && orbit_at(planet, nanos).latitude_perturbation.is_none(),
{
}

/// Whether two corrections hold the same waves in the same order, or are
/// both absent.
pub open spec fn same_correction(
    a: Option<Vec<PeriodicTerm>>,
    b: Option<Vec<PeriodicTerm>>,
) -> bool {
    match (a, b) {
        (Some(a), Some(b)) => a@ == b@,
        (None, None) => true,
        _ => false,
    }
}

/// Waves that are the same numbers are the same waves.
proof fn lemma_same_correction(a: Option<Vec<PeriodicTerm>>, b: Option<Vec<PeriodicTerm>>)
    requires
        correction_view(a) == correction_view(b),
        correction_wf(a),
        correction_wf(b),
    ensures
        same_correction(a, b),
{
    if let (Some(x), Some(y)) = (a, b) {
        assert(views(x@).len() == views(y@).len());
        assert forall|i: int| 0 <= i < x@.len() implies x@[i] == y@[i] by {
            assert(views(x@)[i] == views(y@)[i]);
            assert(x@[i].argument.wf() && y@[i].argument.wf());
            quantity_is_its_value(x@[i].argument, y@[i].argument);
        }
        assert(x@ =~= y@);
    }
}

/// The orbit of a planet at an instant is one orbit: two orbits that
/// `elements_of` may return for the same planet and the same day count hold
/// the same values, field by field, so that asking twice gives the same
/// answer.
pub proof fn elements_are_determined(planet: Planet, nanos: int, a: Orbit, b: Orbit)
    requires
        a@ == orbit_at(planet, nanos),
        a.wf(),
        b@ == orbit_at(planet, nanos),
        b.wf(),
    ensures
        a.ascending_node == b.ascending_node,
        a.inclination == b.inclination,
        a.argument_of_periapsis == b.argument_of_periapsis,
        a.semi_major_axis == b.semi_major_axis,
        a.eccentricity == b.eccentricity,
        a.mean_anomaly == b.mean_anomaly,
        same_correction(a.longitude_perturbation, b.longitude_perturbation),
        same_correction(a.latitude_perturbation, b.latitude_perturbation),
{
    quantity_is_its_value(a.ascending_node, b.ascending_node);
    quantity_is_its_value(a.inclination, b.inclination);
    quantity_is_its_value(a.argument_of_periapsis, b.argument_of_periapsis);
    quantity_is_its_value(a.semi_major_axis, b.semi_major_axis);
    quantity_is_its_value(a.eccentricity, b.eccentricity);
    quantity_is_its_value(a.mean_anomaly, b.mean_anomaly);
    lemma_same_correction(a.longitude_perturbation, b.longitude_perturbation);
    lemma_same_correction(a.latitude_perturbation, b.latitude_perturbation);
}

} // verus!
