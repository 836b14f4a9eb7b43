//! The orbital elements of each planet as functions of the day count.
//!
//! Every element but the mean anomaly is a straight line in time, `base +
//! rate * d` for a day count of `d` days; the mean anomaly is such a line
//! taken modulo a full turn. The coefficients are those of a standard
//! low-precision theory, good to about a minute of arc for some centuries
//! around the reference epoch.

use vstd::prelude::*;
use crate::planet::Planet;
use crate::quantity::{Quantity, FULL_TURN, ONE, RATE_LIMIT};
use crate::time::{DayCount, NANOS_PER_DAY};

verus! {

/// The six elements that fix an orbit and the place of the planet on it.
#[derive(Clone, Copy, Debug, PartialEq, Eq, Hash, Structural)]
pub enum Element {
    /// Longitude of the ascending node, in degrees.
    AscendingNode,
    /// Inclination to the ecliptic, in degrees.
    Inclination,
    /// Angle from the ascending node to the periapsis, in degrees.
    ArgumentOfPeriapsis,
    /// Half the long axis of the ellipse, in astronomical units.
    SemiMajorAxis,
    /// Eccentricity of the ellipse, a pure number.
    Eccentricity,
    /// Mean anomaly, in degrees from 0 to 360, 360 left out.
    MeanAnomaly,
}

// Each table gives, element by element in the order of `Element`, the value
// at the reference epoch and its change in a day, both in units of
// `1 / UNITS_PER_ONE`.

/// The elements of Mercury.
pub const MERCURY: [(i64, i64); 6] = [
    // ascending node: 48.3313 + 3.24587E-5 d
    (48_331_300_000_000, 32_458_700),
    // inclination: 7.0047 + 5.00E-8 d
    (7_004_700_000_000, 50_000),
    // argument of periapsis: 29.1241 + 1.01444E-5 d
    (29_124_100_000_000, 10_144_400),
    // semi-major axis: 0.387098
    (387_098_000_000, 0),
    // eccentricity: 0.205635 + 5.59E-10 d
    (205_635_000_000, 559),
    // mean anomaly: 168.6562 + 4.0923344368 d
    (168_656_200_000_000, 4_092_334_436_800),
];

/// The elements of Venus.
pub const VENUS: [(i64, i64); 6] = [
    // ascending node: 76.6799 + 2.46590E-5 d
    (76_679_900_000_000, 24_659_000),
    // inclination: 3.3946 + 2.75E-8 d
    (3_394_600_000_000, 27_500),
    // argument of periapsis: 54.8910 + 1.38374E-5 d
    (54_891_000_000_000, 13_837_400),
    // semi-major axis: 0.723330
    (723_330_000_000, 0),
    // eccentricity: 0.006773 - 1.302E-9 d
    (6_773_000_000, -1_302),
    // mean anomaly: 48.0052 + 1.6021302244 d
    (48_005_200_000_000, 1_602_130_224_400),
];

/// The elements of the Earth. Its orbit is the plane of
/// reference, so node and inclination are zero, and its periapsis lies half
/// a turn from the perihelion of the Sun's apparent orbit, at 282.9404 degrees.
pub const EARTH: [(i64, i64); 6] = [
    // ascending node: 0
    (0, 0),
    // inclination: 0
    (0, 0),
    // argument of periapsis: 102.9404 + 4.70935E-5 d
    (102_940_400_000_000, 47_093_500),
    // semi-major axis: 1.000000
    (1_000_000_000_000, 0),
    // eccentricity: 0.016709 - 1.151E-9 d
    (16_709_000_000, -1_151),
    // mean anomaly: 356.0470 + 0.9856002585 d
    (356_047_000_000_000, 985_600_258_500),
];

/// The elements of Mars.
pub const MARS: [(i64, i64); 6] = [
    // ascending node: 49.5574 + 2.11081E-5 d
    (49_557_400_000_000, 21_108_100),
    // inclination: 1.8497 - 1.78E-8 d
    (1_849_700_000_000, -17_800),
    // argument of periapsis: 286.5016 + 2.92961E-5 d
    (286_501_600_000_000, 29_296_100),
    // semi-major axis: 1.523688
    (1_523_688_000_000, 0),
    // eccentricity: 0.093405 + 2.516E-9 d
    (93_405_000_000, 2_516),
    // mean anomaly: 18.6021 + 0.5240207766 d
    (18_602_100_000_000, 524_020_776_600),
];

/// The elements of Jupiter.
pub const JUPITER: [(i64, i64); 6] = [
    // ascending node: 100.4542 + 2.76854E-5 d
    (100_454_200_000_000, 27_685_400),
    // inclination: 1.3030 - 1.557E-7 d
    (1_303_000_000_000, -155_700),
    // argument of periapsis: 273.8777 + 1.64505E-5 d
    (273_877_700_000_000, 16_450_500),
    // semi-major axis: 5.20256
    (5_202_560_000_000, 0),
    // eccentricity: 0.048498 + 4.469E-9 d
    (48_498_000_000, 4_469),
    // mean anomaly: 19.8950 + 0.0830853001 d
    (19_895_000_000_000, 83_085_300_100),
];

/// The elements of Saturn.
pub const SATURN: [(i64, i64); 6] = [
    // ascending node: 113.6634 + 2.38980E-5 d
    (113_663_400_000_000, 23_898_000),
    // inclination: 2.4886 - 1.081E-7 d
    (2_488_600_000_000, -108_100),
    // argument of periapsis: 339.3939 + 2.97661E-5 d
    (339_393_900_000_000, 29_766_100),
    // semi-major axis: 9.55475
    (9_554_750_000_000, 0),
    // eccentricity: 0.055546 - 9.499E-9 d
    (55_546_000_000, -9_499),
    // mean anomaly: 316.9670 + 0.0334442282 d
    (316_967_000_000_000, 33_444_228_200),
];

/// The elements of Uranus.
pub const URANUS: [(i64, i64); 6] = [
    // ascending node: 74.0005 + 1.3978E-5 d
    (74_000_500_000_000, 13_978_000),
    // inclination: 0.7733 + 1.9E-8 d
    (773_300_000_000, 19_000),
    // argument of periapsis: 96.6612 + 3.0565E-5 d
    (96_661_200_000_000, 30_565_000),
    // semi-major axis: 19.18171 - 1.55E-8 d
    (19_181_710_000_000, -15_500),
    // eccentricity: 0.047318 + 7.45E-9 d
    (47_318_000_000, 7_450),
    // mean anomaly: 142.5905 + 0.011725806 d
    (142_590_500_000_000, 11_725_806_000),
];

/// The elements of Neptune.
pub const NEPTUNE: [(i64, i64); 6] = [
    // ascending node: 131.7806 + 3.0173E-5 d
    (131_780_600_000_000, 30_173_000),
    // inclination: 1.7700 - 2.55E-7 d
    (1_770_000_000_000, -255_000),
    // argument of periapsis: 272.8461 - 6.027E-6 d
    (272_846_100_000_000, -6_027_000),
    // semi-major axis: 30.05826 + 3.313E-8 d
    (30_058_260_000_000, 33_130),
    // eccentricity: 0.008606 + 2.15E-9 d
    (8_606_000_000, 2_150),
    // mean anomaly: 260.2471 + 0.005995147 d
    (260_247_100_000_000, 5_995_147_000),
];

/// For each planet, in the order of `PLANETS`, the first and the last
/// nanosecond, counted from the reference epoch, at which the straight line
/// of its eccentricity describes an ellipse. Beyond them the line has left
/// the range from 0 to 1, and the theory with it.
pub const ELLIPTICAL_SPAN: [(i128, i128); 8] = [
    // Mercury: from 1 007 152 years before the epoch to 3 890 613 years after
    (-31_783_298_747_763_864_042_933, 122_778_418_604_651_162_790_697),
    // Venus: from 2 088 562 years before to 14 242 years after
    (-65_909_994_470_046_082_949_308, 449_452_534_562_211_981_566),
    // Earth: from 2 338 926 years before to 39 745 years after
    (-73_810_896_959_165_942_658_557, 1_254_263_770_634_231_103_388),
    // Mars: from 101 641 years before to 986 535 years after
    (-3_207_548_489_666_136_724_960, 31_132_674_085_850_556_438_791),
    // Jupiter: from 29 711 years before to 582 920 years after
    (-937_620_765_271_872_902_215, 18_395_563_392_257_775_788_767),
    // Saturn: from 272 215 years before to 16 010 years after
    (-8_590_464_848_931_466_470_154, 505_229_434_677_334_456_258),
    // Uranus: from 17 389 years before to 350 108 years after
    (-548_761_771_812_080_536_912, 11_048_553_664_429_530_201_342),
    // Neptune: from 10 959 years before to 1 262 460 years after
    (-345_841_116_279_069_767_441, 39_840_205_395_348_837_209_302),
];

impl Element {
    /// The row of the element in a table of coefficients.
    pub open spec fn ordinal(self) -> int {
        match self {
            Element::AscendingNode => 0,
            Element::Inclination => 1,
            Element::ArgumentOfPeriapsis => 2,
            Element::SemiMajorAxis => 3,
            Element::Eccentricity => 4,
            Element::MeanAnomaly => 5,
        }
    }

    /// The row of the element in a table of coefficients.
    pub fn index(self) -> (i: usize)
        ensures
            i == self.ordinal(),
            i < 6,
    {
        match self {
            Element::AscendingNode => 0,
            Element::Inclination => 1,
            Element::ArgumentOfPeriapsis => 2,
            Element::SemiMajorAxis => 3,
            Element::Eccentricity => 4,
            Element::MeanAnomaly => 5,
        }
    }
}

/// The table of coefficients of a planet.
pub open spec fn coefficients(planet: Planet) -> [(i64, i64); 6] {
    match planet {
        Planet::Mercury => MERCURY,
        Planet::Venus => VENUS,
        Planet::Earth => EARTH,
        Planet::Mars => MARS,
        Planet::Jupiter => JUPITER,
        Planet::Saturn => SATURN,
        Planet::Uranus => URANUS,
        Planet::Neptune => NEPTUNE,
    }
}

/// The value of an element at the reference epoch and its change in a day.
pub open spec fn line(planet: Planet, element: Element) -> (i64, i64) {
    coefficients(planet)[element.ordinal()]
}

/// The numerator of an element of a planet, `nanos` nanoseconds after the
/// reference epoch: `base + rate * d` with `d = nanos / NANOS_PER_DAY` days,
/// and for the mean anomaly that value modulo a full turn.
pub open spec fn element_at(planet: Planet, element: Element, nanos: int) -> int {
    let (base, rate) = line(planet, element);
    let value = base * NANOS_PER_DAY + rate * nanos;
    if element == Element::MeanAnomaly {
        value % (FULL_TURN as int)
    } else {
        value
    }
}

/// Whether an instant, in nanoseconds after the reference epoch, lies in the
/// span of time for which the orbit of the planet is an ellipse.
pub open spec fn in_elliptical_span(planet: Planet, nanos: int) -> bool {
    ELLIPTICAL_SPAN[planet.ordinal()].0 <= nanos <= ELLIPTICAL_SPAN[planet.ordinal()].1
}

/// The table of coefficients of a planet.
pub fn coefficients_of(planet: Planet) -> (table: [(i64, i64); 6])
    ensures
        table == coefficients(planet),
{
    match planet {
        Planet::Mercury => MERCURY,
        Planet::Venus => VENUS,
        Planet::Earth => EARTH,
        Planet::Mars => MARS,
        Planet::Jupiter => JUPITER,
        Planet::Saturn => SATURN,
        Planet::Uranus => URANUS,
        Planet::Neptune => NEPTUNE,
    }
}

/// No element of any planet changes by more than `RATE_LIMIT` units a day.
pub proof fn rates_are_moderate(planet: Planet, element: Element)
    ensures
        -RATE_LIMIT <= line(planet, element).1 <= RATE_LIMIT,
{
}

/// Within the elliptical span of a planet its eccentricity is at least 0
/// and less than 1.
pub proof fn eccentricity_is_elliptical_within_span(planet: Planet, nanos: int)
    requires
        in_elliptical_span(planet, nanos),
    ensures
        0 <= element_at(planet, Element::Eccentricity, nanos) < ONE,
{
    let (base, rate) = line(planet, Element::Eccentricity);
    let (first, last) = ELLIPTICAL_SPAN[planet.ordinal()];
    assert(0 <= base * NANOS_PER_DAY + rate * nanos < ONE) by (nonlinear_arith)
        requires
            (base, rate) == line(planet, Element::Eccentricity),
            (first, last) == ELLIPTICAL_SPAN[planet.ordinal()],
            first <= nanos <= last,
    ;
}

/// Outside the elliptical span of a planet its eccentricity is negative, or
/// 1 or more: the span leaves out no instant at which the orbit is an
/// ellipse.
pub proof fn eccentricity_is_not_elliptical_outside_span(planet: Planet, nanos: int)
    requires
        !in_elliptical_span(planet, nanos),
    ensures
        !(0 <= element_at(planet, Element::Eccentricity, nanos) < ONE),
{
    let (base, rate) = line(planet, Element::Eccentricity);
    let (first, last) = ELLIPTICAL_SPAN[planet.ordinal()];
    assert(!(0 <= base * NANOS_PER_DAY + rate * nanos < ONE)) by (nonlinear_arith)
        requires
            (base, rate) == line(planet, Element::Eccentricity),
            (first, last) == ELLIPTICAL_SPAN[planet.ordinal()],
            nanos < first || last < nanos,
    ;
}

/// The mean anomaly of every planet lies, at every instant, in the range
/// from 0 to 360 degrees, 360 left out.
pub proof fn mean_anomaly_is_normalized(planet: Planet, nanos: int)
    ensures
        0 <= element_at(planet, Element::MeanAnomaly, nanos) < FULL_TURN,
{
}

/// The orbit of the Earth lies in the plane of reference at every instant:
/// its inclination and the longitude of its node are zero.
pub proof fn earth_orbit_is_the_ecliptic(nanos: int)
    ensures
        element_at(Planet::Earth, Element::Inclination, nanos) == 0,
        element_at(Planet::Earth, Element::AscendingNode, nanos) == 0,
{
    let (base, rate) = line(Planet::Earth, Element::Inclination);
    assert(base * NANOS_PER_DAY + rate * nanos == 0) by (nonlinear_arith)
        requires
            (base, rate) == line(Planet::Earth, Element::Inclination),
    ;
    let (base, rate) = line(Planet::Earth, Element::AscendingNode);
    assert(base * NANOS_PER_DAY + rate * nanos == 0) by (nonlinear_arith)
        requires
            (base, rate) == line(Planet::Earth, Element::AscendingNode),
    ;
}

/// An element of a planet at a day count, without rounding.
pub fn element_of(planet: Planet, element: Element, d: DayCount) -> (q: Quantity)
    ensures
        q@ == element_at(planet, element, d.nanos as int),
        element == Element::MeanAnomaly ==> 0 <= q@ < FULL_TURN,
        q.wf(),
{
    let table = coefficients_of(planet);
    let (base, rate) = table[element.index()];
    proof {
        rates_are_moderate(planet, element);
    }
    let value = Quantity::linear(base, rate, d);
    match element {
        Element::MeanAnomaly => value.wrap_turn(),
        _ => value,
    }
}

/// Whether a day count lies in the span of time for which the orbit of the
/// planet is an ellipse, that is, whether its eccentricity there is at least
/// 0 and less than 1.
pub fn is_elliptical_at(planet: Planet, d: DayCount) -> (b: bool)
    ensures
        b == in_elliptical_span(planet, d.nanos as int),
        b == (0 <= element_at(planet, Element::Eccentricity, d.nanos as int) < ONE),
{
    proof {
        if in_elliptical_span(planet, d.nanos as int) {
            eccentricity_is_elliptical_within_span(planet, d.nanos as int);
        } else {
            eccentricity_is_not_elliptical_outside_span(planet, d.nanos as int);
        }
    }
    let (first, last) = ELLIPTICAL_SPAN[planet.index()];
    first <= d.nanos && d.nanos <= last
}

} // verus!
