//! The eight major planets, in order of their distance from the Sun.

use vstd::prelude::*;

verus! {

/// A major planet of the solar system.
#[derive(Clone, Copy, Debug, PartialEq, Eq, Hash, Structural)]
pub enum Planet {
    Mercury,
    Venus,
    Earth,
    Mars,
    Jupiter,
    Saturn,
    Uranus,
    Neptune,
}

/// Every planet once, from Mercury outwards: the order in which results are
/// reported.
pub const PLANETS: [Planet; 8] = [
    Planet::Mercury,
    Planet::Venus,
    Planet::Earth,
    Planet::Mars,
    Planet::Jupiter,
    Planet::Saturn,
    Planet::Uranus,
    Planet::Neptune,
];

impl Planet {
    /// The place of the planet counted from the Sun, Mercury being 0.
    pub open spec fn ordinal(self) -> int {
        match self {
            Planet::Mercury => 0,
            Planet::Venus => 1,
            Planet::Earth => 2,
            Planet::Mars => 3,
            Planet::Jupiter => 4,
            Planet::Saturn => 5,
            Planet::Uranus => 6,
            Planet::Neptune => 7,
        }
    }

    /// Whether the pull of the other giant planets on this one is large
    /// enough for the theory to correct its position.
    pub open spec fn is_perturbed(self) -> bool {
        self == Planet::Jupiter || self == Planet::Saturn || self == Planet::Uranus
    }

    /// The place of the planet counted from the Sun, Mercury being 0.
    pub fn index(self) -> (i: usize)
        ensures
            i == self.ordinal(),
            i < 8,
    {
        match self {
            Planet::Mercury => 0,
            Planet::Venus => 1,
            Planet::Earth => 2,
            Planet::Mars => 3,
            Planet::Jupiter => 4,
            Planet::Saturn => 5,
            Planet::Uranus => 6,
            Planet::Neptune => 7,
        }
    }

    /// The planet at a place counted from the Sun, if there is one.
    pub fn from_index(i: usize) -> (planet: Option<Planet>)
        ensures
            i < 8 ==> planet == Some(PLANETS[i as int]),
            i >= 8 ==> planet.is_none(),
    {
        if i < 8 {
            Some(PLANETS[i])
        } else {
            None
        }
    }

    /// Whether the pull of the other giant planets on this one is large
    /// enough for the theory to correct its position.
    pub fn has_perturbations(self) -> (b: bool)
        ensures
            b == self.is_perturbed(),
    {
        match self {
            Planet::Jupiter | Planet::Saturn | Planet::Uranus => true,
            Planet::Mercury | Planet::Venus | Planet::Earth | Planet::Mars | Planet::Neptune => false,
        }
    }
}

/// `PLANETS` lists each planet at its own place: the place of a planet and
/// the planet at a place are inverse to each other.
pub proof fn planets_stand_in_order(planet: Planet)
    ensures
        0 <= planet.ordinal() < 8,
        PLANETS[planet.ordinal()] == planet,
{
}

} // verus!
