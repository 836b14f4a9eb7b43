//! Exact quantities: angles, lengths and ratios without rounding.

use vstd::prelude::*;
use vstd::arithmetic::div_mod::lemma_fundamental_div_mod_converse;
use crate::time::{split_days, DayCount, NANOS_PER_DAY};

verus! {

/// Units in a whole: a unit is a millionth of a millionth of a degree, of an
/// astronomical unit, of a day, or of the number one.
pub const UNITS_PER_ONE: i128 = 1_000_000_000_000;

/// The numerator of the value one: `UNITS_PER_ONE * NANOS_PER_DAY`.
pub const ONE: i128 = 86_400_000_000_000_000_000_000_000;

/// The numerator of a full turn of 360 degrees.
pub const FULL_TURN: i128 = 31_104_000_000_000_000_000_000_000_000;

/// Units in a full turn of 360 degrees.
pub const UNITS_PER_TURN: i128 = 360_000_000_000_000;

/// The fastest change that `Quantity::linear` follows: ten wholes a day, in
/// units a day.
pub const RATE_LIMIT: i64 = 10_000_000_000_000;

/// More days than any count of nanoseconds in an `i128` holds.
pub const DAYS_LIMIT: i128 = 2_000_000_000_000_000_000_000_000;

/// An exact rational quantity. Its view is a numerator, and the quantity is
/// that numerator divided by `ONE`: a coefficient with twelve decimals,
/// multiplied by a time in days that is known to the nanosecond, is such a
/// number. It is held as whole units and a part of a unit, the part counted
/// in `NANOS_PER_DAY`-ths.
#[derive(Clone, Copy, Debug, PartialEq, Eq, Structural)]
pub struct Quantity {
    units: i128,
    part: u64,
}

impl View for Quantity {
    type V = int;

    closed spec fn view(&self) -> int {
        self.units * NANOS_PER_DAY + self.part
    }
}

impl Quantity {
    /// The part of a unit is less than a unit.
    #[verifier::type_invariant]
    pub closed spec fn wf(self) -> bool {
        self.part < NANOS_PER_DAY
    }

    /// The quantity of `units` whole units and `part / NANOS_PER_DAY` of a
    /// unit more, where the part is less than a unit.
    pub fn new(units: i128, part: u64) -> (q: Option<Quantity>)
        ensures
            q.is_some() <==> part < NANOS_PER_DAY,
            q.is_some() ==> q.unwrap()@ == units * NANOS_PER_DAY + part && q.unwrap().wf(),
    {
        if (part as i128) < NANOS_PER_DAY {
            Some(Quantity { units, part })
        } else {
            None
        }
    }

    /// The quantity of a whole number of units.
    pub fn from_units(units: i128) -> (q: Quantity)
        ensures
            q@ == units * NANOS_PER_DAY,
            q.wf(),
    {
        Quantity { units, part: 0 }
    }

    /// The whole units in the quantity, rounded down, and what it holds
    /// beyond them, in `NANOS_PER_DAY`-ths of a unit.
    pub fn split(&self) -> (split: (i128, u64))
        ensures
            self@ == split.0 * NANOS_PER_DAY + split.1,
            split.1 < NANOS_PER_DAY,
            split.0 == self@ / (NANOS_PER_DAY as int),
            split.1 == self@ % (NANOS_PER_DAY as int),
    {
        proof {
            use_type_invariant(self);
            lemma_fundamental_div_mod_converse(
                self@,
                NANOS_PER_DAY as int,
                self.units as int,
                self.part as int,
            );
        }
        (self.units, self.part)
    }

    /// The whole units in the quantity, rounded down.
    pub fn units(&self) -> (units: i128)
        ensures
            units == self@ / (NANOS_PER_DAY as int),
    {
        self.split().0
    }

    /// What the quantity holds beyond its whole units, in
    /// `NANOS_PER_DAY`-ths of a unit.
    pub fn part(&self) -> (part: u64)
        ensures
            part == self@ % (NANOS_PER_DAY as int),
            part < NANOS_PER_DAY,
    {
        self.split().1
    }

    /// The quantity that is `base` units at the reference epoch and grows by
    /// `rate` units a day, at the day count `d`: `base + rate * d`, where `d`
    /// is in days and a fraction of a day counts. No rounding takes place.
    pub fn linear(base: i64, rate: i64, d: DayCount) -> (q: Quantity)
        requires
            -RATE_LIMIT <= rate <= RATE_LIMIT,
        ensures
            q@ == base * NANOS_PER_DAY + rate * d.nanos,
            q.wf(),
    {
        let (days, nanos) = split_days(d.nanos);
        proof {
            lemma_product_bound(rate as int, nanos as int, RATE_LIMIT as int, NANOS_PER_DAY as int);
            lemma_product_bound(rate as int, days as int, RATE_LIMIT as int, DAYS_LIMIT as int);
        }
        let (carry, part) = split_days(rate as i128 * nanos as i128);
        let units = base as i128 + rate as i128 * days + carry;
        assert(units * NANOS_PER_DAY + part == base * NANOS_PER_DAY + rate * d.nanos)
            by (nonlinear_arith)
            requires
                units == base + rate * days + carry,
                rate * nanos == carry * NANOS_PER_DAY + part,
                d.nanos == days * NANOS_PER_DAY + nanos,
        ;
        Quantity { units, part }
    }

    /// The angle brought into the range from 0 to 360 degrees, 360 left
    /// out, by whole turns.
    pub fn wrap_turn(&self) -> (q: Quantity)
        ensures
            q@ == self@ % (FULL_TURN as int),
            0 <= q@ < FULL_TURN,
            q.wf(),
    {
        proof {
            use_type_invariant(self);
        }
        let turns = self.units / UNITS_PER_TURN;
        let rest = self.units % UNITS_PER_TURN;
        let units = if rest < 0 {
            rest + UNITS_PER_TURN
        } else {
            rest
        };
        proof {
            let down = if rest < 0 {
                turns - 1
            } else {
                turns as int
            };
            assert(self.units == down * UNITS_PER_TURN + units);
            assert(self@ == down * FULL_TURN + (units * NANOS_PER_DAY + self.part));
            lemma_fundamental_div_mod_converse(
                self@,
                FULL_TURN as int,
                down,
                units * NANOS_PER_DAY + self.part,
            );
        }
        Quantity { units, part: self.part }
    }
}

/// Two quantities with the same numerator are the same quantity: the whole
/// units and the part of a unit are determined by the value.
pub proof fn quantity_is_its_value(a: Quantity, b: Quantity)
    requires
        a.wf(),
        b.wf(),
        a@ == b@,
    ensures
        a == b,
{
    lemma_fundamental_div_mod_converse(a@, NANOS_PER_DAY as int, a.units as int, a.part as int);
    lemma_fundamental_div_mod_converse(b@, NANOS_PER_DAY as int, b.units as int, b.part as int);
}

/// A product is bounded by the product of the bounds of its factors.
pub(crate) proof fn lemma_product_bound(k: int, x: int, k_bound: int, x_bound: int)
    by (nonlinear_arith)
    requires
        -k_bound <= k <= k_bound,
        -x_bound <= x <= x_bound,
    ensures
        -(k_bound * x_bound) <= k * x <= k_bound * x_bound,
{
}

} // verus!
