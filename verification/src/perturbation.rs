//! The periodic corrections that Jupiter, Saturn and Uranus need.
//!
//! The three giants disturb each other enough to move them by up to a
//! degree. The theory corrects the ecliptic longitude, and for Saturn the
//! latitude too, by a sum of waves. Each wave has a fixed amplitude, and an
//! argument that is a whole-number combination of the mean anomalies of the
//! three planets plus a fixed phase. The tables and the arguments are exact
//! here; the waves themselves are for the caller to evaluate.

use vstd::prelude::*;
use vstd::arithmetic::div_mod::{lemma_fundamental_div_mod, lemma_mod_multiples_vanish};
use crate::elements::{element_at, element_of, Element};
use crate::planet::Planet;
use crate::quantity::{lemma_product_bound, Quantity, FULL_TURN, UNITS_PER_TURN};
use crate::time::{split_days, DayCount, NANOS_PER_DAY};

verus! {

/// The shape of a wave.
#[derive(Clone, Copy, Debug, PartialEq, Eq, Hash, Structural)]
pub enum Wave {
    Sine,
    Cosine,
}

/// One wave of a correction as the tables give it: the amplitude in
/// thousandths of a degree, the shape, the multiples of the mean anomalies
/// of Jupiter, Saturn and Uranus that make up the argument, and the phase in
/// tenths of a degree.
pub type Row = (i32, Wave, i8, i8, i8, i16);

/// Units in a tenth of a degree.
pub const UNITS_PER_TENTH: i128 = 100_000_000_000;

/// The numerator of a tenth of a degree: `UNITS_PER_TENTH * NANOS_PER_DAY`.
pub const TENTH_OF_DEGREE: i128 = 8_640_000_000_000_000_000_000_000;

/// The correction to the longitude of Jupiter.
pub const JUPITER_LONGITUDE: [Row; 7] = [
    // -0.332 sin(2 Mj - 5 Ms - 67.6)
    (-332, Wave::Sine, 2, -5, 0, -676),
    // -0.056 sin(2 Mj - 2 Ms + 21)
    (-56, Wave::Sine, 2, -2, 0, 210),
    // +0.042 sin(3 Mj - 5 Ms + 21)
    (42, Wave::Sine, 3, -5, 0, 210),
    // -0.036 sin(Mj - 2 Ms)
    (-36, Wave::Sine, 1, -2, 0, 0),
    // +0.022 cos(Mj - Ms)
    (22, Wave::Cosine, 1, -1, 0, 0),
    // +0.023 sin(2 Mj - 3 Ms + 52)
    (23, Wave::Sine, 2, -3, 0, 520),
    // -0.016 sin(Mj - 5 Ms - 69)
    (-16, Wave::Sine, 1, -5, 0, -690),
];

/// The correction to the longitude of Saturn.
pub const SATURN_LONGITUDE: [Row; 5] = [
    // +0.812 sin(2 Mj - 5 Ms - 67.6)
    (812, Wave::Sine, 2, -5, 0, -676),
    // -0.229 cos(2 Mj - 4 Ms - 2)
    (-229, Wave::Cosine, 2, -4, 0, -20),
    // +0.119 sin(Mj - 2 Ms - 3)
    (119, Wave::Sine, 1, -2, 0, -30),
    // +0.046 sin(2 Mj - 6 Ms - 69)
    (46, Wave::Sine, 2, -6, 0, -690),
    // +0.014 sin(Mj - 3 Ms + 32)
    (14, Wave::Sine, 1, -3, 0, 320),
];

/// The correction to the latitude of Saturn.
pub const SATURN_LATITUDE: [Row; 2] = [
    // -0.020 cos(2 Mj - 4 Ms - 2)
    (-20, Wave::Cosine, 2, -4, 0, -20),
    // +0.018 sin(2 Mj - 6 Ms - 49)
    (18, Wave::Sine, 2, -6, 0, -490),
];

/// The correction to the longitude of Uranus.
pub const URANUS_LONGITUDE: [Row; 3] = [
    // +0.040 sin(Ms - 2 Mu + 6)
    (40, Wave::Sine, 0, 1, -2, 60),
    // +0.035 sin(Ms - 3 Mu + 33)
    (35, Wave::Sine, 0, 1, -3, 330),
    // -0.015 sin(Mj - Mu + 20)
    (-15, Wave::Sine, 1, 0, -1, 200),
];

/// One wave of a correction at an instant, as numbers: the amplitude in
/// thousandths of a degree, the shape, and the numerator of the argument in
/// degrees.
pub struct TermModel {
    pub amplitude: int,
    pub wave: Wave,
    pub argument: int,
}

/// One wave of a correction at an instant. It contributes `amplitude / 1000`
/// degrees times the sine, or the cosine, of `argument` degrees.
#[derive(Clone, Copy, Debug, PartialEq, Eq, Structural)]
pub struct PeriodicTerm {
    pub amplitude: i32,
    pub wave: Wave,
    pub argument: Quantity,
}

impl View for PeriodicTerm {
    type V = TermModel;

    open spec fn view(&self) -> TermModel {
        TermModel { amplitude: self.amplitude as int, wave: self.wave, argument: self.argument@ }
    }
}

/// The numerator of the argument of a wave for given mean anomalies of
/// Jupiter, Saturn and Uranus: their combination plus the phase, modulo a
/// full turn.
pub open spec fn argument(row: Row, jupiter: int, saturn: int, uranus: int) -> int {
    (row.2 * jupiter + row.3 * saturn + row.4 * uranus + row.5 * TENTH_OF_DEGREE) % (
    FULL_TURN as int)
}

/// A wave of a table, `nanos` nanoseconds after the reference epoch: its
/// argument is made of the mean anomalies that the giants have then.
pub open spec fn term_at(row: Row, nanos: int) -> TermModel {
    TermModel {
        amplitude: row.0 as int,
        wave: row.1,
        argument: argument(
            row,
            element_at(Planet::Jupiter, Element::MeanAnomaly, nanos),
            element_at(Planet::Saturn, Element::MeanAnomaly, nanos),
            element_at(Planet::Uranus, Element::MeanAnomaly, nanos),
        ),
    }
}

/// The waves of a table, `nanos` nanoseconds after the reference epoch, in
/// the order of the table.
pub open spec fn terms_at(rows: Seq<Row>, nanos: int) -> Seq<TermModel> {
    Seq::new(rows.len(), |i: int| term_at(rows[i], nanos))
}

/// The waves of a list as numbers.
pub open spec fn views(terms: Seq<PeriodicTerm>) -> Seq<TermModel> {
    Seq::new(terms.len(), |i: int| terms[i]@)
}

/// Every argument of a list of waves is a well-formed quantity in the range
/// of a full turn.
pub open spec fn terms_wf(terms: Seq<PeriodicTerm>) -> bool {
    forall|i: int|
        0 <= i < terms.len() ==> (#[trigger] terms[i]).argument.wf() && 0 <= terms[i].argument@
            < FULL_TURN
}

/// The table that corrects the longitude of a planet, where it has one.
pub open spec fn longitude_rows(planet: Planet) -> Option<Seq<Row>> {
    match planet {
        Planet::Jupiter => Some(JUPITER_LONGITUDE@),
        Planet::Saturn => Some(SATURN_LONGITUDE@),
        Planet::Uranus => Some(URANUS_LONGITUDE@),
        _ => None,
    }
}

/// The table that corrects the latitude of a planet, where it has one.
pub open spec fn latitude_rows(planet: Planet) -> Option<Seq<Row>> {
    match planet {
        Planet::Saturn => Some(SATURN_LATITUDE@),
        _ => None,
    }
}

/// The waves that correct the longitude of a planet at an instant, where
/// the theory corrects it.
pub open spec fn longitude_terms_at(planet: Planet, nanos: int) -> Option<Seq<TermModel>> {
    match longitude_rows(planet) {
        Some(rows) => Some(terms_at(rows, nanos)),
        None => None,
    }
}

/// The waves that correct the latitude of a planet at an instant, where the
/// theory corrects it.
pub open spec fn latitude_terms_at(planet: Planet, nanos: int) -> Option<Seq<TermModel>> {
    match latitude_rows(planet) {
        Some(rows) => Some(terms_at(rows, nanos)),
        None => None,
    }
}

/// The argument of a wave for given mean anomalies of Jupiter, Saturn and
/// Uranus. Whole turns in the anomalies make no difference.
pub fn argument_of(row: Row, jupiter: Quantity, saturn: Quantity, uranus: Quantity) -> (q: Quantity)
    ensures
        q@ == argument(row, jupiter@, saturn@, uranus@),
        0 <= q@ < FULL_TURN,
        q.wf(),
{
    let j = jupiter.wrap_turn();
    let s = saturn.wrap_turn();
    let u = uranus.wrap_turn();
    let (uj, pj) = j.split();
    let (us, ps) = s.split();
    let (uu, pu) = u.split();
    let kj = row.2 as i128;
    let ks = row.3 as i128;
    let ku = row.4 as i128;
    let phase = row.5 as i128;
    proof {
        lemma_product_bound(kj as int, uj as int, 128, UNITS_PER_TURN as int);
        lemma_product_bound(ks as int, us as int, 128, UNITS_PER_TURN as int);
        lemma_product_bound(ku as int, uu as int, 128, UNITS_PER_TURN as int);
        lemma_product_bound(kj as int, pj as int, 128, NANOS_PER_DAY as int);
        lemma_product_bound(ks as int, ps as int, 128, NANOS_PER_DAY as int);
        lemma_product_bound(ku as int, pu as int, 128, NANOS_PER_DAY as int);
    }
    let units = kj * uj + ks * us + ku * uu + phase * UNITS_PER_TENTH;
    let (carry, part) = split_days(kj * (pj as i128) + ks * (ps as i128) + ku * (pu as i128));
    let sum = Quantity::new(units + carry, part).unwrap();
    assert(sum@ == kj * j@ + ks * s@ + ku * u@ + phase * TENTH_OF_DEGREE) by (nonlinear_arith)
        requires
            sum@ == (units + carry) * NANOS_PER_DAY + part,
            units == kj * uj + ks * us + ku * uu + phase * UNITS_PER_TENTH,
            kj * pj + ks * ps + ku * pu == carry * NANOS_PER_DAY + part,
            j@ == uj * NANOS_PER_DAY + pj,
            s@ == us * NANOS_PER_DAY + ps,
            u@ == uu * NANOS_PER_DAY + pu,
            TENTH_OF_DEGREE == UNITS_PER_TENTH * NANOS_PER_DAY,
    ;
    proof {
        let turn = FULL_TURN as int;
        let rest = phase * TENTH_OF_DEGREE;
        lemma_whole_turns_vanish(kj as int, jupiter@, ks * s@ + ku * u@ + rest, turn);
        lemma_whole_turns_vanish(ks as int, saturn@, kj * jupiter@ + ku * u@ + rest, turn);
        lemma_whole_turns_vanish(ku as int, uranus@, kj * jupiter@ + ks * saturn@ + rest, turn);
    }
    sum.wrap_turn()
}

/// A multiple of an angle and the same multiple of the angle less its whole
/// turns differ by whole turns: `(k * (x % turn) + rest) % turn` is
/// `(k * x + rest) % turn`.
proof fn lemma_whole_turns_vanish(k: int, x: int, rest: int, turn: int)
    requires
        turn > 0,
    ensures
        (k * (x % turn) + rest) % turn == (k * x + rest) % turn,
{
    lemma_fundamental_div_mod(x, turn);
    let turns = k * (x / turn);
    assert(k * x + rest == turn * turns + (k * (x % turn) + rest)) by (nonlinear_arith)
        requires
            x == turn * (x / turn) + x % turn,
            turns == k * (x / turn),
    ;
    lemma_mod_multiples_vanish(turns, k * (x % turn) + rest, turn);
}

/// The waves of a table at a day count, in the order of the table.
pub fn evaluate<const N: usize>(rows: &[Row; N], d: DayCount) -> (terms: Vec<PeriodicTerm>)
    ensures
        terms@.len() == N,
        views(terms@) == terms_at(rows@, d.nanos as int),
        terms_wf(terms@),
{
    let jupiter = element_of(Planet::Jupiter, Element::MeanAnomaly, d);
    let saturn = element_of(Planet::Saturn, Element::MeanAnomaly, d);
    let uranus = element_of(Planet::Uranus, Element::MeanAnomaly, d);
    let mut terms: Vec<PeriodicTerm> = Vec::new();
    let mut i: usize = 0;
    while i < N
        invariant
            i <= N,
            rows@.len() == N,
            terms@.len() == i,
            forall|k: int| 0 <= k < i ==> (#[trigger] terms@[k])@ == term_at(rows@[k], d.nanos as int),
            terms_wf(terms@),
            jupiter@ == element_at(Planet::Jupiter, Element::MeanAnomaly, d.nanos as int),
            saturn@ == element_at(Planet::Saturn, Element::MeanAnomaly, d.nanos as int),
            uranus@ == element_at(Planet::Uranus, Element::MeanAnomaly, d.nanos as int),
        decreases N - i,
    {
        let row = rows[i];
        let term = PeriodicTerm {
            amplitude: row.0,
            wave: row.1,
            argument: argument_of(row, jupiter, saturn, uranus),
        };
        terms.push(term);
        i += 1;
    }
    assert(views(terms@) =~= terms_at(rows@, d.nanos as int));
    terms
}

/// The waves that correct the longitude of a planet at a day count, where
/// the theory corrects it: for Jupiter, Saturn and Uranus.
pub fn longitude_terms(planet: Planet, d: DayCount) -> (terms: Option<Vec<PeriodicTerm>>)
    ensures
        match terms {
            Some(terms) => longitude_terms_at(planet, d.nanos as int) == Some(views(terms@))
                && terms_wf(terms@),
            None => longitude_terms_at(planet, d.nanos as int).is_none(),
        },
{
    match planet {
        Planet::Jupiter => Some(evaluate(&JUPITER_LONGITUDE, d)),
        Planet::Saturn => Some(evaluate(&SATURN_LONGITUDE, d)),
        Planet::Uranus => Some(evaluate(&URANUS_LONGITUDE, d)),
        _ => None,
    }
}

/// The waves that correct the latitude of a planet at a day count, where
/// the theory corrects it: for Saturn.
pub fn latitude_terms(planet: Planet, d: DayCount) -> (terms: Option<Vec<PeriodicTerm>>)
    ensures
        match terms {
            Some(terms) => latitude_terms_at(planet, d.nanos as int) == Some(views(terms@))
                && terms_wf(terms@),
            None => latitude_terms_at(planet, d.nanos as int).is_none(),
        },
{
    match planet {
        Planet::Saturn => Some(evaluate(&SATURN_LATITUDE, d)),
        _ => None,
    }
}

} // verus!
