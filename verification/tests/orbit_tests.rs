use heliocentric::elements::{element_of, Element};
use heliocentric::error::EphemerisError;
use heliocentric::orbit::{elements_of, Orbit};
use heliocentric::perturbation::{latitude_terms, longitude_terms, PeriodicTerm, Wave};
use heliocentric::planet::{Planet, PLANETS};
use heliocentric::quantity::{Quantity, UNITS_PER_TURN};
use heliocentric::solver::Progress;
use heliocentric::time::{DayCount, NANOS_PER_DAY};

fn number(q: Quantity) -> f64 {
    let (units, part) = q.split();
    (units as f64 + part as f64 / NANOS_PER_DAY as f64) / 1e12
}

fn correction(terms: &Option<Vec<PeriodicTerm>>) -> f64 {
    let mut sum = 0.0;
    for term in terms.iter().flatten() {
        let angle = number(term.argument).to_radians();
        let wave = match term.wave {
            Wave::Sine => angle.sin(),
            Wave::Cosine => angle.cos(),
        };
        sum += term.amplitude as f64 / 1000.0 * wave;
    }
    sum.to_radians()
}

fn eccentric_anomaly(e: f64, m: f64) -> Result<f64, EphemerisError> {
    let tolerance = 0.001_f64.to_radians();
    let mut estimate = m + e * m.sin() * (1.0 + e * m.cos());
    let mut progress = Progress::start();
    loop {
        let next = estimate - (estimate - e * estimate.sin() - m) / (1.0 - e * estimate.cos());
        let settled = (next - estimate).abs() < tolerance;
        estimate = next;
        if progress.record(settled)? {
            return Ok(estimate);
        }
    }
}

fn position(orbit: &Orbit) -> Result<(f64, f64, f64), EphemerisError> {
    let a = number(orbit.semi_major_axis);
    let e = number(orbit.eccentricity);
    let big_e = eccentric_anomaly(e, number(orbit.mean_anomaly).to_radians())?;
    let xv = a * (big_e.cos() - e);
    let yv = a * (1.0 - e * e).sqrt() * big_e.sin();
    let v = yv.atan2(xv);
    let r = (xv * xv + yv * yv).sqrt();
    let node = number(orbit.ascending_node).to_radians();
    let i = number(orbit.inclination).to_radians();
    let w = number(orbit.argument_of_periapsis).to_radians();
    let x = r * (node.cos() * (v + w).cos() - node.sin() * (v + w).sin() * i.cos());
    let y = r * (node.sin() * (v + w).cos() + node.cos() * (v + w).sin() * i.cos());
    let z = r * (v + w).sin() * i.sin();
    if !orbit.is_perturbed() {
        return Ok((x, y, z));
    }
    let longitude = y.atan2(x) + correction(&orbit.longitude_perturbation);
    let latitude = z.atan2((x * x + y * y).sqrt()) + correction(&orbit.latitude_perturbation);
    Ok((
        r * longitude.cos() * latitude.cos(),
        r * longitude.sin() * latitude.cos(),
        r * latitude.sin(),
    ))
}

#[test]
fn an_orbit_holds_the_six_elements_of_its_day() {
    let d = DayCount { nanos: 424_242_424_242_424_242 };
    for planet in PLANETS {
        let orbit = elements_of(planet, d);
        assert_eq!(orbit.ascending_node, element_of(planet, Element::AscendingNode, d));
        assert_eq!(orbit.inclination, element_of(planet, Element::Inclination, d));
        assert_eq!(
            orbit.argument_of_periapsis,
            element_of(planet, Element::ArgumentOfPeriapsis, d)
        );
        assert_eq!(orbit.semi_major_axis, element_of(planet, Element::SemiMajorAxis, d));
        assert_eq!(orbit.eccentricity, element_of(planet, Element::Eccentricity, d));
        assert_eq!(orbit.mean_anomaly, element_of(planet, Element::MeanAnomaly, d));
        assert_eq!(orbit.longitude_perturbation, longitude_terms(planet, d));
        assert_eq!(orbit.latitude_perturbation, latitude_terms(planet, d));
    }
}

#[test]
fn earth_orbit_at_the_epoch() {
    let orbit = elements_of(Planet::Earth, DayCount { nanos: 0 });
    assert_eq!(orbit.mean_anomaly, Quantity::from_units(356_047_000_000_000));
    assert_eq!(orbit.eccentricity, Quantity::from_units(16_709_000_000));
    assert_eq!(orbit.argument_of_periapsis, Quantity::from_units(102_940_400_000_000));
    assert_eq!(orbit.ascending_node, Quantity::from_units(0));
    assert_eq!(orbit.inclination, Quantity::from_units(0));
    assert_eq!(orbit.semi_major_axis, Quantity::from_units(1_000_000_000_000));
    assert_eq!(orbit.longitude_perturbation, None);
    assert_eq!(orbit.latitude_perturbation, None);
}

#[test]
fn earth_is_near_perihelion_at_the_epoch() {
    let orbit = elements_of(Planet::Earth, DayCount { nanos: 0 });
    let (x, y, z) = position(&orbit).unwrap();
    let distance = (x * x + y * y + z * z).sqrt();
    assert!((distance - 0.9833).abs() < 1e-4);
    assert!((distance - 0.983_332_112_5).abs() < 1e-9);
    assert_eq!(z, 0.0);
    assert!((x - (-0.151_327_887_9)).abs() < 1e-9);
    assert!((y - 0.971_618_193_5).abs() < 1e-9);
}

#[test]
fn the_planets_without_corrections_carry_none() {
    for nanos in [i128::MIN, -5, 0, 77_777_777_777_777, i128::MAX] {
        for planet in [
            Planet::Mercury,
            Planet::Venus,
            Planet::Earth,
            Planet::Mars,
            Planet::Neptune,
        ] {
            let orbit = elements_of(planet, DayCount { nanos });
            assert_eq!(orbit.longitude_perturbation, None);
            assert_eq!(orbit.latitude_perturbation, None);
            assert!(!orbit.is_perturbed());
        }
    }
}

#[test]
fn the_giants_carry_corrections() {
    let d = DayCount::from_days(2_000);
    let jupiter = elements_of(Planet::Jupiter, d);
    assert_eq!(jupiter.longitude_perturbation.as_ref().map(Vec::len), Some(7));
    assert_eq!(jupiter.latitude_perturbation, None);
    assert!(jupiter.is_perturbed());
    let saturn = elements_of(Planet::Saturn, d);
    assert_eq!(saturn.longitude_perturbation.as_ref().map(Vec::len), Some(5));
    assert_eq!(saturn.latitude_perturbation.as_ref().map(Vec::len), Some(2));
    assert!(saturn.is_perturbed());
    let uranus = elements_of(Planet::Uranus, d);
    assert_eq!(uranus.longitude_perturbation.as_ref().map(Vec::len), Some(3));
    assert_eq!(uranus.latitude_perturbation, None);
    assert!(uranus.is_perturbed());
}

#[test]
fn is_perturbed_looks_at_both_corrections() {
    let mut orbit = elements_of(Planet::Saturn, DayCount { nanos: 0 });
    orbit.longitude_perturbation = None;
    assert!(orbit.is_perturbed());
    orbit.latitude_perturbation = None;
    assert!(!orbit.is_perturbed());
    orbit.longitude_perturbation = Some(vec![]);
    assert!(orbit.is_perturbed());
}

#[test]
fn is_elliptical_tests_the_eccentricity() {
    let mut orbit = elements_of(Planet::Mars, DayCount { nanos: 0 });
    assert!(orbit.is_elliptical());
    orbit.eccentricity = Quantity::from_units(0);
    assert!(orbit.is_elliptical());
    orbit.eccentricity = Quantity::new(999_999_999_999, 86_399_999_999_999).unwrap();
    assert!(orbit.is_elliptical());
    orbit.eccentricity = Quantity::from_units(1_000_000_000_000);
    assert!(!orbit.is_elliptical());
    orbit.eccentricity = Quantity::new(-1, 86_399_999_999_999).unwrap();
    assert!(!orbit.is_elliptical());
}

#[test]
fn orbits_leave_the_ellipse_far_from_the_epoch() {
    assert!(elements_of(Planet::Saturn, DayCount::from_days(5_000_000)).is_elliptical());
    assert!(!elements_of(Planet::Saturn, DayCount::from_days(6_000_000)).is_elliptical());
    assert!(!elements_of(Planet::Mercury, DayCount { nanos: i128::MAX }).is_elliptical());
}

#[test]
fn the_mean_anomaly_of_an_orbit_is_within_a_turn() {
    for planet in PLANETS {
        for days in [-40_000_000, -1, 0, 1, 40_000_000] {
            let orbit = elements_of(planet, DayCount::from_days(days));
            let units = orbit.mean_anomaly.units();
            assert!(0 <= units && units < UNITS_PER_TURN);
        }
    }
}

#[test]
fn asking_twice_gives_the_same_orbit() {
    let d = DayCount { nanos: 1_234_567_890_123_456_789 };
    for planet in PLANETS {
        let first = elements_of(planet, d);
        let second = elements_of(planet, d);
        assert_eq!(first.ascending_node, second.ascending_node);
        assert_eq!(first.inclination, second.inclination);
        assert_eq!(first.argument_of_periapsis, second.argument_of_periapsis);
        assert_eq!(first.semi_major_axis, second.semi_major_axis);
        assert_eq!(first.eccentricity, second.eccentricity);
        assert_eq!(first.mean_anomaly, second.mean_anomaly);
        assert_eq!(first.longitude_perturbation, second.longitude_perturbation);
        assert_eq!(first.latitude_perturbation, second.latitude_perturbation);
        assert_eq!(position(&first), position(&second));
    }
}

#[test]
fn positions_lie_at_the_distances_of_the_planets() {
    let d = DayCount::from_days(9_432);
    let bounds = [
        (0.30, 0.47),
        (0.71, 0.73),
        (0.98, 1.02),
        (1.38, 1.67),
        (4.9, 5.5),
        (9.0, 10.1),
        (18.2, 20.1),
        (29.7, 30.4),
    ];
    for planet in PLANETS {
        let (x, y, z) = position(&elements_of(planet, d)).unwrap();
        let distance = (x * x + y * y + z * z).sqrt();
        let (least, most) = bounds[planet.index()];
        assert!(least < distance && distance < most);
    }
}

#[test]
fn kepler_equation_is_met_within_the_tolerance() {
    let d = DayCount::from_days(-12_345);
    for planet in PLANETS {
        let orbit = elements_of(planet, d);
        let e = number(orbit.eccentricity);
        let m = number(orbit.mean_anomaly).to_radians();
        let big_e = eccentric_anomaly(e, m).unwrap();
        assert!((big_e - e * big_e.sin() - m).abs() < 0.001_f64.to_radians());
    }
}

#[test]
fn the_iteration_gives_up_on_an_orbit_that_is_no_ellipse() {
    assert_eq!(
        eccentric_anomaly(f64::NAN, 1.0),
        Err(EphemerisError::SolverDidNotConverge)
    );
}
