use heliocentric::planet::{Planet, PLANETS};

#[test]
fn planets_run_from_mercury_to_neptune() {
    assert_eq!(
        PLANETS,
        [
            Planet::Mercury,
            Planet::Venus,
            Planet::Earth,
            Planet::Mars,
            Planet::Jupiter,
            Planet::Saturn,
            Planet::Uranus,
            Planet::Neptune,
        ]
    );
}

#[test]
fn index_and_from_index_are_inverse() {
    for (i, planet) in PLANETS.iter().enumerate() {
        assert_eq!(planet.index(), i);
        assert_eq!(Planet::from_index(i), Some(*planet));
    }
}

#[test]
fn there_is_no_ninth_planet() {
    assert_eq!(Planet::from_index(8), None);
    assert_eq!(Planet::from_index(usize::MAX), None);
}

#[test]
fn only_the_three_giants_are_perturbed() {
    assert!(!Planet::Mercury.has_perturbations());
    assert!(!Planet::Venus.has_perturbations());
    assert!(!Planet::Earth.has_perturbations());
    assert!(!Planet::Mars.has_perturbations());
    assert!(Planet::Jupiter.has_perturbations());
    assert!(Planet::Saturn.has_perturbations());
    assert!(Planet::Uranus.has_perturbations());
    assert!(!Planet::Neptune.has_perturbations());
}
