use kepler::bodies::{get_body, lookup, CentralBody, EARTH_MU_BITS};
use kepler::error::Error;
use kepler::orbit::CoordinateSystem;
use kepler::propagator::OdeSolver;

#[test]
fn test_central_body_enum_supports_to_string() {
    assert_eq!(CentralBody::EARTH.to_string(), "EARTH");
}

#[test]
fn test_central_body_enum_supports_from_str() {
    assert_eq!(CentralBody::from_str("EARTH").unwrap(), CentralBody::EARTH);
}

#[test]
fn core_test_coordinate_system_enum_supports_to_string() {
    assert_eq!(
        CoordinateSystem::EarthCenteredInertial.to_string(),
        "EarthCenteredInertial"
    );
    assert_eq!(
        CoordinateSystem::EarthCenteredEarthFixed.to_string(),
        "EarthCenteredEarthFixed"
    );
}

#[test]
fn core_test_coordinate_system_enum_supports_from_str() {
    assert_eq!(
        CoordinateSystem::from_str("EarthCenteredEarthFixed").unwrap(),
        CoordinateSystem::EarthCenteredEarthFixed
    );
    assert_eq!(
        CoordinateSystem::from_str("EarthCenteredInertial").unwrap(),
        CoordinateSystem::EarthCenteredInertial
    );
}

#[test]
fn orbit_test_coordinate_system_enum_supports_to_string() {
    assert_eq!(
        CoordinateSystem::EarthCenteredInertial.to_string(),
        "EarthCenteredInertial"
    );
    assert_eq!(
        CoordinateSystem::EarthCenteredEarthFixed.to_string(),
        "EarthCenteredEarthFixed"
    );
}

#[test]
fn orbit_test_coordinate_system_enum_supports_from_str() {
    assert_eq!(
        CoordinateSystem::from_str("EarthCenteredEarthFixed").unwrap(),
        CoordinateSystem::EarthCenteredEarthFixed
    );
    assert_eq!(
        CoordinateSystem::from_str("EarthCenteredInertial").unwrap(),
        CoordinateSystem::EarthCenteredInertial
    );
}

#[test]
fn core_test_ode_solver_enum_supports_to_string() {
    assert_eq!(OdeSolver::RungeKutta4.to_string(), "RungeKutta4");
    assert_eq!(OdeSolver::DormandPrince5.to_string(), "DormandPrince5");
    assert_eq!(OdeSolver::DormandPrince853.to_string(), "DormandPrince853")
}

#[test]
fn core_test_ode_solver_enum_supports_from_str() {
    assert_eq!(
        OdeSolver::from_str("RungeKutta4").unwrap(),
        OdeSolver::RungeKutta4
    );
    assert_eq!(
        OdeSolver::from_str("DormandPrince5").unwrap(),
        OdeSolver::DormandPrince5
    );
    assert_eq!(
        OdeSolver::from_str("DormandPrince853").unwrap(),
        OdeSolver::DormandPrince853
    );
}

#[test]
fn propagator_test_ode_solver_enum_supports_to_string() {
    assert_eq!(OdeSolver::RungeKutta4.to_string(), "RungeKutta4");
    assert_eq!(OdeSolver::DormandPrince5.to_string(), "DormandPrince5");
    assert_eq!(OdeSolver::DormandPrince853.to_string(), "DormandPrince853")
}

#[test]
fn propagator_test_ode_solver_enum_supports_from_str() {
    assert_eq!(
        OdeSolver::from_str("RungeKutta4").unwrap(),
        OdeSolver::RungeKutta4
    );
    assert_eq!(
        OdeSolver::from_str("DormandPrince5").unwrap(),
        OdeSolver::DormandPrince5
    );
    assert_eq!(
        OdeSolver::from_str("DormandPrince853").unwrap(),
        OdeSolver::DormandPrince853
    );
}

#[test]
fn every_central_body_reads_back_from_its_name() {
    let body = CentralBody::EARTH;
    assert_eq!(CentralBody::from_str(&body.to_string()), Ok(body));
}

#[test]
fn every_coordinate_system_reads_back_from_its_name() {
    for frame in [
        CoordinateSystem::EarthCenteredInertial,
        CoordinateSystem::EarthCenteredEarthFixed,
    ] {
        assert_eq!(CoordinateSystem::from_str(&frame.to_string()), Ok(frame));
    }
}

#[test]
fn every_ode_solver_reads_back_from_its_name() {
    for solver in [
        OdeSolver::RungeKutta4,
        OdeSolver::DormandPrince5,
        OdeSolver::DormandPrince853,
    ] {
        assert_eq!(OdeSolver::from_str(&solver.to_string()), Ok(solver));
    }
}

#[test]
fn unknown_names_are_parse_errors() {
    assert_eq!(CentralBody::from_str("MARS"), Err(Error::ParseError));
    assert_eq!(CentralBody::from_str("earth"), Err(Error::ParseError));
    assert_eq!(CentralBody::from_str(""), Err(Error::ParseError));
    assert_eq!(CentralBody::from_str("EARTH "), Err(Error::ParseError));
    assert_eq!(
        CoordinateSystem::from_str("EarthCenteredInertia"),
        Err(Error::ParseError)
    );
    assert_eq!(
        CoordinateSystem::from_str("EarthCenteredInertial\u{e9}"),
        Err(Error::ParseError)
    );
    assert_eq!(OdeSolver::from_str("RungeKutta5"), Err(Error::ParseError));
    assert_eq!(OdeSolver::from_str("DormandPrince"), Err(Error::ParseError));
}

#[test]
fn earth_is_tabulated_with_its_gravitational_parameter() {
    let body = get_body(&CentralBody::EARTH);
    assert_eq!(body.mu.to_bits(), EARTH_MU_BITS);
    assert_eq!(f64::from_bits(body.mu.to_bits()), 398600.4418E9);
}

#[test]
fn lookup_finds_earth_and_nothing_else() {
    assert_eq!(
        lookup("EARTH").unwrap().mu.to_bits(),
        398600.4418E9_f64.to_bits()
    );
    assert_eq!(lookup("MOON").unwrap_err(), Error::UnknownBody);
    assert_eq!(lookup("").unwrap_err(), Error::UnknownBody);
}
