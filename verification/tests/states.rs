use kepler::dynamics::{StateVector, Vector3};
use kepler::error::Error;
use kepler::scalar::Scalar;

fn scalar(x: f64) -> Scalar {
    Scalar::from_bits(x.to_bits())
}

fn vector(x: f64, y: f64, z: f64) -> Vector3 {
    Vector3 { x: scalar(x), y: scalar(y), z: scalar(z) }
}

fn components(v: Vector3) -> [f64; 3] {
    [
        f64::from_bits(v.x.to_bits()),
        f64::from_bits(v.y.to_bits()),
        f64::from_bits(v.z.to_bits()),
    ]
}

#[test]
fn only_the_zero_vector_is_at_the_origin() {
    assert!(vector(0.0, 0.0, 0.0).is_at_origin());
    assert!(vector(-0.0, 0.0, -0.0).is_at_origin());
    assert!(!vector(5e-324, 0.0, 0.0).is_at_origin());
    assert!(!vector(0.0, -1e-200, 0.0).is_at_origin());
    assert!(!vector(0.0, 0.0, 7.0e6).is_at_origin());
    assert!(!vector(0.0, f64::NAN, 0.0).is_at_origin());
    assert!(!vector(f64::INFINITY, 0.0, 0.0).is_at_origin());
}

#[test]
fn finite_vectors_and_states() {
    assert!(vector(1.0, -2.0, 3.0).is_finite());
    assert!(!vector(1.0, f64::NAN, 3.0).is_finite());
    assert!(!vector(1.0, 2.0, f64::NEG_INFINITY).is_finite());
    let state = StateVector { position: vector(1.0, 2.0, 3.0), velocity: vector(4.0, 5.0, 6.0) };
    assert!(state.is_finite());
    let state = StateVector { position: vector(1.0, 2.0, 3.0), velocity: vector(4.0, f64::NAN, 6.0) };
    assert!(!state.is_finite());
    let state = StateVector { position: vector(f64::INFINITY, 2.0, 3.0), velocity: vector(4.0, 5.0, 6.0) };
    assert!(!state.is_finite());
}

#[test]
fn the_rate_of_a_state_is_its_velocity_and_the_acceleration() {
    let state = StateVector { position: vector(7.0e6, 0.0, 0.0), velocity: vector(0.0, 7.5e3, 1.0) };
    let rate = state.rate(vector(-8.13, 0.0, 0.25)).unwrap();
    assert_eq!(components(rate.position), [0.0, 7.5e3, 1.0]);
    assert_eq!(components(rate.velocity), [-8.13, 0.0, 0.25]);
}

#[test]
fn there_is_no_rate_at_the_centre() {
    let state = StateVector { position: vector(0.0, -0.0, 0.0), velocity: vector(0.0, 7.5e3, 1.0) };
    assert_eq!(state.rate(vector(1.0, 1.0, 1.0)).unwrap_err(), Error::SingularState);
    assert_eq!(
        state.rate(vector(f64::NAN, f64::NAN, f64::NAN)).unwrap_err(),
        Error::SingularState
    );
}

#[test]
fn a_rate_that_is_not_finite_is_an_integration_failure() {
    let state = StateVector { position: vector(1.0, 0.0, 0.0), velocity: vector(0.0, 1.0, 0.0) };
    assert_eq!(
        state.rate(vector(f64::INFINITY, 0.0, 0.0)).unwrap_err(),
        Error::IntegrationFailure
    );
    let state = StateVector { position: vector(1.0, 0.0, 0.0), velocity: vector(0.0, f64::NAN, 0.0) };
    assert_eq!(state.rate(vector(1.0, 0.0, 0.0)).unwrap_err(), Error::IntegrationFailure);
    let state = StateVector { position: vector(f64::NAN, 0.0, 0.0), velocity: vector(0.0, 1.0, 0.0) };
    assert!(state.rate(vector(1.0, 0.0, 0.0)).is_ok());
}
