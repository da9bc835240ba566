use hohmann::error::OrbitError;
use hohmann::resolver::{resolve, resolve_spec, OrbitSpec};

/// Earth's gravitational parameter, scaled.
const MU_EARTH: i64 = 398_600_000_000;

fn spec(
    peri: Option<i64>,
    apo: Option<i64>,
    ecc: Option<i64>,
    vel_p: Option<i64>,
    vel_a: Option<i64>,
) -> OrbitSpec {
    OrbitSpec { peri, apo, ecc, vel_p, vel_a, spk_id: None }
}

fn rel_close(a: f64, b: f64, tol: f64) -> bool {
    (a - b).abs() <= tol * b.abs().max(1e-12)
}

#[test]
fn apses_rule_round_trips_the_eccentricity() {
    // rp = 7000 km, ra = 9000 km
    let s = spec(Some(7_000_000_000), Some(9_000_000_000), None, None, None);
    let o = resolve(&s, MU_EARTH).unwrap();
    assert_eq!(o.rp, 7_000_000_000);
    assert_eq!(o.ra, 9_000_000_000);
    // recomputing (ra - rp) / (ra + rp) from the resolved radii gives back
    // the stored eccentricity exactly
    let recomputed = (o.ra - o.rp) * 1_000_000 / (o.ra + o.rp);
    assert_eq!(o.ecc, recomputed);
    assert_eq!(o.ecc, 125_000); // (9000 - 7000) / (9000 + 7000) == 0.125
    // and within floating-point tolerance of the real-valued identity
    let ecc_f = (9000.0_f64 - 7000.0) / (9000.0 + 7000.0);
    assert!(rel_close(o.ecc as f64 / 1e6, ecc_f, 1e-6));
    assert_eq!(o.h, 56_026_555_292); // sqrt(2 mu) sqrt(rp ra / (rp + ra))
    let h_f = (2.0_f64 * 398_600.0).sqrt() * (7000.0_f64 * 9000.0 / 16_000.0).sqrt();
    assert!(rel_close(o.h as f64 / 1e6, h_f, 1e-3));
}

#[test]
fn circular_orbit_has_zero_eccentricity_and_keplerian_period() {
    // rp = ra = 1507 km around Earth
    let s = spec(Some(1_507_000_000), Some(1_507_000_000), None, None, None);
    let o = resolve(&s, MU_EARTH).unwrap();
    assert_eq!(o.ecc, 0);
    let period = o.period();
    // 2 pi sqrt(rp^3 / mu)
    let expected = 2.0 * std::f64::consts::PI * (1507.0_f64.powi(3) / 398_600.0).sqrt();
    assert!(rel_close(period as f64 / 1e6, expected, 1e-3));
    assert_eq!(period, 582_211_888); // about 582.2 s
}

#[test]
fn empty_and_single_parameter_records_are_insufficient() {
    let s = spec(None, None, None, None, None);
    assert_eq!(resolve(&s, MU_EARTH), Err(OrbitError::InsufficientArguments));
    let s = spec(Some(7_000_000_000), None, None, None, None);
    assert_eq!(resolve(&s, MU_EARTH), Err(OrbitError::InsufficientArguments));
    let s = spec(None, Some(9_000_000_000), None, None, None);
    assert_eq!(resolve(&s, MU_EARTH), Err(OrbitError::InsufficientArguments));
    let s = spec(None, None, Some(100_000), None, None);
    assert_eq!(resolve(&s, MU_EARTH), Err(OrbitError::InsufficientArguments));
}

#[test]
fn eccentricity_with_periapsis_speed_is_incompatible() {
    let s = spec(None, None, Some(100_000), Some(8_000_000), None);
    assert_eq!(resolve(&s, MU_EARTH), Err(OrbitError::IncompatibleArguments));
}

#[test]
fn unsupported_pairs_are_incompatible() {
    // periapsis with apoapsis speed
    let s = spec(Some(7_000_000_000), None, None, None, Some(6_000_000));
    assert_eq!(resolve(&s, MU_EARTH), Err(OrbitError::IncompatibleArguments));
    // apoapsis with periapsis speed
    let s = spec(None, Some(9_000_000_000), None, Some(8_000_000), None);
    assert_eq!(resolve(&s, MU_EARTH), Err(OrbitError::IncompatibleArguments));
    // eccentricity with apoapsis speed
    let s = spec(None, None, Some(100_000), None, Some(6_000_000));
    assert_eq!(resolve(&s, MU_EARTH), Err(OrbitError::IncompatibleArguments));
    // the two speeds alone
    let s = spec(None, None, None, Some(8_000_000), Some(6_000_000));
    assert_eq!(resolve(&s, MU_EARTH), Err(OrbitError::IncompatibleArguments));
}

#[test]
fn periapsis_and_eccentricity_derive_the_apoapsis() {
    // rp = 7000 km, e = 0.1: ra = rp (1 + e) / (1 - e)
    let s = spec(Some(7_000_000_000), None, Some(100_000), None, None);
    let o = resolve(&s, MU_EARTH).unwrap();
    assert_eq!(o.rp, 7_000_000_000);
    assert_eq!(o.ecc, 100_000);
    assert_eq!(o.ra, 8_555_555_555); // 7000 * 1.1 / 0.9 = 8555.555...
    assert_eq!(o.h, 55_400_541_513); // sqrt(rp mu (1 + e))
    let h_f = (7000.0_f64 * 398_600.0 * 1.1).sqrt();
    assert!(rel_close(o.h as f64 / 1e6, h_f, 1e-3));
}

#[test]
fn periapsis_and_periapsis_speed_derive_the_rest() {
    // rp = 7000 km, vp = 8 km/s
    let s = spec(Some(7_000_000_000), None, None, Some(8_000_000), None);
    let o = resolve(&s, MU_EARTH).unwrap();
    assert_eq!(o.h, 56_000_000_000); // h = rp vp = 56000 exactly
    assert_eq!(o.ecc, 123_933); // (rp vp)^2 / (rp mu) - 1 = 0.12393...
    let ecc_f = (7000.0_f64 * 8.0).powi(2) / (7000.0 * 398_600.0) - 1.0;
    assert!(rel_close(o.ecc as f64 / 1e6, ecc_f, 1e-3));
    assert_eq!(o.ra, 8_980_519_043); // h^2 / mu / (1 - e)
    let ra_f = (56_000.0_f64.powi(2) / 398_600.0) / (1.0 - ecc_f);
    assert!(rel_close(o.ra as f64 / 1e6, ra_f, 1e-3));
}

#[test]
fn apoapsis_and_eccentricity_derive_the_periapsis() {
    // ra = 9000 km, e = 0.2: rp = ra (1 - e) / (1 + e)
    let s = spec(None, Some(9_000_000_000), Some(200_000), None, None);
    let o = resolve(&s, MU_EARTH).unwrap();
    assert_eq!(o.ra, 9_000_000_000);
    assert_eq!(o.ecc, 200_000);
    assert_eq!(o.rp, 6_000_000_000); // 9000 * 0.8 / 1.2 = 6000 exactly
    assert_eq!(o.h, 53_571_634_285); // sqrt(mu ra (1 - e))
    let h_f = (398_600.0_f64 * 9000.0 * 0.8).sqrt();
    assert!(rel_close(o.h as f64 / 1e6, h_f, 1e-3));
}

#[test]
fn apoapsis_and_apoapsis_speed_derive_the_rest() {
    // ra = 9000 km, va = 6 km/s
    let s = spec(None, Some(9_000_000_000), None, None, Some(6_000_000));
    let o = resolve(&s, MU_EARTH).unwrap();
    assert_eq!(o.h, 54_000_000_000); // h = ra va = 54000 exactly
    assert_eq!(o.ecc, 187_156); // 1 - ra va^2 / mu = 0.18715...
    let ecc_f = 1.0 - 9000.0_f64 * 36.0 / 398_600.0;
    assert!(rel_close(o.ecc as f64 / 1e6, ecc_f, 1e-3));
    assert_eq!(o.rp, 6_162_294_269); // h^2 / mu / (1 + e)
    let rp_f = (54_000.0_f64.powi(2) / 398_600.0) / (1.0 + ecc_f);
    assert!(rel_close(o.rp as f64 / 1e6, rp_f, 1e-3));
}

#[test]
fn reversed_radii_are_a_domain_error() {
    let s = spec(Some(2_000_000_000), Some(1_000_000_000), None, None, None);
    assert_eq!(resolve(&s, MU_EARTH), Err(OrbitError::DomainError));
}

#[test]
fn out_of_range_values_are_domain_errors() {
    // a periapsis below the supported range
    let s = spec(Some(0), Some(9_000_000_000), None, None, None);
    assert_eq!(resolve(&s, MU_EARTH), Err(OrbitError::DomainError));
    // a negative periapsis
    let s = spec(Some(-7_000_000_000), Some(9_000_000_000), None, None, None);
    assert_eq!(resolve(&s, MU_EARTH), Err(OrbitError::DomainError));
    // an apoapsis beyond the supported range
    let s = spec(Some(7_000_000_000), Some(20_000_000_000_000_000), None, None, None);
    assert_eq!(resolve(&s, MU_EARTH), Err(OrbitError::DomainError));
    // an eccentricity of one or more describes no bound ellipse
    let s = spec(Some(7_000_000_000), None, Some(1_000_000), None, None);
    assert_eq!(resolve(&s, MU_EARTH), Err(OrbitError::DomainError));
    // a negative eccentricity
    let s = spec(Some(7_000_000_000), None, Some(-100_000), None, None);
    assert_eq!(resolve(&s, MU_EARTH), Err(OrbitError::DomainError));
    // a speed that is not positive
    let s = spec(Some(7_000_000_000), None, None, Some(0), None);
    assert_eq!(resolve(&s, MU_EARTH), Err(OrbitError::DomainError));
    let s = spec(None, Some(9_000_000_000), None, None, Some(-6_000_000));
    assert_eq!(resolve(&s, MU_EARTH), Err(OrbitError::DomainError));
    // a periapsis speed below circular speed makes the given periapsis the
    // farthest point, not the nearest: no bound orbit with that periapsis
    let s = spec(Some(7_000_000_000), None, None, Some(1_000_000), None);
    assert_eq!(resolve(&s, MU_EARTH), Err(OrbitError::DomainError));
}

#[test]
fn resolve_spec_looks_the_body_up_first() {
    let mut s = spec(Some(1_507_000_000), Some(1_507_000_000), None, None, None);
    assert_eq!(resolve_spec(&s), Err(OrbitError::MissingBody));
    s.spk_id = Some(9);
    assert_eq!(resolve_spec(&s), Err(OrbitError::UnsupportedBody));
    s.spk_id = Some(3);
    let o = resolve_spec(&s).unwrap();
    assert_eq!(o.mu, MU_EARTH);
    assert_eq!(o.ecc, 0);
}

#[test]
fn rule_priority_prefers_the_apses_over_other_pairs() {
    // with all five fields supplied, periapsis and apoapsis win
    let s = OrbitSpec {
        peri: Some(7_000_000_000),
        apo: Some(9_000_000_000),
        ecc: Some(900_000),
        vel_p: Some(8_000_000),
        vel_a: Some(6_000_000),
        spk_id: None,
    };
    let o = resolve(&s, MU_EARTH).unwrap();
    assert_eq!(o.rp, 7_000_000_000);
    assert_eq!(o.ra, 9_000_000_000);
    assert_eq!(o.ecc, 125_000);
    // with the periapsis absent, apoapsis and eccentricity win over the
    // apoapsis speed
    let s = OrbitSpec {
        peri: None,
        apo: Some(9_000_000_000),
        ecc: Some(200_000),
        vel_p: None,
        vel_a: Some(6_000_000),
        spk_id: None,
    };
    let o = resolve(&s, MU_EARTH).unwrap();
    assert_eq!(o.rp, 6_000_000_000);
    assert_eq!(o.ecc, 200_000);
}
