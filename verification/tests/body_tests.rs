use hohmann::body::lookup;
use hohmann::error::OrbitError;

#[test]
fn lookup_returns_documented_mu_for_every_supported_code() {
    assert_eq!(lookup(Some(0)), Ok(132_700_000_000_000_000)); // Sun: 1.327e11
    assert_eq!(lookup(Some(1)), Ok(22_030_000_000)); // Mercury: 2.203e4
    assert_eq!(lookup(Some(2)), Ok(325_700_000_000)); // Venus: 3.257e5
    assert_eq!(lookup(Some(3)), Ok(398_600_000_000)); // Earth: 3.986e5
    assert_eq!(lookup(Some(4)), Ok(43_050_000_000)); // Mars: 4.305e4
    assert_eq!(lookup(Some(5)), Ok(126_800_000_000_000)); // Jupiter: 1.268e8
    assert_eq!(lookup(Some(6)), Ok(37_940_000_000_000)); // Saturn: 3.794e7
    assert_eq!(lookup(Some(7)), Ok(5_794_000_000_000)); // Uranus: 5.794e6
    assert_eq!(lookup(Some(8)), Ok(6_809_000_000_000)); // Neptune: 6.809e6
    assert_eq!(lookup(Some(301)), Ok(4_902_799_000)); // Moon: 4902.799
}

#[test]
fn lookup_rejects_codes_outside_the_table() {
    assert_eq!(lookup(Some(9)), Err(OrbitError::UnsupportedBody));
    assert_eq!(lookup(Some(300)), Err(OrbitError::UnsupportedBody));
    assert_eq!(lookup(Some(302)), Err(OrbitError::UnsupportedBody));
    assert_eq!(lookup(Some(-1)), Err(OrbitError::UnsupportedBody));
    assert_eq!(lookup(Some(i32::MAX)), Err(OrbitError::UnsupportedBody));
}

#[test]
fn lookup_distinguishes_a_missing_code_from_an_unsupported_one() {
    assert_eq!(lookup(None), Err(OrbitError::MissingBody));
}
