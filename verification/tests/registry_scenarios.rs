use error_registry::HttpError;

#[test]
fn round_trip_closed_sample() {
    assert_eq!(HttpError::ConnectionClosed.as_i32(), -100);
    assert_eq!(HttpError::from(-100), HttpError::ConnectionClosed);
    assert_eq!(HttpError::from(HttpError::InvalidUrl.as_i32()), HttpError::InvalidUrl);
    assert_eq!(
        HttpError::from(HttpError::Http2PushedResponseDoesNotMatch.as_i32()),
        HttpError::Http2PushedResponseDoesNotMatch
    );
}

#[test]
fn round_trip_unknown_codes() {
    for code in [-999, 42, 0, 7, -1, -99, -379, 1000000] {
        assert_eq!(HttpError::from(code), HttpError::Unknown(code));
        assert_eq!(HttpError::Unknown(code).as_i32(), code);
    }
}

#[test]
fn priority_of_closed_resolution() {
    assert_ne!(HttpError::from(-100), HttpError::Unknown(-100));
    assert_eq!(HttpError::from(-100), HttpError::ConnectionClosed);
    assert_ne!(HttpError::from(-118), HttpError::Unknown(-118));
}

#[test]
fn totality_at_boundaries() {
    for code in [0, i32::MIN, i32::MAX] {
        let kind = HttpError::from(code);
        assert_eq!(kind, HttpError::Unknown(code));
        assert_eq!(kind.as_i32(), code);
        assert!(!kind.describe().is_empty());
    }
}

#[test]
fn gap_codes_stay_unknown() {
    // Codes the external registry skips must not be claimed by any closed tag.
    for code in [-112, -116, -128, -129, -132, -140, -185, -304, -313, -326, -353, -359, -369] {
        assert_eq!(HttpError::from(code), HttpError::Unknown(code));
    }
}

#[test]
fn describe_unknown_embeds_code() {
    assert_eq!(HttpError::Unknown(42).describe().as_str(), "Unknown error: 42");
    assert_eq!(HttpError::Unknown(-999).describe().as_str(), "Unknown error: -999");
    assert_eq!(HttpError::Unknown(0).describe().as_str(), "Unknown error: 0");
    assert_eq!(
        HttpError::Unknown(i32::MIN).describe().as_str(),
        "Unknown error: -2147483648"
    );
    assert_eq!(
        HttpError::Unknown(i32::MAX).describe().as_str(),
        "Unknown error: 2147483647"
    );
}

#[test]
fn scenario_connection_timed_out() {
    let kind = HttpError::from(-118);
    assert_eq!(kind, HttpError::ConnectionTimedOut);
    assert_eq!(kind.describe().as_str(), "Connection timed out");
    assert_eq!(kind.as_i32(), -118);
}

#[test]
fn scenario_unassigned_code() {
    let kind = HttpError::from(42);
    assert_eq!(kind, HttpError::Unknown(42));
    assert_eq!(kind.as_i32(), 42);
}
