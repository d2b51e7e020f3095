use streamfinder::deser::opt_datetime;
use streamfinder::twitch::FetchError;

#[test]
fn absent_value_is_no_start_time() {
    assert_eq!(opt_datetime(None), Ok(None));
}

#[test]
fn empty_value_is_no_start_time() {
    assert_eq!(opt_datetime(Some("")), Ok(None));
}

#[test]
fn rfc3339_value_becomes_a_unix_timestamp() {
    assert_eq!(
        opt_datetime(Some("2021-07-01T12:00:00Z")),
        Ok(Some(1_625_140_800))
    );
    assert_eq!(opt_datetime(Some("1970-01-01T00:00:00Z")), Ok(Some(0)));
}

#[test]
fn offsets_are_respected() {
    assert_eq!(
        opt_datetime(Some("2021-07-01T12:00:00+02:00")),
        Ok(Some(1_625_140_800 - 7_200))
    );
}

#[test]
fn garbage_counts_as_malformed() {
    assert_eq!(
        opt_datetime(Some("yesterday at noon")),
        Err(FetchError::MalformedResponse)
    );
    assert_eq!(
        opt_datetime(Some("2021-13-40T99:00:00Z")),
        Err(FetchError::MalformedResponse)
    );
}
