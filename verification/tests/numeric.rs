use w9pt_fs_state_postgres::numeric::{decode_u64, encode_u64, NumericCodecError};

#[test]
fn full_unsigned_boundaries_round_trip_canonically() {
    for value in [0, i64::MAX as u64, i64::MAX as u64 + 1, u64::MAX] {
        let encoded = encode_u64(value);
        assert_eq!(decode_u64("value", &encoded), Ok(value));
    }
}

#[test]
fn noncanonical_and_out_of_range_values_are_rejected() {
    for value in ["", "00", "01", "+1", "-1", "1.0", "1e1", " 1", "18446744073709551616"] {
        assert!(decode_u64("value", value).is_err(), "accepted {value:?}");
    }
}

#[test]
fn decimal_text_is_exact() {
    assert_eq!(encode_u64(0), "0");
    assert_eq!(encode_u64(10_203), "10203");
    assert_eq!(encode_u64(u64::MAX), "18446744073709551615");
    assert_eq!(
        decode_u64("revision", "007"),
        Err(NumericCodecError { field: "revision", value: "007".to_owned() })
    );
    assert_eq!(
        NumericCodecError { field: "revision", value: "0\"7".to_owned() }.text(),
        "revision value \"0\\\"7\" is not canonical unsigned decimal"
    );
}
