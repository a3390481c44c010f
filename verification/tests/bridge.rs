use gloo_file::{from_u128, from_u64, MAX_SAFE_INTEGER};

#[test]
fn u64_in_range_round_trips() {
    for n in [0u64, 1, 42, 1 << 52, MAX_SAFE_INTEGER - 1, MAX_SAFE_INTEGER] {
        let bridged = from_u64(n).expect("within the safe range");
        assert_eq!(bridged.value(), n);
    }
}

#[test]
fn u64_beyond_range_is_refused() {
    for n in [MAX_SAFE_INTEGER + 1, 1 << 54, u64::MAX] {
        assert!(from_u64(n).is_err());
    }
}

#[test]
fn u128_in_range_round_trips() {
    for n in [0u128, 123, MAX_SAFE_INTEGER as u128] {
        let bridged = from_u128(n).expect("within the safe range");
        assert_eq!(bridged.value() as u128, n);
    }
}

#[test]
fn u128_beyond_range_is_refused() {
    for n in [MAX_SAFE_INTEGER as u128 + 1, 1u128 << 70, u128::MAX] {
        assert!(from_u128(n).is_err());
    }
}

#[test]
fn exact_conversion_to_host_double_at_the_ceiling() {
    // The carried value converts to the host's double representation and
    // back without loss, which is the point of the ceiling.
    let bridged = from_u64(MAX_SAFE_INTEGER).unwrap();
    let as_double = bridged.value() as f64;
    assert_eq!(as_double as u64, MAX_SAFE_INTEGER);
}
