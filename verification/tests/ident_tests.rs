use gh_action_trace::error::TraceError;
use gh_action_trace::ident::{span_id_of, trace_id_of};

#[test]
fn span_id_is_big_endian() {
    assert_eq!(span_id_of(1), Ok([0, 0, 0, 0, 0, 0, 0, 1]));
    assert_eq!(
        span_id_of(0x0102_0304_0506_0708),
        Ok([1, 2, 3, 4, 5, 6, 7, 8])
    );
    assert_eq!(span_id_of(u64::MAX), Ok([0xff; 8]));
}

#[test]
fn trace_id_is_padded_on_the_left() {
    assert_eq!(
        trace_id_of(0x0102_0304_0506_0708),
        Ok([0, 0, 0, 0, 0, 0, 0, 0, 1, 2, 3, 4, 5, 6, 7, 8])
    );
    assert_eq!(
        trace_id_of(258),
        Ok([0, 0, 0, 0, 0, 0, 0, 0, 0, 0, 0, 0, 0, 0, 1, 2])
    );
}

#[test]
fn zero_is_refused() {
    assert_eq!(span_id_of(0), Err(TraceError::InvalidIdentifier));
    assert_eq!(trace_id_of(0), Err(TraceError::InvalidIdentifier));
}

#[test]
fn encoding_is_deterministic() {
    for id in [1u64, 2, 255, 256, 65_535, 4_294_967_296, u64::MAX] {
        assert_eq!(span_id_of(id), span_id_of(id));
        assert_eq!(trace_id_of(id), trace_id_of(id));
    }
}

#[test]
fn hundred_thousand_ids_give_as_many_span_ids() {
    let mut seen = std::collections::HashSet::new();
    for id in 1u64..=100_000 {
        assert!(seen.insert(span_id_of(id).unwrap()));
    }
    assert_eq!(seen.len(), 100_000);
}

#[test]
fn hundred_thousand_ids_give_as_many_trace_ids() {
    let mut seen = std::collections::HashSet::new();
    for id in 1u64..=100_000 {
        assert!(seen.insert(trace_id_of(id).unwrap()));
    }
    assert_eq!(seen.len(), 100_000);
}

#[test]
fn decimal_digits_read_as_hexadecimal_would_collide() {
    // 2^64 in decimal has twenty digits: read as hexadecimal it would not
    // fit eight bytes. The encoding goes by the number, not by its digits.
    let a = span_id_of(18_446_744_073_709_551_615).unwrap();
    let b = span_id_of(1_844_674_407_370_955_161).unwrap();
    assert_ne!(a, b);
    assert_eq!(a, [0xff; 8]);
}
