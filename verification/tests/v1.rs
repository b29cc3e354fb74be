use uuid::v1::ClockSequence;
use uuid::v1::Context;
use uuid::v1::Timestamp;
use uuid::Uuid;
use uuid::Variant;
use uuid::Version;

#[test]
fn test_new_v1() {
    let time: u64 = 1_496_854_535;
    let time_fraction: u32 = 812_946_000;
    let node = [1, 2, 3, 4, 5, 6];
    let context = Context::new(0);

    {
        let uuid = Uuid::new_v1(
            Timestamp::from_unix(&context, time, time_fraction),
            &node,
        )
        .unwrap();

        assert_eq!(uuid.get_version(), Some(Version::Mac));
        assert_eq!(uuid.get_variant(), Some(Variant::RFC4122));
        assert_eq!(
            uuid.to_hyphenated(),
            "20616934-4ba2-11e7-8000-010203040506"
        );

        let ts = uuid.to_timestamp().unwrap().to_rfc4122();

        assert_eq!(ts.0 - 0x01B2_1DD2_1381_4000, 14_968_545_358_129_460);
        assert_eq!(ts.1, 0);
    };

    {
        let uuid2 = Uuid::new_v1(
            Timestamp::from_unix(&context, time, time_fraction),
            &node,
        )
        .unwrap();

        assert_eq!(
            uuid2.to_hyphenated(),
            "20616934-4ba2-11e7-8001-010203040506"
        );
        assert_eq!(uuid2.to_timestamp().unwrap().to_rfc4122().1, 1)
    };
}

#[test]
fn round_trip_preserves_fields_that_fit() {
    // Ticks fitting in 60 bits and a counter fitting in 14 bits come back
    // from disassembly unchanged.
    let ts = Timestamp::from_rfc4122(0x0ABC_DEF0_1234_5678, 0x2FFF);
    let node = [9, 8, 7, 6, 5, 4];
    let uuid = Uuid::new_v1(ts, &node).unwrap();
    let back = uuid.to_timestamp().unwrap();
    assert_eq!(back.to_rfc4122(), (0x0ABC_DEF0_1234_5678, 0x2FFF));
}

#[test]
fn round_trip_masks_overflowing_bits() {
    // Ticks above 60 bits and counter bits above 14 are not carried by the
    // format: disassembly yields the masked values.
    let ts = Timestamp::from_rfc4122(u64::MAX, u16::MAX);
    let node = [0, 0, 0, 0, 0, 0];
    let uuid = Uuid::new_v1(ts, &node).unwrap();
    let back = uuid.to_timestamp().unwrap();
    assert_eq!(
        back.to_rfc4122(),
        (u64::MAX & 0x0FFF_FFFF_FFFF_FFFF, u16::MAX & 0x3FFF)
    );
}

#[test]
fn round_trip_preserves_node_id_bytes() {
    let ts = Timestamp::from_rfc4122(12345, 6789);
    let node = [0xDE, 0xAD, 0xBE, 0xEF, 0x01, 0x02];
    let uuid = Uuid::new_v1(ts, &node).unwrap();
    assert_eq!(&uuid.as_bytes()[10..16], &node);
}

#[test]
fn new_v1_rejects_short_node_id() {
    let ts = Timestamp::from_rfc4122(0, 0);
    let err = Uuid::new_v1(ts, &[1, 2, 3, 4, 5]).unwrap_err();
    assert_eq!(err.expected, 6);
    assert_eq!(err.actual, 5);
}

#[test]
fn new_v1_rejects_long_node_id() {
    let ts = Timestamp::from_rfc4122(u64::MAX, u16::MAX);
    let err = Uuid::new_v1(ts, &[1, 2, 3, 4, 5, 6, 7]).unwrap_err();
    assert_eq!(err.expected, 6);
    assert_eq!(err.actual, 7);
}

#[test]
fn new_v1_rejects_empty_node_id() {
    let ts = Timestamp::from_rfc4122(42, 7);
    let err = Uuid::new_v1(ts, &[]).unwrap_err();
    assert_eq!(err.expected, 6);
    assert_eq!(err.actual, 0);
}

#[test]
fn context_hands_out_consecutive_distinct_values() {
    // A shared context started at C yields C, C+1, ... across successive
    // requests, so no two of the first 2^16 requests collide.
    let context = Context::new(100);
    let mut seen = Vec::new();
    for _ in 0..16 {
        let v = (&context).generate_sequence(0, 0);
        assert!(!seen.contains(&v));
        seen.push(v);
    }
    assert_eq!(seen, (100..116).collect::<Vec<u16>>());
}

#[test]
fn context_wraps_silently_past_16_bits() {
    let context = Context::new(u16::MAX);
    assert_eq!(context.generate_sequence(1, 2), u16::MAX);
    assert_eq!(context.generate_sequence(1, 2), 0);
    assert_eq!(context.generate_sequence(1, 2), 1);
}

#[test]
fn unix_round_trip_is_exact_on_multiples_of_100ns() {
    let context = Context::new(0);
    let cases: [(u64, u32); 4] = [
        (0, 0),
        (1_496_854_535, 812_946_000),
        (1, 999_999_900),
        (4_102_444_800, 100),
    ];
    for (s, n) in cases {
        let ts = Timestamp::from_unix(&context, s, n);
        assert_eq!(ts.to_unix(), (s, n));
    }
}

#[test]
fn unix_conversion_truncates_below_100ns() {
    let context = Context::new(0);
    let ts = Timestamp::from_unix(&context, 10, 150);
    // 150 ns is one whole tick; the remaining 50 ns are lost.
    assert_eq!(ts.to_unix(), (10, 100));
}

#[test]
fn to_unix_nanos_matches_to_unix() {
    let context = Context::new(0);
    let ts = Timestamp::from_unix(&context, 1_496_854_535, 812_946_000);
    assert_eq!(ts.to_unix_nanos(), 1_496_854_535 * 1_000_000_000 + 812_946_000);
    let (s, n) = ts.to_unix();
    assert_eq!(ts.to_unix_nanos(), s * 1_000_000_000 + n as u64);
}

#[test]
fn to_timestamp_refuses_other_versions() {
    // Version marker 4 (random) in the high nibble of byte 6.
    let uuid = Uuid::from_fields(0x20616934, 0x4ba2, 0x41e7, &[0x80, 0, 1, 2, 3, 4, 5, 6]);
    assert_eq!(uuid.get_version(), Some(Version::Random));
    assert!(uuid.to_timestamp().is_none());
}

#[test]
fn to_timestamp_refuses_nil() {
    let uuid = Uuid::from_fields(0, 0, 0, &[0; 8]);
    assert_eq!(uuid.get_version(), Some(Version::Nil));
    assert!(uuid.to_timestamp().is_none());
}
