use matroska_codes::{decode, TrackType};

#[test]
fn track_type_reads_every_listed_code() {
    assert_eq!(TrackType::from(1), TrackType::Video);
    assert_eq!(TrackType::from(2), TrackType::Audio);
    assert_eq!(TrackType::from(3), TrackType::Complex);
    assert_eq!(TrackType::from(16), TrackType::Logo);
    assert_eq!(TrackType::from(17), TrackType::Subtitle);
    assert_eq!(TrackType::from(18), TrackType::Buttons);
    assert_eq!(TrackType::from(32), TrackType::Control);
    assert_eq!(TrackType::from(33), TrackType::Metadata);
}

#[test]
fn track_type_reads_unlisted_codes_as_unknown() {
    assert_eq!(TrackType::from(0), TrackType::Unknown);
    assert_eq!(TrackType::from(4), TrackType::Unknown);
    assert_eq!(TrackType::from(5), TrackType::Unknown);
    assert_eq!(TrackType::from(6), TrackType::Unknown);
    assert_eq!(TrackType::from(7), TrackType::Unknown);
    assert_eq!(TrackType::from(8), TrackType::Unknown);
    assert_eq!(TrackType::from(9), TrackType::Unknown);
    assert_eq!(TrackType::from(10), TrackType::Unknown);
    assert_eq!(TrackType::from(11), TrackType::Unknown);
    assert_eq!(TrackType::from(12), TrackType::Unknown);
    assert_eq!(TrackType::from(13), TrackType::Unknown);
    assert_eq!(TrackType::from(14), TrackType::Unknown);
    assert_eq!(TrackType::from(15), TrackType::Unknown);
    assert_eq!(TrackType::from(19), TrackType::Unknown);
    assert_eq!(TrackType::from(20), TrackType::Unknown);
    assert_eq!(TrackType::from(21), TrackType::Unknown);
    assert_eq!(TrackType::from(22), TrackType::Unknown);
    assert_eq!(TrackType::from(23), TrackType::Unknown);
    assert_eq!(TrackType::from(24), TrackType::Unknown);
    assert_eq!(TrackType::from(25), TrackType::Unknown);
    assert_eq!(TrackType::from(26), TrackType::Unknown);
    assert_eq!(TrackType::from(27), TrackType::Unknown);
    assert_eq!(TrackType::from(28), TrackType::Unknown);
    assert_eq!(TrackType::from(29), TrackType::Unknown);
    assert_eq!(TrackType::from(30), TrackType::Unknown);
    assert_eq!(TrackType::from(31), TrackType::Unknown);
    assert_eq!(TrackType::from(34), TrackType::Unknown);
    assert_eq!(TrackType::from(255), TrackType::Unknown);
    assert_eq!(TrackType::from(256), TrackType::Unknown);
    assert_eq!(TrackType::from(65536), TrackType::Unknown);
    assert_eq!(TrackType::from((1u64 << 32) + 33), TrackType::Unknown);
    assert_eq!(TrackType::from(u64::MAX), TrackType::Unknown);
}

#[test]
fn track_type_listed_codes_read_as_distinct_members() {
    let codes: Vec<u64> = vec![1, 2, 3, 16, 17, 18, 32, 33];
    let mut i: usize = 0;
    while i < codes.len() {
        assert_ne!(TrackType::from(codes[i]), TrackType::Unknown);
        let mut j: usize = i + 1;
        while j < codes.len() {
            assert_ne!(TrackType::from(codes[i]), TrackType::from(codes[j]));
            j += 1;
        }
        i += 1;
    }
}

#[test]
fn track_type_decode_agrees_with_from_on_every_small_code() {
    let mut code: u64 = 0;
    let mut known: usize = 0;
    while code < 1024 {
        let v: TrackType = decode(code);
        assert_eq!(v, TrackType::from(code));
        assert_eq!(TrackType::from(code), TrackType::from(code));
        let w: TrackType = code.into();
        assert_eq!(v, w);
        if v != TrackType::Unknown {
            known += 1;
        }
        code += 1;
    }
    assert_eq!(known, 8);
}
