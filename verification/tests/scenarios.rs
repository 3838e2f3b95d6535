use matroska_codes::{
    decode, ContentEncAlgo, FlagInterlaced, MatrixCoefficients, Primaries, Range, StereoMode,
    TrackType,
};

#[test]
fn track_type_one_is_video() {
    assert_eq!(TrackType::from(1), TrackType::Video);
}

#[test]
fn track_type_thirty_three_is_metadata() {
    assert_eq!(TrackType::from(33), TrackType::Metadata);
}

#[test]
fn track_type_five_is_unknown() {
    assert_eq!(TrackType::from(5), TrackType::Unknown);
}

#[test]
fn stereo_mode_fourteen_is_laced_right_eye_first() {
    assert_eq!(StereoMode::from(14), StereoMode::LacedRightEyeFirst);
}

#[test]
fn primaries_twenty_two_is_jedec_p22() {
    assert_eq!(Primaries::from(22), Primaries::JedecP22);
}

#[test]
fn content_enc_algo_six_is_unknown() {
    assert_eq!(ContentEncAlgo::from(6), ContentEncAlgo::Unknown);
}

#[test]
fn matrix_coefficients_six_is_smpte170() {
    assert_eq!(MatrixCoefficients::from(6), MatrixCoefficients::Smpte170);
}

#[test]
fn matrix_coefficients_two_is_unknown() {
    assert_eq!(MatrixCoefficients::from(2), MatrixCoefficients::Unknown);
}

#[test]
fn flag_interlaced_three_is_unknown() {
    assert_eq!(FlagInterlaced::from(3), FlagInterlaced::Unknown);
}

#[test]
fn range_ninety_nine_is_unknown() {
    assert_eq!(Range::from(99), Range::Unknown);
}

#[test]
fn range_zero_is_not_filled_in() {
    assert_eq!(Range::from(0), Range::Unknown);
}

#[test]
fn track_type_gap_between_three_and_sixteen_stays_unknown() {
    let mut code: u64 = 4;
    while code < 16 {
        assert_eq!(TrackType::from(code), TrackType::Unknown);
        code += 1;
    }
}

#[test]
fn generic_decode_picks_the_table_by_type() {
    assert_eq!(decode::<TrackType>(1), TrackType::Video);
    assert_eq!(decode::<TrackType>(33), TrackType::Metadata);
    assert_eq!(decode::<TrackType>(5), TrackType::Unknown);
    assert_eq!(decode::<StereoMode>(14), StereoMode::LacedRightEyeFirst);
    assert_eq!(decode::<Primaries>(22), Primaries::JedecP22);
    assert_eq!(decode::<ContentEncAlgo>(6), ContentEncAlgo::Unknown);
}

#[test]
fn reading_twice_gives_the_same_member() {
    let codes: Vec<u64> = vec![0, 1, 5, 14, 22, 33, 99, u64::MAX];
    for code in codes {
        assert_eq!(TrackType::from(code), TrackType::from(code));
        assert_eq!(Primaries::from(code), Primaries::from(code));
        assert_eq!(decode::<StereoMode>(code), decode::<StereoMode>(code));
    }
}

#[test]
fn members_are_plain_copyable_values() {
    let a = TrackType::from(17);
    let b = a;
    let c = a.clone();
    assert_eq!(a, b);
    assert_eq!(b, c);
    assert_eq!(format!("{:?}", a), "Subtitle");
}
