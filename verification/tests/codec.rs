use annexb::{convert_to_annex_b, CodecId, CodecType, ConvertError, ParameterSets, ParseError};

#[test]
fn test_codec_type_from_ffmpeg_id() {
    assert_eq!(
        CodecType::from_ffmpeg_id(CodecId::H264).unwrap(),
        CodecType::H264
    );
    assert_eq!(
        CodecType::from_ffmpeg_id(CodecId::H265).unwrap(),
        CodecType::H265
    );
    assert_eq!(
        CodecType::from_ffmpeg_id(CodecId::Hevc).unwrap(),
        CodecType::H265
    );
    assert!(CodecType::from_ffmpeg_id(CodecId::Other(String::from("VP9"))).is_err());
}

#[test]
fn test_codec_type_format_strings() {
    assert_eq!(CodecType::H264.format_str(), "h264");
    assert_eq!(CodecType::H265.format_str(), "h265");
    assert_eq!(CodecType::H264.encoder_lib(), "libx264");
    assert_eq!(CodecType::H265.encoder_lib(), "libx265");
}

#[test]
fn test_should_skip_nal() {
    // H.264 NAL skipping
    assert!(CodecType::H264.should_skip_nal(CodecType::H264_NAL_SPS));
    assert!(CodecType::H264.should_skip_nal(CodecType::H264_NAL_PPS));
    assert!(CodecType::H264.should_skip_nal(CodecType::H264_NAL_SEI));
    assert!(!CodecType::H264.should_skip_nal(1)); // Slice NAL

    // H.265 NAL skipping
    assert!(CodecType::H265.should_skip_nal(CodecType::H265_NAL_VPS));
    assert!(CodecType::H265.should_skip_nal(CodecType::H265_NAL_SPS));
    assert!(CodecType::H265.should_skip_nal(CodecType::H265_NAL_PPS));
    assert!(CodecType::H265.should_skip_nal(CodecType::H265_NAL_SEI));
    assert!(!CodecType::H265.should_skip_nal(1)); // Slice NAL
}

#[test]
fn test_parameter_sets_validation() {
    let valid_h264 = ParameterSets {
        vps: vec![],
        sps: vec![1],
        pps: vec![2],
    };
    assert!(valid_h264.validate(CodecType::H264).is_ok());

    let valid_h265 = ParameterSets {
        vps: vec![1],
        sps: vec![2],
        pps: vec![3],
    };
    assert!(valid_h265.validate(CodecType::H265).is_ok());

    let invalid_h264 = ParameterSets {
        vps: vec![],
        sps: vec![],
        pps: vec![],
    };
    assert!(invalid_h264.validate(CodecType::H264).is_err());

    let invalid_h265 = ParameterSets {
        vps: vec![],
        sps: vec![1],
        pps: vec![2],
    };
    assert!(invalid_h265.validate(CodecType::H265).is_err());
}

#[test]
fn test_convert_to_annex_b() {
    // Test H264 conversion
    let input = vec![
        0x00, 0x00, 0x00, 0x05, // NAL size
        0x01, 0x02, 0x03, 0x04, 0x05, // NAL data
        0x00, 0x00, 0x00, 0x03, // Another NAL size
        0x07, 0x08, 0x09, // SPS NAL (should be skipped)
    ];

    let output = convert_to_annex_b(&input, CodecType::H264);
    assert_eq!(&output[..4], &[0x00, 0x00, 0x00, 0x01]); // Start code
    assert_eq!(&output[4..9], &[0x01, 0x02, 0x03, 0x04, 0x05]);
    assert_eq!(output.len(), 9); // Second NAL should be skipped
}

#[test]
fn test_parameter_sets_parse() {
    // Test AVCC parsing (H.264)
    let avcc = vec![
        1, 0, 0, 0, 0, // AVCC header
        1, // num_sps
        0, 0x05, // sps_size
        0x67, 0x42, 0x00, 0x0A, 0x00, // SPS data
        1,    // num_pps
        0, 0x03, // pps_size
        0x68, 0xCE, 0x38, // PPS data
    ];
    let params = ParameterSets::parse(&avcc, CodecType::H264).unwrap();
    assert!(params.vps.is_empty());
    assert!(!params.sps.is_empty());
    assert!(!params.pps.is_empty());
}

#[test]
fn test_timestamp_conversion() {
    // Test the timestamp conversion logic directly
    let time_base_num = 1;
    let time_base_den = 90000;
    let pts = 90000;
    let timestamp =
        (pts as f64 * time_base_num as f64 / time_base_den as f64 * 1_000_000_000.0) as u64;
    assert_eq!(timestamp, 1_000_000_000); // 1 second
}

#[test]
fn nal_type_reads_the_profile_layout() {
    // H.264: low five bits. 0x67 = 0b011_00111 is an SPS, 0x65 an IDR slice.
    assert_eq!(CodecType::H264.nal_type(0x67), 7);
    assert_eq!(CodecType::H264.nal_type(0x65), 5);
    assert_eq!(CodecType::H264.nal_type(0xFF), 31);
    // H.265: bits 1 to 6. 0x40 is a VPS (32), 0x42 an SPS (33), 0x4E an SEI (39).
    assert_eq!(CodecType::H265.nal_type(0x40), 32);
    assert_eq!(CodecType::H265.nal_type(0x42), 33);
    assert_eq!(CodecType::H265.nal_type(0x44), 34);
    assert_eq!(CodecType::H265.nal_type(0x4E), 39);
    assert_eq!(CodecType::H265.nal_type(0x26), 19);
    assert_eq!(CodecType::H265.nal_type(0xFF), 63);
}

#[test]
fn skip_predicate_holds_of_every_type() {
    for t in 0..=255u8 {
        assert_eq!(CodecType::H264.should_skip_nal(t), t == 6 || t == 7 || t == 8);
        assert_eq!(
            CodecType::H265.should_skip_nal(t),
            t == 32 || t == 33 || t == 34 || t == 39
        );
    }
}

#[test]
fn unsupported_codec_hands_the_identifier_back() {
    let id = CodecId::Other(String::from("VP9"));
    assert_eq!(
        CodecType::from_ffmpeg_id(id.clone()),
        Err(ConvertError::UnsupportedCodec(id))
    );
}

#[test]
fn avcc_parse_gives_start_code_prefixed_payloads() {
    let avcc = vec![
        1, 0, 0, 0, 0, 1, 0, 5, 0x67, 0x42, 0x00, 0x0A, 0x00, 1, 0, 3, 0x68, 0xCE, 0x38,
    ];
    let params = ParameterSets::parse(&avcc, CodecType::H264).unwrap();
    assert_eq!(params.vps, Vec::<u8>::new());
    assert_eq!(params.sps, vec![0, 0, 0, 1, 0x67, 0x42, 0x00, 0x0A, 0x00]);
    assert_eq!(params.pps, vec![0, 0, 0, 1, 0x68, 0xCE, 0x38]);
    let same = ParameterSets::parse_avcc(&avcc).unwrap();
    assert_eq!(same, params);
}

#[test]
fn avcc_count_uses_the_low_five_bits() {
    // 0xE2: the three reserved bits set, two SPS entries.
    let avcc = vec![
        1, 0x42, 0, 0x0A, 0xFF, 0xE2, 0, 1, 0x67, 0, 2, 0x67, 0x01, 2, 0, 1, 0x68, 0, 0,
    ];
    let params = ParameterSets::parse_avcc(&avcc).unwrap();
    assert_eq!(params.sps, vec![0, 0, 0, 1, 0x67, 0, 0, 0, 1, 0x67, 0x01]);
    // The second PPS entry is empty: a start code alone.
    assert_eq!(params.pps, vec![0, 0, 0, 1, 0x68, 0, 0, 0, 1]);
}

#[test]
fn avcc_two_byte_length_is_big_endian() {
    let mut avcc = vec![1, 0, 0, 0, 0, 1, 0x01, 0x02];
    avcc.extend(std::iter::repeat(0xAB).take(0x0102));
    avcc.extend_from_slice(&[1, 0, 1, 0x68]);
    let params = ParameterSets::parse_avcc(&avcc).unwrap();
    assert_eq!(params.sps.len(), 4 + 0x0102);
    assert_eq!(&params.sps[..4], &[0, 0, 0, 1]);
    assert!(params.sps[4..].iter().all(|b| *b == 0xAB));
    assert_eq!(params.pps, vec![0, 0, 0, 1, 0x68]);
}

#[test]
fn avcc_errors_name_the_place() {
    let parse = |bytes: &[u8]| ParameterSets::parse_avcc(bytes).unwrap_err();
    assert_eq!(
        parse(&[]),
        ConvertError::Parse(ParseError::AvccHeaderTooShort)
    );
    assert_eq!(
        parse(&[1, 0, 0, 0, 0, 1]),
        ConvertError::Parse(ParseError::AvccHeaderTooShort)
    );
    assert_eq!(
        parse(&[1, 0, 0, 0, 0, 1, 0]),
        ConvertError::Parse(ParseError::InvalidSpsLength)
    );
    assert_eq!(
        parse(&[1, 0, 0, 0, 0, 1, 0, 5, 0x67, 0x42]),
        ConvertError::Parse(ParseError::SpsTruncated)
    );
    assert_eq!(
        parse(&[1, 0, 0, 0, 0, 1, 0, 1, 0x67]),
        ConvertError::Parse(ParseError::MissingPps)
    );
    assert_eq!(
        parse(&[1, 0, 0, 0, 0, 1, 0, 1, 0x67, 1, 0]),
        ConvertError::Parse(ParseError::InvalidPpsLength)
    );
    assert_eq!(
        parse(&[1, 0, 0, 0, 0, 1, 0, 1, 0x67, 1, 0, 3, 0x68]),
        ConvertError::Parse(ParseError::PpsTruncated)
    );
    // No SPS entry at all, then no PPS entry.
    assert_eq!(
        parse(&[1, 0, 0, 0, 0, 0, 1, 0, 1, 0x68]),
        ConvertError::MissingParameterSets
    );
    assert_eq!(
        parse(&[1, 0, 0, 0, 0, 1, 0, 1, 0x67, 0]),
        ConvertError::MissingParameterSets
    );
}

fn hvcc_header(arrays: u8) -> Vec<u8> {
    let mut record = vec![0u8; 22];
    record[0] = 1;
    record.push(arrays);
    record
}

#[test]
fn hvcc_parse_routes_by_nal_type() {
    let mut record = hvcc_header(4);
    // VPS array with one entry; the two high bits of the array header are ignored.
    record.extend_from_slice(&[0xA0, 0, 1, 0, 2, 0x40, 0x01]);
    // SPS array with two entries.
    record.extend_from_slice(&[33, 0, 2, 0, 1, 0x42, 0, 2, 0x42, 0x09]);
    // An SEI array, which is passed over.
    record.extend_from_slice(&[39, 0, 1, 0, 3, 0x4E, 1, 2]);
    // PPS array.
    record.extend_from_slice(&[34, 0, 1, 0, 1, 0x44]);
    let params = ParameterSets::parse(&record, CodecType::H265).unwrap();
    assert_eq!(params.vps, vec![0, 0, 0, 1, 0x40, 0x01]);
    assert_eq!(params.sps, vec![0, 0, 0, 1, 0x42, 0, 0, 0, 1, 0x42, 0x09]);
    assert_eq!(params.pps, vec![0, 0, 0, 1, 0x44]);
    assert_eq!(ParameterSets::parse_hvcc(&record).unwrap(), params);
}

#[test]
fn hvcc_parse_keeps_what_was_complete() {
    let mut record = hvcc_header(4);
    record.extend_from_slice(&[32, 0, 1, 0, 1, 0x40]);
    record.extend_from_slice(&[33, 0, 1, 0, 1, 0x42]);
    record.extend_from_slice(&[34, 0, 1, 0, 1, 0x44]);
    // A last array whose entry announces more than is left.
    record.extend_from_slice(&[39, 0, 1, 0, 9, 0x4E]);
    let params = ParameterSets::parse_hvcc(&record).unwrap();
    assert_eq!(params.vps, vec![0, 0, 0, 1, 0x40]);
    assert_eq!(params.sps, vec![0, 0, 0, 1, 0x42]);
    assert_eq!(params.pps, vec![0, 0, 0, 1, 0x44]);

    // More arrays announced than present.
    let mut short = hvcc_header(9);
    short.extend_from_slice(&[32, 0, 1, 0, 1, 0x40]);
    short.extend_from_slice(&[33, 0, 1, 0, 1, 0x42]);
    short.extend_from_slice(&[34, 0, 1, 0, 1, 0x44, 35, 0]);
    assert_eq!(ParameterSets::parse_hvcc(&short).unwrap(), params);
}

#[test]
fn hvcc_truncated_entry_ends_its_array_only() {
    let mut record = hvcc_header(4);
    record.extend_from_slice(&[32, 0, 1, 0, 1, 0x40]);
    record.extend_from_slice(&[33, 0, 1, 0, 1, 0x42]);
    // Two entries announced; the first one's length (0x2200) overruns, so the
    // array ends behind that length field, and the next array header is read
    // from there: type 34, one entry of one byte.
    record.extend_from_slice(&[40, 0, 2, 0x22, 0x00, 34, 0, 1, 0, 1, 0x44]);
    let params = ParameterSets::parse_hvcc(&record).unwrap();
    assert_eq!(params.vps, vec![0, 0, 0, 1, 0x40]);
    assert_eq!(params.sps, vec![0, 0, 0, 1, 0x42]);
    assert_eq!(params.pps, vec![0, 0, 0, 1, 0x44]);
    // With three arrays announced the enumeration ends with the broken one.
    record[22] = 3;
    assert_eq!(
        ParameterSets::parse_hvcc(&record).unwrap_err(),
        ConvertError::MissingParameterSets
    );
}

#[test]
fn hvcc_errors() {
    assert_eq!(
        ParameterSets::parse_hvcc(&[0u8; 22]).unwrap_err(),
        ConvertError::Parse(ParseError::HvccHeaderTooShort)
    );
    assert_eq!(
        ParameterSets::parse_hvcc(&hvcc_header(0)).unwrap_err(),
        ConvertError::MissingParameterSets
    );
    let mut no_pps = hvcc_header(2);
    no_pps.extend_from_slice(&[32, 0, 1, 0, 1, 0x40]);
    no_pps.extend_from_slice(&[33, 0, 1, 0, 1, 0x42]);
    assert_eq!(
        ParameterSets::parse_hvcc(&no_pps).unwrap_err(),
        ConvertError::MissingParameterSets
    );
    let mut no_vps = hvcc_header(2);
    no_vps.extend_from_slice(&[33, 0, 1, 0, 1, 0x42]);
    no_vps.extend_from_slice(&[34, 0, 1, 0, 1, 0x44]);
    assert_eq!(
        ParameterSets::parse(&no_vps, CodecType::H265).unwrap_err(),
        ConvertError::MissingVps
    );
}

#[test]
fn validation_names_what_is_missing() {
    let sets = |vps: &[u8], sps: &[u8], pps: &[u8]| ParameterSets {
        vps: vps.to_vec(),
        sps: sps.to_vec(),
        pps: pps.to_vec(),
    };
    assert_eq!(sets(&[], &[1], &[2]).validate(CodecType::H264), Ok(()));
    assert_eq!(
        sets(&[], &[1], &[2]).validate(CodecType::H265),
        Err(ConvertError::MissingVps)
    );
    for codec in [CodecType::H264, CodecType::H265] {
        assert_eq!(
            sets(&[9], &[], &[2]).validate(codec),
            Err(ConvertError::MissingParameterSets)
        );
        assert_eq!(
            sets(&[9], &[1], &[]).validate(codec),
            Err(ConvertError::MissingParameterSets)
        );
        assert_eq!(sets(&[9], &[1], &[2]).validate(codec), Ok(()));
    }
}

#[test]
fn write_to_appends_in_profile_order() {
    let sets = ParameterSets {
        vps: vec![1, 2],
        sps: vec![3],
        pps: vec![4, 5],
    };
    let mut buffer = vec![0xEE];
    sets.write_to(CodecType::H265, &mut buffer);
    assert_eq!(buffer, vec![0xEE, 1, 2, 3, 4, 5]);
    let mut buffer = vec![0xEE];
    sets.write_to(CodecType::H264, &mut buffer);
    assert_eq!(buffer, vec![0xEE, 3, 4, 5]);
}

#[test]
fn annex_b_exact_output() {
    let input = vec![0, 0, 0, 5, 1, 2, 3, 4, 5, 0, 0, 0, 3, 7, 8, 9];
    assert_eq!(
        convert_to_annex_b(&input, CodecType::H264),
        vec![0, 0, 0, 1, 1, 2, 3, 4, 5]
    );
    // Under H.265 the second record has type (7 >> 1) & 0x3F = 3 and stays.
    assert_eq!(
        convert_to_annex_b(&input, CodecType::H265),
        vec![0, 0, 0, 1, 1, 2, 3, 4, 5, 0, 0, 0, 1, 7, 8, 9]
    );
}

#[test]
fn annex_b_drops_h265_parameter_sets_and_sei() {
    let input = vec![
        0, 0, 0, 2, 0x40, 0x01, // VPS
        0, 0, 0, 2, 0x42, 0x01, // SPS
        0, 0, 0, 2, 0x44, 0x01, // PPS
        0, 0, 0, 2, 0x4E, 0x01, // SEI
        0, 0, 0, 3, 0x26, 0x01, 0xAF, // IDR slice
    ];
    assert_eq!(
        convert_to_annex_b(&input, CodecType::H265),
        vec![0, 0, 0, 1, 0x26, 0x01, 0xAF]
    );
}

#[test]
fn annex_b_reads_a_four_byte_big_endian_length() {
    let mut input = vec![0, 0, 0x01, 0x04];
    input.extend(std::iter::repeat(0x41).take(0x0104));
    input.extend_from_slice(&[0, 0, 0, 1, 0x65]);
    let out = convert_to_annex_b(&input, CodecType::H264);
    assert_eq!(out.len(), 4 + 0x0104 + 4 + 1);
    assert_eq!(&out[..5], &[0, 0, 0, 1, 0x41]);
    assert_eq!(&out[4 + 0x0104..], &[0, 0, 0, 1, 0x65]);
}

#[test]
fn annex_b_tolerates_truncation() {
    let whole = vec![0, 0, 0, 2, 0x65, 0x88];
    let expected = vec![0, 0, 0, 1, 0x65, 0x88];
    assert_eq!(convert_to_annex_b(&whole, CodecType::H264), expected);

    // Ends inside the next length field.
    for tail in [&[0u8][..], &[0, 0], &[0, 0, 0]] {
        let mut input = whole.clone();
        input.extend_from_slice(tail);
        assert_eq!(convert_to_annex_b(&input, CodecType::H264), expected);
    }
    // The next record announces more than is left: it gives nothing.
    let mut input = whole.clone();
    input.extend_from_slice(&[0, 0, 0, 9, 0x41, 0x42]);
    assert_eq!(convert_to_annex_b(&input, CodecType::H264), expected);
    let mut input = whole.clone();
    input.extend_from_slice(&[0xFF, 0xFF, 0xFF, 0xFF, 0x41]);
    assert_eq!(convert_to_annex_b(&input, CodecType::H264), expected);

    // Nothing but a truncated record.
    assert_eq!(convert_to_annex_b(&[], CodecType::H264), Vec::<u8>::new());
    assert_eq!(convert_to_annex_b(&[0, 0], CodecType::H265), Vec::<u8>::new());
    assert_eq!(
        convert_to_annex_b(&[0, 0, 0, 4, 1, 2, 3], CodecType::H264),
        Vec::<u8>::new()
    );
}

#[test]
fn annex_b_empty_record() {
    // An empty record at the end has no header byte: its type is 0, it stays.
    assert_eq!(
        convert_to_annex_b(&[0, 0, 0, 0], CodecType::H264),
        vec![0, 0, 0, 1]
    );
    // An empty record in front of other bytes is typed by the byte behind
    // its length field.
    assert_eq!(
        convert_to_annex_b(&[0, 0, 0, 0, 7], CodecType::H264),
        Vec::<u8>::new()
    );
    assert_eq!(
        convert_to_annex_b(&[0, 0, 0, 0, 0, 0, 0, 1, 0x65], CodecType::H264),
        vec![0, 0, 0, 1, 0, 0, 0, 1, 0x65]
    );
}
