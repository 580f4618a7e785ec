use byte_me::bitrate::extract_bitrate_data;

#[test]
fn test_extract_bitrate_data_parses_lines_in_order() {
    let out = extract_bitrate_data("clip.mp4".to_string(), "1500\n900\n2200\n")
        .expect("three frames parse");
    assert_eq!(out.id, "clip.mp4");
    assert_eq!(out.frames.len(), 3);
    assert_eq!(out.frames[0].frame_num, 0);
    assert_eq!(out.frames[0].packet_size, 1500);
    assert_eq!(out.frames[1].frame_num, 1);
    assert_eq!(out.frames[1].packet_size, 900);
    assert_eq!(out.frames[2].frame_num, 2);
    assert_eq!(out.frames[2].packet_size, 2200);
}

#[test]
fn test_noise_lines_do_not_leave_index_gaps() {
    // Dropped lines must not create gaps: indices stay dense and zero-based.
    let text = "100\n[warning] stray diagnostic\n200\n\nnot a number\n300";
    let out = extract_bitrate_data("v".to_string(), text).expect("three frames parse");
    assert_eq!(out.frames.len(), 3);
    for (i, frame) in out.frames.iter().enumerate() {
        assert_eq!(frame.frame_num as usize, i);
    }
    assert_eq!(out.frames[0].packet_size, 100);
    assert_eq!(out.frames[1].packet_size, 200);
    assert_eq!(out.frames[2].packet_size, 300);
}

#[test]
fn test_lines_are_trimmed_before_parsing() {
    let out = extract_bitrate_data("v".to_string(), "  42 \r\n\t7\n").expect("two frames parse");
    assert_eq!(out.frames.len(), 2);
    assert_eq!(out.frames[0].packet_size, 42);
    assert_eq!(out.frames[1].packet_size, 7);
}

#[test]
fn test_zero_parsable_lines_is_an_error_not_empty_success() {
    let e = extract_bitrate_data("v".to_string(), "noise\nmore noise\n")
        .expect_err("no frame data must fail");
    assert_eq!(e, "No frame data could be extracted from file");

    let e = extract_bitrate_data("v".to_string(), "").expect_err("empty output must fail");
    assert_eq!(e, "No frame data could be extracted from file");
}

#[test]
fn test_out_of_range_values_are_noise() {
    // 2^64 does not fit in a u64 and is dropped; u64::MAX itself parses.
    let text = "18446744073709551616\n18446744073709551615\n";
    let out = extract_bitrate_data("v".to_string(), text).expect("one frame parses");
    assert_eq!(out.frames.len(), 1);
    assert_eq!(out.frames[0].frame_num, 0);
    assert_eq!(out.frames[0].packet_size, u64::MAX);
}
