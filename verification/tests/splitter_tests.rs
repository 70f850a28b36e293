use media_core::splitter::H264Splitter;

#[test]
fn one_unit_completed_by_next_start_code() {
    let mut sp = H264Splitter::new(false);
    let out = sp.input(&[0, 0, 1, 9, 8, 7, 6, 0, 0, 1]);
    assert_eq!(out, vec![vec![9, 8, 7, 6]]);
}

#[test]
fn unit_held_until_flush() {
    let mut sp = H264Splitter::new(false);
    let out = sp.input(&[0, 0, 1, 1, 2, 3, 4, 5]);
    assert!(out.is_empty());
    assert_eq!(sp.flush(), Some(vec![1, 2, 3, 4, 5]));
}

#[test]
fn flush_drops_short_final_unit() {
    let mut sp = H264Splitter::new(false);
    let out = sp.input(&[0, 0, 1, 1, 2, 3]);
    assert!(out.is_empty());
    assert_eq!(sp.flush(), None);
}

#[test]
fn short_unit_between_codes_is_dropped() {
    let mut sp = H264Splitter::new(false);
    // Unit between the two codes is [9, 9]: too short to carry a frame.
    let out = sp.input(&[0, 0, 1, 9, 9, 0, 0, 1, 5, 5, 5, 5, 0, 0, 1]);
    assert_eq!(out, vec![vec![5, 5, 5, 5]]);
}

#[test]
fn four_byte_code_strips_trailing_zero() {
    let mut sp = H264Splitter::new(false);
    // The unit before the four-byte code 00 00 00 01 must not keep the
    // code's leading zero.
    let out = sp.input(&[0, 0, 1, 6, 7, 8, 9, 0, 0, 0, 1, 1, 1, 1, 1, 0, 0, 1]);
    assert_eq!(out, vec![vec![6, 7, 8, 9], vec![1, 1, 1, 1]]);
}

#[test]
fn leading_bytes_before_first_code_form_a_unit() {
    let mut sp = H264Splitter::new(false);
    let out = sp.input(&[42, 43, 44, 45, 0, 0, 1]);
    assert_eq!(out, vec![vec![42, 43, 44, 45]]);
}

#[test]
fn chunking_does_not_change_the_units() {
    let stream: Vec<u8> = vec![
        0, 0, 1, 9, 8, 7, 6, 0, 0, 0, 1, 1, 2, 3, 4, 5, 0, 0, 1, 10, 11, 12, 13, 14, 15,
    ];
    // Whole stream at once.
    let mut one = H264Splitter::new(false);
    let mut units_one = one.input(&stream);
    if let Some(last) = one.flush() {
        units_one.push(last);
    }
    // Byte by byte.
    let mut per_byte = H264Splitter::new(false);
    let mut units_bytes: Vec<Vec<u8>> = Vec::new();
    for b in &stream {
        units_bytes.extend(per_byte.input(&[*b]));
    }
    if let Some(last) = per_byte.flush() {
        units_bytes.push(last);
    }
    // A start code cut across chunks.
    let mut split = H264Splitter::new(false);
    let mut units_split: Vec<Vec<u8>> = Vec::new();
    units_split.extend(split.input(&stream[..9]));
    units_split.extend(split.input(&stream[9..10]));
    units_split.extend(split.input(&stream[10..]));
    if let Some(last) = split.flush() {
        units_split.push(last);
    }
    let expected = vec![
        vec![9, 8, 7, 6],
        vec![1, 2, 3, 4, 5],
        vec![10, 11, 12, 13, 14, 15],
    ];
    assert_eq!(units_one, expected);
    assert_eq!(units_bytes, expected);
    assert_eq!(units_split, expected);
}

#[test]
fn flush_resets_the_splitter() {
    let mut sp = H264Splitter::new(true);
    assert!(sp.is_h265());
    sp.input(&[0, 0, 1, 1, 2, 3, 4]);
    assert_eq!(sp.flush(), Some(vec![1, 2, 3, 4]));
    assert_eq!(sp.flush(), None);
    let out = sp.input(&[5, 5, 5, 5, 0, 0, 1]);
    assert_eq!(out, vec![vec![5, 5, 5, 5]]);
}

#[test]
fn consecutive_codes_emit_nothing_between() {
    let mut sp = H264Splitter::new(false);
    let out = sp.input(&[0, 0, 1, 0, 0, 1, 0, 0, 1]);
    assert!(out.is_empty());
}
