use wikimedia::util::fmt::{Bytes, Duration, Sha1Hash};
use wikimedia::error::WikiError;

const MS: u64 = 1_000_000;

fn dur(secs: u64, millis: u64) -> Duration {
    Duration::new(secs, (millis * MS) as u32)
}

#[test]
fn duration_formatting() {
    let cases: &[(Duration, &str)] = &[
        (dur(3, 0), "3s"),
        (dur(0, 333), "333ms"),
        (dur(1, 333), "1s 333ms"),
        (dur(120, 0), "2m"),
        (dur(121, 0), "2m 1s"),
        (dur(3600 + 120 + 1, 0), "1h 2m 1s"),
        (dur(3600 + 120 + 1, 10), "1h 2m 1s 10ms"),
    ];

    let mut fails: u64 = 0;
    for (input, expected) in cases.iter() {
        let output = input.to_display_string();
        println!("expected: {expected} output: {output}");
        if *expected != &*output {
            fails += 1;
        }
    }
    assert!(fails == 0);
}

#[test]
fn duration_padding() {
    let d = dur(2, 0);
    assert_eq!(&*format!("{:>6}", d.to_display_string()), "    2s");
    assert_eq!(&*format!("{:<6}", d.to_display_string()), "2s    ");
}

#[test]
fn duration_zero_shows_milliseconds() {
    assert_eq!(dur(0, 0).to_display_string(), "0ms");
}

#[test]
fn duration_accessors() {
    let d = Duration::new(5, 123_456_789);
    assert_eq!(d.as_secs(), 5);
    assert_eq!(d.subsec_nanos(), 123_456_789);
    assert_eq!(d.subsec_millis(), 123);
    assert_eq!(d.to_display_string(), "5s 123ms");
}

#[test]
fn example() {
    let text = "#REDIRECT [[Abacus]]

{{Redirect category shell|1=
{{R from CamelCase}}
}}";
    assert_eq!(text.len(), 74);

    let sha1_base36_str = "tdzgf1eon4l1v0cjer5nnwg0y1enxye";
    let sha1_expected = Sha1Hash::from_base36_str(sha1_base36_str).expect("from_base36_str");

    let sha1_calculated = Sha1Hash::calculate_from_bytes(text.as_bytes());

    assert_eq!(sha1_calculated, sha1_expected);
}

#[test]
fn sha1_of_empty_input_displays_as_hex() {
    let h = Sha1Hash::calculate_from_bytes(b"");
    assert_eq!(h.to_display_string(), "da39a3ee5e6b4b0d3255bfef95601890afd80709");
}

#[test]
fn sha1_from_base36_small_numbers() {
    let h = Sha1Hash::from_base36_str("z").expect("parses");
    let mut expected = [0u8; 20];
    expected[19] = 35;
    assert_eq!(h, Sha1Hash(expected));

    let h = Sha1Hash::from_base36_str("10").expect("parses");
    let mut expected = [0u8; 20];
    expected[19] = 36;
    assert_eq!(h, Sha1Hash(expected));
}

#[test]
fn sha1_from_base36_errors() {
    assert!(matches!(Sha1Hash::from_base36_str(""), Err(WikiError::Sha1Base36)));
    assert!(matches!(Sha1Hash::from_base36_str("!"), Err(WikiError::Sha1Base36)));
    // 36^31 > 2^160.
    assert!(matches!(Sha1Hash::from_base36_str("zzzzzzzzzzzzzzzzzzzzzzzzzzzzzzzz"),
                     Err(WikiError::Sha1TooLarge)));
}

#[test]
fn sha1_from_le_bytes_reverses_and_pads() {
    let h = Sha1Hash::from_le_bytes(&vec![1, 2, 3]).expect("fits");
    let mut expected = [0u8; 20];
    expected[17] = 3;
    expected[18] = 2;
    expected[19] = 1;
    assert_eq!(h, Sha1Hash(expected));

    let mut wide = vec![0u8; 25];
    wide[0] = 9;
    assert!(Sha1Hash::from_le_bytes(&wide).is_some());
    wide[21] = 1;
    assert!(Sha1Hash::from_le_bytes(&wide).is_none());
}

#[test]
fn bytes_equality() {
    assert_eq!(Bytes(5), Bytes(5));
    assert_ne!(Bytes(5), Bytes(6));
}

#[test]
fn sha1_from_base36_fits_160_bits() {
    let h = Sha1Hash::from_base36_str("twj4yidkw7a8pn4g709kzmfoaol3x8f").expect("2^160 - 1 fits");
    assert_eq!(h, Sha1Hash([0xff; 20]));
    assert!(matches!(Sha1Hash::from_base36_str("twj4yidkw7a8pn4g709kzmfoaol3x8g"),
                     Err(WikiError::Sha1TooLarge)));
}

#[test]
fn duration_parts_joined_by_single_spaces() {
    assert_eq!(dur(3601, 0).to_display_string(), "1h 1s");
    assert_eq!(dur(120, 5).to_display_string(), "2m 5ms");
    assert_eq!(dur(7322, 10).to_display_string(), "2h 2m 2s 10ms");
    assert_eq!(dur(0, 999).to_display_string(), "999ms");
}

#[test]
fn duration_new_carries_whole_seconds() {
    let d = Duration::new(1, 2_500_000_000);
    assert_eq!(d.as_secs(), 3);
    assert_eq!(d.subsec_nanos(), 500_000_000);
    assert_eq!(d.to_display_string(), "3s 500ms");
}
