use utf8_crosscheck::oracle::classify;
use utf8_crosscheck::verdict::{ErrorLen, OracleVerdict};

fn invalid(valid_up_to: usize, error_len: ErrorLen) -> OracleVerdict {
    OracleVerdict::Invalid { valid_up_to, error_len }
}

#[test]
fn oracle_accepts_the_empty_sequence() {
    assert_eq!(classify(b""), OracleVerdict::Valid);
    assert!(classify(&[]).is_valid());
}

#[test]
fn oracle_accepts_ascii() {
    assert_eq!(classify(b"plain ascii, nothing else"), OracleVerdict::Valid);
    assert_eq!(classify(&[0x00]), OracleVerdict::Valid);
    assert_eq!(classify(&[0x7f]), OracleVerdict::Valid);
}

#[test]
fn oracle_accepts_text_of_every_encoded_width() {
    // one, two, three and four bytes to the code point
    let text = "a\u{e9}\u{20ac}\u{1f496} \u{43f}\u{440}\u{438}\u{432}\u{435}\u{442} \u{4f60}\u{597d}";
    assert_eq!(classify(text.as_bytes()), OracleVerdict::Valid);
    assert_eq!(classify(&[0x61, 0xc3, 0xa9, 0xe2, 0x82, 0xac, 0xf0, 0x9f, 0x92, 0x96]), OracleVerdict::Valid);
}

#[test]
fn oracle_accepts_the_bounds_of_each_width() {
    assert_eq!(classify(&[0xc2, 0x80]), OracleVerdict::Valid);
    assert_eq!(classify(&[0xdf, 0xbf]), OracleVerdict::Valid);
    assert_eq!(classify(&[0xe0, 0xa0, 0x80]), OracleVerdict::Valid);
    assert_eq!(classify(&[0xed, 0x9f, 0xbf]), OracleVerdict::Valid);
    assert_eq!(classify(&[0xee, 0x80, 0x80]), OracleVerdict::Valid);
    assert_eq!(classify(&[0xef, 0xbf, 0xbf]), OracleVerdict::Valid);
    assert_eq!(classify(&[0xf0, 0x90, 0x80, 0x80]), OracleVerdict::Valid);
    assert_eq!(classify(&[0xf4, 0x8f, 0xbf, 0xbf]), OracleVerdict::Valid);
}

#[test]
fn oracle_reports_a_lone_leading_byte_as_incomplete() {
    assert_eq!(classify(&[0xf0]), invalid(0, ErrorLen::Incomplete));
    assert_eq!(classify(&[0xe2]), invalid(0, ErrorLen::Incomplete));
    assert_eq!(classify(&[0xc3]), invalid(0, ErrorLen::Incomplete));
}

#[test]
fn oracle_reports_a_truncated_tail_after_valid_text() {
    assert_eq!(classify(&[0x61, 0xe2, 0x82]), invalid(1, ErrorLen::Incomplete));
    assert_eq!(classify(&[0x61, 0x62, 0xf0, 0x9f, 0x92]), invalid(2, ErrorLen::Incomplete));
    assert_eq!(classify(&[0xc3, 0xa9, 0xf0, 0x9f]), invalid(2, ErrorLen::Incomplete));
}

#[test]
fn oracle_rejects_an_overlong_encoding_where_it_begins() {
    assert_eq!(classify(&[0xc0, 0x80]), invalid(0, ErrorLen::Definite(1)));
    assert_eq!(classify(&[0xc1, 0xbf]), invalid(0, ErrorLen::Definite(1)));
    assert_eq!(classify(&[0x61, 0x62, 0xc0, 0xaf, 0x63]), invalid(2, ErrorLen::Definite(1)));
    assert_eq!(classify(&[0xe0, 0x80, 0x80]), invalid(0, ErrorLen::Definite(1)));
    assert_eq!(classify(&[0x61, 0xf0, 0x80, 0x80, 0x80]), invalid(1, ErrorLen::Definite(1)));
}

#[test]
fn oracle_rejects_surrogates_and_out_of_range_code_points() {
    assert_eq!(classify(&[0xed, 0xa0, 0x80]), invalid(0, ErrorLen::Definite(1)));
    assert_eq!(classify(&[0x61, 0xed, 0xbf, 0xbf]), invalid(1, ErrorLen::Definite(1)));
    assert_eq!(classify(&[0xf4, 0x90, 0x80, 0x80]), invalid(0, ErrorLen::Definite(1)));
    assert_eq!(classify(&[0xf5, 0x80, 0x80, 0x80]), invalid(0, ErrorLen::Definite(1)));
    assert_eq!(classify(&[0xff]), invalid(0, ErrorLen::Definite(1)));
}

#[test]
fn oracle_rejects_a_stray_continuation_byte() {
    assert_eq!(classify(&[0x80]), invalid(0, ErrorLen::Definite(1)));
    assert_eq!(classify(&[0x00, 159, 146, 150]), invalid(1, ErrorLen::Definite(1)));
}

#[test]
fn oracle_measures_a_run_that_an_unexpected_byte_ends() {
    assert_eq!(classify(&[0xc3, 0x41]), invalid(0, ErrorLen::Definite(1)));
    assert_eq!(classify(&[0xe2, 0x82, 0x41]), invalid(0, ErrorLen::Definite(2)));
    assert_eq!(classify(&[0xf0, 0x9f, 0x92, 0x41]), invalid(0, ErrorLen::Definite(3)));
    assert_eq!(classify(&[0x61, 0xf0, 0x9f, 0x41, 0x42]), invalid(1, ErrorLen::Definite(2)));
}

#[test]
fn oracle_stops_at_the_first_of_several_faults() {
    assert_eq!(classify(&[0x61, 0xff, 0x62, 0xc0, 0x80]), invalid(1, ErrorLen::Definite(1)));
}

#[test]
fn oracle_offset_is_the_longest_prefix_it_accepts() {
    let bytes = [0x61, 0xc3, 0xa9, 0xe2, 0x82, 0xac, 0xf0, 0x9f, 0x92, 0x41, 0x62];
    let verdict = classify(&bytes);
    assert_eq!(verdict, invalid(6, ErrorLen::Definite(3)));
    assert!(classify(&bytes[..6]).is_valid());
    for longer in 7..=bytes.len() {
        assert!(!classify(&bytes[..longer]).is_valid());
    }
}

#[test]
fn oracle_locates_a_fault_in_a_long_input() {
    let mut bytes = vec![b'x'; 200];
    bytes[130] = 0xe2;
    bytes[131] = 0x82;
    assert_eq!(classify(&bytes), invalid(130, ErrorLen::Definite(2)));
    bytes[132] = 0xac;
    assert_eq!(classify(&bytes), OracleVerdict::Valid);
}

#[test]
fn oracle_gives_the_same_verdict_twice() {
    let inputs: [&[u8]; 5] = [b"", b"abc", &[0xf0], &[0xc0, 0x80], &[0x61, 0xe2, 0x82, 0x41]];
    for input in inputs {
        assert_eq!(classify(input), classify(input));
        let copy = input.to_vec();
        assert_eq!(classify(input), classify(&copy));
    }
}

#[test]
fn oracle_getters_read_the_location() {
    let verdict = classify(&[0x61, 0xe2, 0x82, 0x41]);
    assert_eq!(verdict.valid_up_to(), Some(1));
    assert_eq!(verdict.error_len(), Some(ErrorLen::Definite(2)));
    assert!(!verdict.is_valid());
    let accepted = classify(b"ok");
    assert_eq!(accepted.valid_up_to(), None);
    assert_eq!(accepted.error_len(), None);
    assert!(accepted.is_valid());
}

#[test]
fn oracle_verdict_lies_within_the_input() {
    let inputs: [&[u8]; 6] = [
        &[0xf0],
        &[0x61, 0xe2, 0x82],
        &[0xc0, 0x80],
        &[0x61, 0x62, 0xff],
        &[0xf0, 0x9f, 0x92, 0x41],
        &[0x61, 0xf0, 0x9f, 0x92],
    ];
    for input in inputs {
        match classify(input) {
            OracleVerdict::Valid => panic!("accepted {:?}", input),
            OracleVerdict::Invalid { valid_up_to, error_len } => {
                assert!(valid_up_to < input.len());
                match error_len {
                    ErrorLen::Incomplete => assert!(input.len() - valid_up_to <= 3),
                    ErrorLen::Definite(n) => assert!(1 <= n && valid_up_to + n <= input.len()),
                }
            }
        }
    }
}

/// Holds a verdict against what the oracle itself says of every prefix of the input.
fn assert_longest_valid_prefix(input: &[u8]) {
    match classify(input) {
        OracleVerdict::Valid => {}
        OracleVerdict::Invalid { valid_up_to, error_len } => {
            assert!(valid_up_to < input.len(), "input {:?}", input);
            assert!(classify(&input[..valid_up_to]).is_valid(), "input {:?}", input);
            for longer in valid_up_to + 1..=input.len() {
                assert!(!classify(&input[..longer]).is_valid(), "input {:?}", input);
            }
            match error_len {
                ErrorLen::Incomplete => {
                    let left = input.len() - valid_up_to;
                    assert!(1 <= left && left <= 3, "input {:?}", input);
                }
                ErrorLen::Definite(n) => {
                    assert!(1 <= n && valid_up_to + n <= input.len(), "input {:?}", input);
                }
            }
        }
    }
}

const EDGES: [u8; 24] = [
    0x00, 0x41, 0x7f, 0x80, 0x8f, 0x90, 0x9f, 0xa0, 0xbf, 0xc0, 0xc1, 0xc2, 0xdf, 0xe0, 0xe1,
    0xec, 0xed, 0xee, 0xef, 0xf0, 0xf3, 0xf4, 0xf5, 0xff,
];

#[test]
fn oracle_offset_is_the_longest_valid_prefix_of_every_short_input() {
    for first in 0..=255u8 {
        assert_longest_valid_prefix(&[first]);
        for second in 0..=255u8 {
            assert_longest_valid_prefix(&[first, second]);
        }
    }
}

#[test]
fn oracle_offset_is_the_longest_valid_prefix_on_edge_bytes() {
    for a in EDGES {
        for b in EDGES {
            for c in EDGES {
                assert_longest_valid_prefix(&[a, b, c]);
                for d in EDGES {
                    assert_longest_valid_prefix(&[a, b, c, d]);
                    assert_longest_valid_prefix(&[0x61, a, b, c, d, 0x62]);
                }
            }
        }
    }
}

#[test]
fn oracle_accepts_every_scalar_value() {
    let mut buffer = [0u8; 4];
    for code in (0..=0x10ffffu32).step_by(7) {
        if let Some(scalar) = char::from_u32(code) {
            let encoded = scalar.encode_utf8(&mut buffer);
            assert_eq!(classify(encoded.as_bytes()), OracleVerdict::Valid);
        }
    }
}

const CONTINUATIONS: [u8; 6] = [0x80, 0x8f, 0x90, 0x9f, 0xa0, 0xbf];

/// Whether some bytes after `rest` would make of it the encoding of one character.
fn could_be_completed(rest: &[u8]) -> bool {
    if rest.is_empty() {
        return false;
    }
    let mut tails: Vec<Vec<u8>> = Vec::new();
    for a in CONTINUATIONS {
        tails.push(vec![a]);
        for b in CONTINUATIONS {
            tails.push(vec![a, b]);
            for c in CONTINUATIONS {
                tails.push(vec![a, b, c]);
            }
        }
    }
    tails.iter().any(|tail| {
        let mut whole = rest.to_vec();
        whole.extend_from_slice(tail);
        match std::str::from_utf8(&whole) {
            Ok(text) => text.chars().count() == 1,
            Err(_) => false,
        }
    })
}

fn assert_incomplete_exactly_when_cut_off(input: &[u8]) {
    if let OracleVerdict::Invalid { valid_up_to, error_len } = classify(input) {
        assert_eq!(
            error_len == ErrorLen::Incomplete,
            could_be_completed(&input[valid_up_to..]),
            "input {:?}",
            input
        );
    }
}

#[test]
fn oracle_reports_incomplete_exactly_for_a_cut_off_sequence_of_two_bytes() {
    for first in 0..=255u8 {
        assert_incomplete_exactly_when_cut_off(&[first]);
        assert_incomplete_exactly_when_cut_off(&[0x61, first]);
        for second in 0..=255u8 {
            assert_incomplete_exactly_when_cut_off(&[first, second]);
        }
    }
}

#[test]
fn oracle_reports_incomplete_exactly_for_a_cut_off_sequence_on_edge_bytes() {
    for a in EDGES {
        for b in EDGES {
            for c in EDGES {
                assert_incomplete_exactly_when_cut_off(&[a, b, c]);
                assert_incomplete_exactly_when_cut_off(&[0xc3, 0xa9, a, b, c]);
                for d in [0x41u8, 0x80, 0xbf, 0xf0] {
                    assert_incomplete_exactly_when_cut_off(&[a, b, c, d]);
                }
            }
        }
    }
}

#[test]
fn oracle_reports_a_leading_byte_before_an_unexpected_byte_as_definite() {
    assert_eq!(classify(&[0xf0, 0x41]), invalid(0, ErrorLen::Definite(1)));
    assert_eq!(classify(&[0xc0]), invalid(0, ErrorLen::Definite(1)));
    assert_eq!(classify(&[0xe0, 0x80]), invalid(0, ErrorLen::Definite(1)));
    assert_eq!(classify(&[0xf4, 0x90]), invalid(0, ErrorLen::Definite(1)));
    assert_eq!(classify(&[0xf0, 0x90]), invalid(0, ErrorLen::Incomplete));
    assert_eq!(classify(&[0xf0, 0x90, 0x80]), invalid(0, ErrorLen::Incomplete));
}
