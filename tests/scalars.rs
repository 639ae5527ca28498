use gtfs::codes::{decode_code, parse_u64, CodedEnum};
use gtfs::error::DecodeReason;
use gtfs::{Color, ContinuousStopping, RouteKind};

#[test]
fn color_decodes_six_hex_digits() {
    assert_eq!(Color::from_hex("FF8000"), Ok(Color { r: 255, g: 128, b: 0 }));
    assert_eq!(Color::from_hex("0a0B0c"), Ok(Color { r: 10, g: 11, b: 12 }));
    assert_eq!(Color::from_hex("000000"), Ok(Color { r: 0, g: 0, b: 0 }));
}

#[test]
fn color_matches_byte_conversion_for_every_channel_value() {
    for v in 0..=255u32 {
        let s = format!("{:02x}{:02X}{:02x}", v, 255 - v, (v * 7) % 256);
        let c = Color::from_hex(&s).unwrap();
        assert_eq!(c.r as u32, v);
        assert_eq!(c.g as u32, 255 - v);
        assert_eq!(c.b as u32, (v * 7) % 256);
    }
}

#[test]
fn color_rejects_other_lengths() {
    assert_eq!(
        Color::from_hex("FFF"),
        Err(DecodeReason::InvalidLength { expected: 6, found: 3 })
    );
    assert_eq!(
        Color::from_hex("1234567"),
        Err(DecodeReason::InvalidLength { expected: 6, found: 7 })
    );
    assert_eq!(Color::from_hex(""), Err(DecodeReason::InvalidLength { expected: 6, found: 0 }));
}

#[test]
fn color_counts_characters_not_bytes() {
    assert_eq!(
        Color::from_hex("a\u{e9}abc"),
        Err(DecodeReason::InvalidLength { expected: 6, found: 5 })
    );
    assert_eq!(Color::from_hex("a\u{e9}abcd"), Err(DecodeReason::InvalidHexDigit { position: 1 }));
}

#[test]
fn color_rejects_non_hex_digits() {
    assert_eq!(Color::from_hex("GG0000"), Err(DecodeReason::InvalidHexDigit { position: 0 }));
    assert_eq!(Color::from_hex("12345z"), Err(DecodeReason::InvalidHexDigit { position: 5 }));
    assert_eq!(Color::from_hex("+f0000"), Err(DecodeReason::InvalidHexDigit { position: 0 }));
}

const ROUTE_KIND_CODES: [u64; 92] = [
    0, 1, 2, 3, 4, 5, 6, 7, 11, 12, 100, 101, 102, 103, 104, 105, 106, 107, 108, 109, 110, 111,
    112, 113, 114, 115, 116, 117, 200, 201, 202, 203, 204, 205, 206, 207, 208, 209, 400, 401, 402,
    403, 404, 405, 700, 701, 702, 703, 704, 705, 706, 707, 708, 709, 710, 711, 712, 713, 714, 715,
    716, 800, 900, 901, 902, 903, 904, 905, 906, 1000, 1100, 1200, 1300, 1301, 1302, 1303, 1304,
    1305, 1306, 1307, 1400, 1500, 1501, 1502, 1503, 1504, 1505, 1506, 1507, 1700, 1701, 1702,
];

#[test]
fn every_route_kind_code_decodes() {
    let mut seen: Vec<RouteKind> = Vec::new();
    for code in ROUTE_KIND_CODES {
        let k: RouteKind = decode_code(&code.to_string()).unwrap();
        assert_eq!(k.code(), code);
        assert!(!seen.contains(&k));
        seen.push(k);
    }
    assert_eq!(RouteKind::from_code(3), Some(RouteKind::Bus));
    assert_eq!(RouteKind::from_code(109), Some(RouteKind::SuburbanRailway));
    assert_eq!(RouteKind::from_code(1701), Some(RouteKind::CableCar));
    assert_eq!(RouteKind::from_code(1702), Some(RouteKind::HorsedrawnCarriage));
}

#[test]
fn route_kind_codes_outside_the_set_fail() {
    for code in [8u64, 13, 50, 99, 118, 199, 300, 1703, 1800, 9999] {
        assert_eq!(
            decode_code::<RouteKind>(&code.to_string()),
            Err(DecodeReason::UnknownCode { value: code })
        );
    }
    assert_eq!(decode_code::<RouteKind>("bus"), Err(DecodeReason::NotAnInteger));
    assert_eq!(decode_code::<RouteKind>(""), Err(DecodeReason::NotAnInteger));
    assert_eq!(decode_code::<RouteKind>("-3"), Err(DecodeReason::NotAnInteger));
}

#[test]
fn continuous_stopping_codes() {
    assert_eq!(decode_code::<ContinuousStopping>("0"), Ok(ContinuousStopping::Yes));
    assert_eq!(decode_code::<ContinuousStopping>("1"), Ok(ContinuousStopping::No));
    assert_eq!(decode_code::<ContinuousStopping>("2"), Ok(ContinuousStopping::Phone));
    assert_eq!(decode_code::<ContinuousStopping>("3"), Ok(ContinuousStopping::Driver));
    assert_eq!(ContinuousStopping::Phone.code(), 2);
    assert_eq!(
        decode_code::<ContinuousStopping>("4"),
        Err(DecodeReason::UnknownCode { value: 4 })
    );
}

#[test]
fn decimal_integers() {
    assert_eq!(parse_u64("0"), Some(0));
    assert_eq!(parse_u64("0042"), Some(42));
    assert_eq!(parse_u64("18446744073709551615"), Some(u64::MAX));
    assert_eq!(parse_u64("18446744073709551616"), None);
    assert_eq!(parse_u64(""), None);
    assert_eq!(parse_u64("1 2"), None);
}
