use geonav::DMS;
use geonav::digits::signed_decimal_string;

#[test]
fn decimal_rendering_of_integers() {
    assert_eq!(signed_decimal_string(0), "0");
    assert_eq!(signed_decimal_string(7), "7");
    assert_eq!(signed_decimal_string(42), "42");
    assert_eq!(signed_decimal_string(-104), "-104");
    assert_eq!(signed_decimal_string(2147483647), "2147483647");
    assert_eq!(signed_decimal_string(-2147483648), "-2147483648");
}

#[test]
fn dms_display_form() {
    let dia_lat = DMS { d: 39, m: 51, s: 42 };
    assert_eq!(dia_lat.display(), "39\u{b0} 51' 42\"");
    let dia_lon = DMS { d: -104, m: 40, s: 22 };
    assert_eq!(dia_lon.display(), "-104\u{b0} 40' 22\"");
    let zero = DMS { d: 0, m: 0, s: 0 };
    assert_eq!(zero.display(), "0\u{b0} 0' 0\"");
}

#[test]
fn total_arcseconds_exact_values() {
    assert_eq!(DMS { d: 39, m: 51, s: 42 }.total_arcseconds(), 143502);
    assert_eq!(DMS { d: -104, m: 40, s: 22 }.total_arcseconds(), -376822);
    assert_eq!(DMS { d: 0, m: 59, s: 59 }.total_arcseconds(), 3599);
    assert_eq!(DMS { d: -1, m: 0, s: 0 }.total_arcseconds(), -3600);
}

#[test]
fn total_arcseconds_matches_decimal_degrees() {
    // 39° 51' 42" is 39.861666... degrees: the arcsecond count divided by
    // 3600 agrees with the decimal form to well below an arcsecond.
    let t = DMS { d: 39, m: 51, s: 42 }.total_arcseconds();
    assert!((t as f64 / 3600.0 - 39.861666666666665).abs() < 1e-12);
    let u = DMS { d: -104, m: 40, s: 22 }.total_arcseconds();
    assert!((u as f64 / 3600.0 - -104.67277777777778).abs() < 1e-12);
}

#[test]
fn from_total_arcseconds_splits() {
    let a = DMS::from_total_arcseconds(143502);
    assert_eq!((a.d, a.m, a.s), (39, 51, 42));
    let b = DMS::from_total_arcseconds(-376822);
    assert_eq!((b.d, b.m, b.s), (-104, 40, 22));
    let c = DMS::from_total_arcseconds(0);
    assert_eq!((c.d, c.m, c.s), (0, 0, 0));
}

#[test]
fn from_total_arcseconds_loses_sub_degree_sign() {
    // A negative value smaller than one degree has no home for its sign:
    // the degrees field is zero and the magnitude comes back.
    let v = DMS::from_total_arcseconds(-3599);
    assert_eq!((v.d, v.m, v.s), (0, 59, 59));
}

#[test]
fn dms_round_trip_on_integers() {
    for d in -180..=180 {
        for (m, s) in [(0, 0), (0, 59), (59, 0), (59, 59), (51, 42), (30, 15)] {
            let dms = DMS { d, m, s };
            let back = DMS::from_total_arcseconds(dms.total_arcseconds());
            assert_eq!((back.d, back.m, back.s), (d, m, s));
        }
    }
}
