use turntable::rotation::parse_rotation;

const RANGE: &str = "Rotation was greater than 360 degrees.";
const NAN: &str = "Rotation was not a valid number.";

#[test]
fn parse_every_value_in_range() {
    for n in -360i32..=360 {
        assert_eq!(parse_rotation(&n.to_string()), Ok(n as i16));
    }
}

#[test]
fn parse_bounds_inclusive() {
    assert_eq!(parse_rotation("360"), Ok(360));
    assert_eq!(parse_rotation("-360"), Ok(-360));
    assert_eq!(parse_rotation("+45"), Ok(45));
    assert_eq!(parse_rotation("0"), Ok(0));
    assert_eq!(parse_rotation("-0"), Ok(0));
    assert_eq!(parse_rotation("007"), Ok(7));
}

#[test]
fn parse_out_of_range() {
    for text in ["361", "-361", "500", "-200000", "40000", "99999999999999999999999"] {
        assert_eq!(parse_rotation(text), Err(RANGE.to_string()), "{}", text);
    }
}

#[test]
fn parse_not_a_number() {
    for text in ["abc", "", "-", "+", "4a", " 45", "45 ", "--4", "1.5", "٣"] {
        assert_eq!(parse_rotation(text), Err(NAN.to_string()), "{:?}", text);
    }
}
