use geonav::Direction;
use geonav::direction::lat_multiplier;
use geonav::direction::lon_multiplier;
use geonav::parse_direction;

#[test]
fn parse_direction_accepts_the_four_letters() {
    assert!(matches!(parse_direction("N"), Ok(Direction::North)));
    assert!(matches!(parse_direction("S"), Ok(Direction::South)));
    assert!(matches!(parse_direction("E"), Ok(Direction::East)));
    assert!(matches!(parse_direction("W"), Ok(Direction::West)));
}

#[test]
fn parse_direction_rejects_other_text() {
    assert_eq!(
        parse_direction("Q").unwrap_err(),
        "Invalid direction 'Q'".to_string()
    );
    assert_eq!(
        parse_direction("n").unwrap_err(),
        "Invalid direction 'n'".to_string()
    );
    assert_eq!(
        parse_direction("NE").unwrap_err(),
        "Invalid direction 'NE'".to_string()
    );
    assert_eq!(
        parse_direction("").unwrap_err(),
        "Invalid direction ''".to_string()
    );
    assert_eq!(
        parse_direction("North").unwrap_err(),
        "Invalid direction 'North'".to_string()
    );
}

#[test]
fn direction_names() {
    assert_eq!(Direction::North.name(), "North");
    assert_eq!(Direction::South.name(), "South");
    assert_eq!(Direction::East.name(), "East");
    assert_eq!(Direction::West.name(), "West");
}

#[test]
fn latitude_multiplier_signs() {
    assert_eq!(lat_multiplier(Direction::North).unwrap(), 1);
    assert_eq!(lat_multiplier(Direction::South).unwrap(), -1);
}

#[test]
fn latitude_multiplier_rejects_wrong_axis() {
    assert_eq!(
        lat_multiplier(Direction::East).unwrap_err(),
        "Invalid latitude direction East".to_string()
    );
    assert_eq!(
        lat_multiplier(Direction::West).unwrap_err(),
        "Invalid latitude direction West".to_string()
    );
}

#[test]
fn longitude_multiplier_signs() {
    assert_eq!(lon_multiplier(Direction::East).unwrap(), 1);
    assert_eq!(lon_multiplier(Direction::West).unwrap(), -1);
}

#[test]
fn longitude_multiplier_rejects_wrong_axis() {
    assert_eq!(
        lon_multiplier(Direction::North).unwrap_err(),
        "Invalid longitude direction North".to_string()
    );
    assert_eq!(
        lon_multiplier(Direction::South).unwrap_err(),
        "Invalid longitude direction South".to_string()
    );
}
