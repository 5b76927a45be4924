//! Hemisphere direction letters and their mapping to coordinate signs.

use vstd::prelude::*;

verus! {

/// A hemisphere marker attached to an NMEA coordinate field.
#[derive(Clone, Copy, Debug, PartialEq, Eq, Structural)]
pub enum Direction {
    North,
    South,
    East,
    West,
}

/// The name of a direction, as its debug form prints it.
pub open spec fn spec_direction_name(d: Direction) -> Seq<char> {
    match d {
        Direction::North => seq!['N', 'o', 'r', 't', 'h'],
        Direction::South => seq!['S', 'o', 'u', 't', 'h'],
        Direction::East => seq!['E', 'a', 's', 't'],
        Direction::West => seq!['W', 'e', 's', 't'],
    }
}

/// The direction named by a single uppercase letter, if any.
pub open spec fn spec_parse_direction(s: Seq<char>) -> Option<Direction> {
    if s == seq!['N'] {
        Some(Direction::North)
    } else if s == seq!['S'] {
        Some(Direction::South)
    } else if s == seq!['E'] {
        Some(Direction::East)
    } else if s == seq!['W'] {
        Some(Direction::West)
    } else {
        None
    }
}

/// The message reported when a direction letter is not recognised.
pub open spec fn spec_invalid_direction_message(s: Seq<char>) -> Seq<char> {
    "Invalid direction '"@ + s + "'"@
}

impl Direction {
    /// The name of the direction as text, e.g. `"North"`.
    pub fn name(&self) -> (r: &'static str)
        ensures
            r@ == spec_direction_name(*self),
    {
        proof {
            reveal_strlit("North");
            reveal_strlit("South");
            reveal_strlit("East");
            reveal_strlit("West");
        }
        match self {
            Direction::North => "North",
            Direction::South => "South",
            Direction::East => "East",
            Direction::West => "West",
        }
    }
}

/// The message reported when a direction letter sits on the wrong axis for a
/// latitude.
pub open spec fn spec_invalid_latitude_message(d: Direction) -> Seq<char> {
    "Invalid latitude direction "@ + spec_direction_name(d)
}

/// The message reported when a direction letter sits on the wrong axis for a
/// longitude.
pub open spec fn spec_invalid_longitude_message(d: Direction) -> Seq<char> {
    "Invalid longitude direction "@ + spec_direction_name(d)
}

/// The sign a latitude magnitude takes from its hemisphere: `+1` for north,
/// `-1` for south. An east or west letter is rejected: it sits on the wrong
/// axis, a common NMEA handling mistake.
pub fn lat_multiplier(d: Direction) -> (r: Result<i32, String>)
    ensures
        match r {
            Ok(m) => (d == Direction::North && m == 1) || (d == Direction::South && m == -1),
            Err(e) => (d == Direction::East || d == Direction::West) && e@
                == spec_invalid_latitude_message(d),
        },
{
    match d {
        Direction::North => Ok(1),
        Direction::South => Ok(-1),
        _ => {
            let mut e = String::from_str("Invalid latitude direction ");
            e.append(d.name());
            Err(e)
        },
    }
}

/// The sign a longitude magnitude takes from its hemisphere: `+1` for east,
/// `-1` for west. A north or south letter is rejected: it sits on the wrong
/// axis.
pub fn lon_multiplier(d: Direction) -> (r: Result<i32, String>)
    ensures
        match r {
            Ok(m) => (d == Direction::East && m == 1) || (d == Direction::West && m == -1),
            Err(e) => (d == Direction::North || d == Direction::South) && e@
                == spec_invalid_longitude_message(d),
        },
{
    match d {
        Direction::East => Ok(1),
        Direction::West => Ok(-1),
        _ => {
            let mut e = String::from_str("Invalid longitude direction ");
            e.append(d.name());
            Err(e)
        },
    }
}

/// Parses a hemisphere letter: exactly `"N"`, `"S"`, `"E"` or `"W"`
/// (case-sensitive, single character); anything else is rejected with a
/// message that names the offending text.
pub fn parse_direction(d: &str) -> (r: Result<Direction, String>)
    ensures
        match r {
            Ok(dir) => spec_parse_direction(d@) == Some(dir),
            Err(e) => spec_parse_direction(d@) is None && e@ == spec_invalid_direction_message(d@),
        },
{
    let len = d.unicode_len();
    if len == 1 {
        let c = d.get_char(0);
        if c == 'N' {
            proof {
                assert(d@ =~= seq!['N']);
            }
            return Ok(Direction::North);
        }
        if c == 'S' {
            proof {
                assert(d@ =~= seq!['S']);
            }
            return Ok(Direction::South);
        }
        if c == 'E' {
            proof {
                assert(d@ =~= seq!['E']);
            }
            return Ok(Direction::East);
        }
        if c == 'W' {
            proof {
                assert(d@ =~= seq!['W']);
            }
            return Ok(Direction::West);
        }
    }
    let mut e = String::from_str("Invalid direction '");
    e.append(d);
    e.append("'");
    proof {
        assert(e@ =~= spec_invalid_direction_message(d@));
    }
    Err(e)
}

} // verus!
