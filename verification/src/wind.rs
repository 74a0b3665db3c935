//! Bucketing of a wind bearing into one of eight compass directions.
use vstd::prelude::*;
use vstd::string::*;

verus! {

/// The eight-sector table: degrees from 0 to 360 inclusive get a direction
/// name; anything outside that range gets none.
pub open spec fn wind_direction_spec(deg: int) -> Option<Seq<char>> {
    if 0 <= deg && deg <= 360 {
        Some(
            if deg <= 25 || deg >= 336 {
                "North"@
            } else if deg <= 70 {
                "Northeast"@
            } else if deg <= 110 {
                "East"@
            } else if deg <= 155 {
                "Southeast"@
            } else if deg <= 200 {
                "South"@
            } else if deg <= 250 {
                "Southwest"@
            } else if deg <= 290 {
                "West"@
            } else {
                "Northwest"@
            },
        )
    } else {
        None
    }
}

/// Names the compass direction of a bearing, per the fixed eight-sector table.
pub fn get_wind_direction(deg: i32) -> (r: Option<String>)
    ensures
        match r {
            Some(s) => wind_direction_spec(deg as int) == Some(s@),
            None => wind_direction_spec(deg as int) is None,
        },
{
    if 0 <= deg && deg <= 360 {
        let name: &str = if deg <= 25 || deg >= 336 {
            "North"
        } else if deg <= 70 {
            "Northeast"
        } else if deg <= 110 {
            "East"
        } else if deg <= 155 {
            "Southeast"
        } else if deg <= 200 {
            "South"
        } else if deg <= 250 {
            "Southwest"
        } else if deg <= 290 {
            "West"
        } else {
            "Northwest"
        };
        Some(name.to_owned())
    } else {
        None
    }
}

} // verus!
