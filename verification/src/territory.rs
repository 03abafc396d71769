//! What the territory routes decide: which day to load, and how a load is
//! answered. Loading is left to the caller.

use crate::player::{loaded_or, rows_or};
use vstd::prelude::*;

verus! {

/// A day of a season.
#[derive(Debug, Clone, Copy, PartialEq, Eq, Structural)]
pub struct Latest {
    pub season: i32,
    pub day: i32,
}

/// The day that a request asks for: the season and the day that it names,
/// and those of the latest day where it names none.
pub open spec fn asked_day(season: Option<i32>, day: Option<i32>, latest: Latest) -> Latest {
    Latest {
        season: match season {
            Some(s) => s,
            None => latest.season,
        },
        day: match day {
            Some(d) => d,
            None => latest.day,
        },
    }
}

/// The territories route, before the load: the day whose territories to
/// load, or a bad request where the latest day is not known.
pub fn territories(season: Option<i32>, day: Option<i32>, latest: Option<Latest>) -> (r: Result<
    Latest,
    u16,
>)
    ensures
        latest matches Some(l) ==> r == Ok::<Latest, u16>(asked_day(season, day, l)),
        latest is None ==> r == Err::<Latest, u16>(400),
{
    match latest {
        None => Err(400),
        Some(current) => Ok(
            Latest {
                season: match season {
                    Some(s) => s,
                    None => current.season,
                },
                day: match day {
                    Some(d) => d,
                    None => current.day,
                },
            },
        ),
    }
}

/// The territories route, after the load: the territories that were loaded,
/// or a bad request where there is none.
pub fn territories_loaded<T>(rows: Vec<T>) -> (r: Result<Vec<T>, u16>)
    ensures
        rows@.len() >= 1 ==> r == Ok::<Vec<T>, u16>(rows),
        rows@.len() == 0 ==> r == Err::<Vec<T>, u16>(400),
{
    rows_or(rows, 400)
}

/// The history of a territory in a season: the entries that were loaded, or
/// a bad request where there is none.
pub fn territoryhistory<T>(rows: Vec<T>) -> (r: Result<Vec<T>, u16>)
    ensures
        rows@.len() >= 1 ==> r == Ok::<Vec<T>, u16>(rows),
        rows@.len() == 0 ==> r == Err::<Vec<T>, u16>(400),
{
    rows_or(rows, 400)
}

/// The turn of a territory on a day: the turn that was loaded, or a bad
/// request where the load failed.
pub fn territory_turn<T>(turn: Option<T>) -> (r: Result<T, u16>)
    ensures
        turn matches Some(value) ==> r == Ok::<T, u16>(value),
        turn is None ==> r == Err::<T, u16>(400),
{
    loaded_or(turn, 400)
}

} // verus!
