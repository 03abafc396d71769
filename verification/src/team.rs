//! What the team routes decide: how a load is answered. Loading is left to
//! the caller.

use crate::player::{loaded_or, rows_or};
use vstd::prelude::*;

verus! {

/// The list of teams: the teams that were loaded, or not found where there
/// is none.
pub fn teams<T>(rows: Vec<T>) -> (r: Result<Vec<T>, u16>)
    ensures
        rows@.len() >= 1 ==> r == Ok::<Vec<T>, u16>(rows),
        rows@.len() == 0 ==> r == Err::<Vec<T>, u16>(404),
{
    rows_or(rows, 404)
}

/// The moves of a team's players on a day: the moves that were loaded, or
/// not found where the load failed.
pub fn teamplayersbymoves<T>(moves: Option<Vec<T>>) -> (r: Result<Vec<T>, u16>)
    ensures
        moves matches Some(rows) ==> r == Ok::<Vec<T>, u16>(rows),
        moves is None ==> r == Err::<Vec<T>, u16>(404),
{
    loaded_or(moves, 404)
}

/// The territories that a team visited in a season: those that were loaded,
/// or not found where the load failed.
pub fn team_territories_visited_by_season<T>(visited: Option<Vec<T>>) -> (r: Result<Vec<T>, u16>)
    ensures
        visited matches Some(rows) ==> r == Ok::<Vec<T>, u16>(rows),
        visited is None ==> r == Err::<Vec<T>, u16>(404),
{
    loaded_or(visited, 404)
}

} // verus!
