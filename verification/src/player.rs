//! What the player routes decide: which players to load, and how a load is
//! answered. Loading is left to the caller.

use crate::guard::{names_match, same_name};
use crate::provider::texts;
use vstd::prelude::*;
use vstd::string::*;

verus! {

/// The error of `urlencoding`'s decoder.
#[verifier::external_type_specification]
#[verifier::external_body]
pub struct ExFromUrlEncodingError(urlencoding::FromUrlEncodingError);

/// The text that a percent-encoded text stands for, if its bytes are UTF-8.
pub uninterp spec fn url_decoded(text: Seq<char>) -> Option<Seq<char>>;

/// Decodes a percent-encoded text with `urlencoding::decode`, which replaces
/// each `%xx` by its byte and fails where the bytes are no UTF-8. The
/// outcome depends on the text alone.
#[verifier::external_body]
fn url_decode(text: &str) -> (r: Result<String, urlencoding::FromUrlEncodingError>)
    ensures
        r matches Ok(t) ==> url_decoded(text@) == Some(t@),
        r is Err ==> url_decoded(text@) is None,
{
    urlencoding::decode(text)
}

/// Which roster to load.
#[derive(Debug, Clone, PartialEq, Eq)]
pub enum RosterQuery {
    /// The players of all teams.
    All,
    /// The players of one team.
    Team(String),
}

/// What a `RosterQuery` holds.
pub enum RosterView {
    All,
    Team(Seq<char>),
}

impl View for RosterQuery {
    type V = RosterView;

    open spec fn view(&self) -> RosterView {
        match *self {
            RosterQuery::All => RosterView::All,
            RosterQuery::Team(name) => RosterView::Team(name@),
        }
    }
}

/// The roster that a decoded team name asks for: all teams where no team is
/// named, the team where its name decodes, and not found where it does not.
pub open spec fn roster_for(team: Option<Option<Seq<char>>>) -> Result<RosterView, u16> {
    match team {
        None => Ok(RosterView::All),
        Some(Some(name)) => Ok(RosterView::Team(name)),
        Some(None) => Err(404),
    }
}

/// The view of the answer of `players`.
pub open spec fn roster_view(r: Result<RosterQuery, u16>) -> Result<RosterView, u16> {
    match r {
        Ok(q) => Ok(q@),
        Err(s) => Err(s),
    }
}

/// The pieces of a text between its commas. There is one piece more than
/// there are commas; a piece may be empty.
pub open spec fn pieces(text: Seq<char>) -> Seq<Seq<char>>
    decreases text.len(),
{
    if text.len() == 0 {
        seq![Seq::empty()]
    } else if text.last() == ',' {
        pieces(text.drop_last()).push(Seq::empty())
    } else {
        let before = pieces(text.drop_last());
        before.drop_last().push(before.last().push(text.last()))
    }
}

/// The roster for a team name that was decoded, or was not given.
pub fn roster(team: Option<Option<String>>) -> (r: Result<RosterQuery, u16>)
    ensures
        roster_view(r) == roster_for(
            match team {
                None => None,
                Some(t) => Some(crate::claims::optional_view(t)),
            },
        ),
{
    match team {
        None => Ok(RosterQuery::All),
        Some(Some(name)) => Ok(RosterQuery::Team(name)),
        Some(None) => Err(404),
    }
}

/// The team roster route: which players to load for the `team` parameter,
/// which is percent-encoded where it is given.
pub fn players(team: Option<String>) -> (r: Result<RosterQuery, u16>)
    ensures
        roster_view(r) == roster_for(
            match team {
                None => None,
                Some(t) => Some(url_decoded(t@)),
            },
        ),
{
    match team {
        None => roster(None),
        Some(encoded) => match url_decode(encoded.as_str()) {
            Ok(name) => roster(Some(Some(name))),
            Err(_) => roster(Some(None)),
        },
    }
}

/// The team name for a name that was decoded, or a conflict where it was
/// not.
pub fn mercs_team(team: Option<String>) -> (r: Result<String, u16>)
    ensures
        team matches Some(name) ==> r == Ok::<String, u16>(name),
        team is None ==> r == Err::<String, u16>(409),
{
    match team {
        Some(name) => Ok(name),
        None => Err(409),
    }
}

/// The mercenary roster route: the team whose mercenaries to load, for the
/// percent-encoded `team` parameter.
pub fn mercs(team: String) -> (r: Result<String, u16>)
    ensures
        r is Ok <==> url_decoded(team@) is Some,
        r matches Ok(name) ==> Some(name@) == url_decoded(team@),
        r matches Err(status) ==> status == 409,
{
    match url_decode(team.as_str()) {
        Ok(name) => mercs_team(Some(name)),
        Err(_) => mercs_team(None),
    }
}

/// What was loaded, or the status where nothing was.
pub fn loaded_or<T>(loaded: Option<T>, status: u16) -> (r: Result<T, u16>)
    ensures
        loaded matches Some(value) ==> r == Ok::<T, u16>(value),
        loaded is None ==> r == Err::<T, u16>(status),
{
    match loaded {
        Some(value) => Ok(value),
        None => Err(status),
    }
}

/// The rows that were loaded, or the status where there is none.
pub fn rows_or<T>(rows: Vec<T>, status: u16) -> (r: Result<Vec<T>, u16>)
    ensures
        rows@.len() >= 1 ==> r == Ok::<Vec<T>, u16>(rows),
        rows@.len() == 0 ==> r == Err::<Vec<T>, u16>(status),
{
    if rows.len() >= 1 {
        Ok(rows)
    } else {
        Err(status)
    }
}

/// The route of the user's own player: the player that was loaded under the
/// claims' user name is shown only where its name is that user name,
/// whatever the case; anything else is not found.
pub fn me(claims_username: &str, player_name: Option<&str>) -> (r: Result<(), u16>)
    ensures
        r is Ok <==> (player_name matches Some(name) && same_name(name@, claims_username@)),
        r matches Err(status) ==> status == 404,
{
    match player_name {
        None => Err(404),
        Some(name) => {
            if names_match(name, claims_username) {
                Ok(())
            } else {
                Err(404)
            }
        },
    }
}

/// The single player route: the player that was loaded, or not found.
pub fn player<T>(loaded: Option<T>) -> (r: Result<T, u16>)
    ensures
        loaded matches Some(value) ==> r == Ok::<T, u16>(value),
        loaded is None ==> r == Err::<T, u16>(404),
{
    loaded_or(loaded, 404)
}

/// The pieces of a text between its commas.
pub fn split_at_commas(text: &str) -> (list: Vec<String>)
    ensures
        texts(list@) == pieces(text@),
{
    let n = text.unicode_len();
    let mut list: Vec<String> = Vec::new();
    let mut current = String::new();
    let mut i: usize = 0;
    assert(text@.take(0) =~= Seq::<char>::empty());
    assert(texts(list@).push(current@) =~= pieces(text@.take(0)));
    while i < n
        invariant
            n == text@.len(),
            i <= n,
            texts(list@).push(current@) == pieces(text@.take(i as int)),
        decreases n - i,
    {
        let c = text.get_char(i);
        proof {
            let done = text@.take(i as int);
            let more = text@.take(i + 1);
            assert(more.drop_last() =~= done);
            assert(more.last() == c);
            assert(texts(list@).push(current@).last() == current@);
            assert(texts(list@).push(current@).drop_last() =~= texts(list@));
        }
        if c == ',' {
            let ghost before = texts(list@);
            list.push(current);
            current = String::new();
            assert(texts(list@) =~= before.push(list@.last()@));
        } else {
            current.push(c);
        }
        i = i + 1;
    }
    assert(text@.take(n as int) =~= text@);
    let ghost before = texts(list@);
    list.push(current);
    assert(texts(list@) =~= before.push(list@.last()@));
    list
}

/// The batch route: the player names to load, which the `players` parameter
/// lists between commas; without the parameter nothing is found.
pub fn player_multifetch(players: Option<String>) -> (r: Result<Vec<String>, u16>)
    ensures
        players is Some <==> r is Ok,
        r matches Ok(list) ==> texts(list@) == pieces(players.unwrap()@),
        r matches Err(status) ==> status == 404,
{
    match players {
        Some(text) => Ok(split_at_commas(text.as_str())),
        None => Err(404),
    }
}

} // verus!
