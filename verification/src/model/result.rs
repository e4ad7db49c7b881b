use vstd::prelude::*;

use crate::time::DateTime;

verus! {

/// A stored match result, with its numbers kept as text.
pub struct Result {
    pub id: i64,
    pub round_id: String,
    pub this_clan_id: String,
    pub other_clan_id: String,
    pub result: String,
    pub create_time: DateTime,
}

/// A match result as it is reported.
pub struct ResultApi {
    pub time_round: i64,
    pub this_clan: ClanInfo,
    pub other_clan: ClanInfo,
    pub result: String,
    pub create_time: String,
}

/// One side of a reported match result.
pub struct ClanInfo {
    pub tag: String,
    pub name: String,
    pub score: i64,
    pub league: ClanInfoLeague,
}

/// The league of one side of a reported match result.
pub struct ClanInfoLeague {
    id: i64,
    name: String,
}

} // verus!
