use vstd::prelude::*;

verus! {

/// A match result as it is reported, with one score per side.
pub struct Result {
    pub time_round: i64,
    pub this_clan: ClanInfo,
    pub other_clan: ClanInfo,
    pub result: String,
    pub create_time: String,
}

/// One side of a reported match result.
pub struct ClanInfo {
    pub tag: String,
    pub name: String,
    pub score: i64,
    pub league: ClanInfoLeague,
}

/// The league of one side of a reported match result.
pub struct ClanInfoLeague {
    id: i64,
    name: String,
}

/// A match-result request: both clans' tags and names, the server, and the league's key.
pub struct ResultParam {
    pub this_clan_tag: Option<String>,
    pub this_clan_name: Option<String>,
    pub other_clan_tag: Option<String>,
    pub other_clan_name: Option<String>,
    pub is_national: Option<bool>,
    pub api_key: Option<String>,
}

} // verus!
