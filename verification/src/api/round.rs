use vstd::prelude::*;

use crate::model::round::{round_row, round_row_for, Round, RoundRow};

verus! {

/// A request to open a round at a time.
pub struct RoundParam {
    pub time: Option<String>,
}

/// The current round: the latest one found, or the blank round.
pub fn now_round(found: Option<Round>) -> (r: Round)
    ensures
        r == Round::spec_or_blank(found),
{
    Round::or_blank(found)
}

/// The round that a request opens, if it gives a time (see `round_row_for`); a request
/// without a time opens none and is answered with the blank round.
pub fn create_round(round_param: &RoundParam) -> (r: Option<RoundRow>)
    ensures
        match round_param.time {
            None => r is None,
            Some(t) => r == Some(round_row_for(t@)),
        },
{
    match &round_param.time {
        Some(t) => Some(round_row(t.as_str())),
        None => None,
    }
}

} // verus!
