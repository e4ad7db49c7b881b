use vstd::prelude::*;

use crate::time::{epoch, DateTime};

verus! {

/// One side's entry of a reversed match: the scores and results before and after.
#[derive(Debug, PartialEq, Eq, Structural, Clone, Copy)]
pub struct Reverse {
    pub id: i64,
    pub round_id: i64,
    pub this_clan_id: i64,
    pub this_old_score: i64,
    pub this_new_score: i64,
    pub other_clan_id: i64,
    pub other_old_score: i64,
    pub other_new_score: i64,
    pub old_result: i64,
    pub new_result: i64,
    pub create_time: DateTime,
}

impl Reverse {
    /// An entry to be stored: no id yet, created at the epoch until the store stamps it.
    pub fn insert_data(
        round_id: i64,
        this_clan_id: i64,
        this_old_score: i64,
        this_new_score: i64,
        other_clan_id: i64,
        other_old_score: i64,
        other_new_score: i64,
        old_result: i64,
        new_result: i64,
    ) -> (r: Reverse)
        ensures
            r == (Reverse {
                id: 0,
                round_id,
                this_clan_id,
                this_old_score,
                this_new_score,
                other_clan_id,
                other_old_score,
                other_new_score,
                old_result,
                new_result,
                create_time: epoch(),
            }),
    {
        Reverse {
            id: 0,
            round_id,
            this_clan_id,
            this_old_score,
            this_new_score,
            other_clan_id,
            other_old_score,
            other_new_score,
            old_result,
            new_result,
            create_time: DateTime::epoch(),
        }
    }
}

} // verus!
