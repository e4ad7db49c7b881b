use vstd::prelude::*;

use crate::time::{epoch, DateTime};

verus! {

/// One side's entry of a settled match.
#[derive(Debug, PartialEq, Eq, Structural, Clone, Copy)]
pub struct Record {
    pub id: i64,
    pub round_id: i64,
    pub this_clan_id: i64,
    pub other_clan_id: i64,
    pub old_score: i64,
    pub new_score: i64,
    pub result: i64,
    pub create_time: DateTime,
}

/// The entry that stands for one that could not be stored: all numbers 0, created at the epoch.
pub open spec fn blank_record() -> Record {
    Record {
        id: 0,
        round_id: 0,
        this_clan_id: 0,
        other_clan_id: 0,
        old_score: 0,
        new_score: 0,
        result: 0,
        create_time: epoch(),
    }
}

impl Record {
    /// The entry that was stored, or the blank entry.
    pub open spec fn spec_or_blank(found: Option<Record>) -> Record {
        match found {
            Some(x) => x,
            None => blank_record(),
        }
    }

    /// An entry to be stored: no id yet, created at the epoch until the store stamps it.
    pub fn insert_data(
        round_id: i64,
        this_clan_id: i64,
        other_clan_id: i64,
        old_score: i64,
        new_score: i64,
        result: i64,
    ) -> (r: Record)
        ensures
            r == (Record {
                id: 0,
                round_id,
                this_clan_id,
                other_clan_id,
                old_score,
                new_score,
                result,
                create_time: epoch(),
            }),
    {
        Record {
            id: 0,
            round_id,
            this_clan_id,
            other_clan_id,
            old_score,
            new_score,
            result,
            create_time: DateTime::epoch(),
        }
    }

    /// The entry that was stored, or the blank entry.
    pub fn or_blank(found: Option<Record>) -> (r: Record)
        ensures
            r == Record::spec_or_blank(found),
    {
        match found {
            Some(x) => x,
            None => Record::insert_data(0, 0, 0, 0, 0, 0),
        }
    }
}

impl Default for Record {
    fn default() -> (r: Record)
        ensures
            r == blank_record(),
    {
        Record::insert_data(0, 0, 0, 0, 0, 0)
    }
}

} // verus!
