use vstd::prelude::*;

use crate::time::{compact_date, epoch, format_time, read_time, compact_date_number, DateTime};

verus! {

/// A round of matches, numbered by the date on which it runs.
#[derive(Debug, PartialEq, Eq, Structural, Clone, Copy)]
pub struct Round {
    pub id: i64,
    pub time: DateTime,
    pub create_time: DateTime,
    pub update_time: DateTime,
}

/// The round that stands for "no round": id 0, all times at the epoch.
pub open spec fn blank_round() -> Round {
    Round { id: 0, time: epoch(), create_time: epoch(), update_time: epoch() }
}

impl Round {
    /// The round that was found, or the blank round.
    pub open spec fn spec_or_blank(found: Option<Round>) -> Round {
        match found {
            Some(x) => x,
            None => blank_round(),
        }
    }

    /// The round that stands for "no round" (see `blank_round`).
    pub fn blank() -> (r: Round)
        ensures
            r == blank_round(),
    {
        Round {
            id: 0,
            time: DateTime::epoch(),
            create_time: DateTime::epoch(),
            update_time: DateTime::epoch(),
        }
    }

    /// The round that was found, or the blank round.
    pub fn or_blank(found: Option<Round>) -> (r: Round)
        ensures
            r == Round::spec_or_blank(found),
    {
        match found {
            Some(x) => x,
            None => Round::blank(),
        }
    }
}

impl Default for Round {
    fn default() -> (r: Round)
        ensures
            r == blank_round(),
    {
        Round::blank()
    }
}

/// The number and the time of a round to be stored.
#[derive(Debug, PartialEq, Eq, Structural, Clone, Copy)]
pub struct RoundRow {
    pub id: i64,
    pub time: DateTime,
}

/// The round that a time text opens: its time is the text read as by `format_time`, and
/// its number is the date of that time as `%Y%m%d` writes it.
pub open spec fn round_row_for(text: Seq<char>) -> RoundRow {
    RoundRow { id: compact_date(read_time(text)) as i64, time: read_time(text) }
}

/// The number and time under which a round opened at `time_str` is stored.
pub fn round_row(time_str: &str) -> (r: RoundRow)
    ensures
        r == round_row_for(time_str@),
        r.id == compact_date(r.time),
{
    let time = format_time(time_str);
    let id = compact_date_number(&time);
    RoundRow { id, time }
}

} // verus!
