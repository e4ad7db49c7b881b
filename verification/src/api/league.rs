use vstd::prelude::*;

use crate::api::{Answer, Flow, Query};
use crate::model::league::League;

verus! {

/// The stages of looking up the leagues of both clans of a match.
pub enum LeaguesFlow {
    /// Looking up the reporting clan's league.
    AwaitThis { other_id: i64 },
    /// Looking up the opposing clan's league.
    AwaitOther { this_league: League },
}

/// Starts looking up the leagues with these ids: the first is asked for first.
pub fn get_leagues(this_league_id: i64, other_league_id: i64) -> (r: Flow<LeaguesFlow, (League, League)>)
    ensures
        r == Flow::<LeaguesFlow, (League, League)>::Ask(
            LeaguesFlow::AwaitThis { other_id: other_league_id },
            Query::LeagueById { id: this_league_id },
        ),
{
    Flow::Ask(LeaguesFlow::AwaitThis { other_id: other_league_id }, Query::LeagueById { id: this_league_id })
}

impl LeaguesFlow {
    /// Each stage waits for a league.
    pub open spec fn accepts(self, a: Answer) -> bool {
        a is League
    }

    /// One step: a league that is not found is replaced by the blank league; after the
    /// first the second is asked for, after the second both are the result, in order.
    pub open spec fn steps_to(self, a: Answer, r: Flow<LeaguesFlow, (League, League)>) -> bool {
        match a {
            Answer::League(found) => match self {
                LeaguesFlow::AwaitThis { other_id } => r matches Flow::Ask(
                    LeaguesFlow::AwaitOther { this_league },
                    Query::LeagueById { id },
                ) && id == other_id && (match found {
                    Some(l) => this_league == l,
                    None => this_league.is_blank(),
                }),
                LeaguesFlow::AwaitOther { this_league } => r matches Flow::Done((t, o)) && t
                    == this_league && (match found {
                    Some(l) => o == l,
                    None => o.is_blank(),
                }),
            },
            _ => false,
        }
    }

    /// Whether the stage waits for this kind of answer.
    pub fn accepts_answer(&self, a: &Answer) -> (b: bool)
        ensures
            b == self.accepts(*a),
    {
        matches!(a, Answer::League(_))
    }

    /// Takes the league that was looked up and goes on (see `steps_to`).
    pub fn step(self, a: Answer) -> (r: Flow<LeaguesFlow, (League, League)>)
        requires
            self.accepts(a),
        ensures
            self.steps_to(a, r),
    {
        let found = match a {
            Answer::League(found) => found,
            _ => {
                proof {
                    assert(false);
                }
                None
            },
        };
        match self {
            LeaguesFlow::AwaitThis { other_id } => Flow::Ask(
                LeaguesFlow::AwaitOther { this_league: League::or_blank(found) },
                Query::LeagueById { id: other_id },
            ),
            LeaguesFlow::AwaitOther { this_league } => Flow::Done(
                (this_league, League::or_blank(found)),
            ),
        }
    }
}

} // verus!
