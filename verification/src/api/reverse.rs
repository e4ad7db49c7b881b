use vstd::prelude::*;

use crate::api::record::{match_result, settlement, settles};
use crate::api::{Answer, Failure, Flow, Query, ResMessage};
use crate::model::record::Record;
use crate::model::reverse::Reverse;
use crate::model::user::User;
use crate::time::epoch;

verus! {

/// A reversed match as it is reported.
#[derive(Debug, PartialEq, Eq, Structural, Clone, Copy)]
pub struct ReverseApi {
    pub round_id: i64,
    pub this_clan: ClanInfo,
    pub other_clan: ClanInfo,
    pub is_global: bool,
}

/// One side of a reversed match: the entry's id and the scores before and after.
#[derive(Debug, PartialEq, Eq, Structural, Clone, Copy)]
pub struct ClanInfo {
    pub id: i64,
    pub old_score: i64,
    pub new_score: i64,
}

/// A reversal request: the round, either clan's tag, the server, and the league's key.
pub struct ReverseParam {
    pub round_id: Option<i64>,
    pub this_tag: Option<String>,
    pub other_tag: Option<String>,
    pub is_global: Option<bool>,
    pub api_key: Option<String>,
}

/// The scores can be reversed without leaving the range of `i64`: the result is
/// doubled, taken from the reporting side and given to the other.
pub open spec fn reverses(this_score: i64, other_score: i64, result: i64) -> bool {
    &&& -0x4000_0000_0000_0000 <= result < 0x4000_0000_0000_0000
    &&& i64::MIN <= this_score - result * 2 <= i64::MAX
    &&& i64::MIN <= other_score + result * 2 <= i64::MAX
}

/// The id of a clan that was looked up: 0 (the blank clan's) where it was not found.
pub open spec fn found_id(found: Option<User>) -> i64 {
    match found {
        Some(u) => u.id,
        None => 0,
    }
}

/// The score of a clan that was looked up: 0 (the blank clan's) where it was not found.
pub open spec fn found_score(found: Option<User>) -> i64 {
    match found {
        Some(u) => u.score,
        None => 0,
    }
}

/// The scores of a reversal requested with one tag can be computed within `i64`: `known`
/// is the clan of that tag, `entry` its entry in the round, and the opponent (the clan
/// the entry names) has `opponent_score`.
pub open spec fn one_tag_reverses(known_is_this: bool, known: User, entry: Record, opponent_score: i64) -> bool {
    if known_is_this {
        reverses(known.score, opponent_score, entry.result)
    } else {
        entry.result > i64::MIN && reverses(opponent_score, known.score, (-entry.result) as i64)
    }
}

/// The entries of a reversal requested with one tag, in round `round_id`: the clan of
/// that tag (`known`, the reporting side where the reporting tag was given, else the
/// opposing side) and the opponent that its entry names, taken by id and score; the
/// reporting side's result is the entry's result, or its opposite where the entry is
/// the opposing side's.
pub open spec fn one_tag_reversal(
    round_id: i64,
    known_is_this: bool,
    known: User,
    entry: Record,
    opponent_id: i64,
    opponent_score: i64,
) -> (Reverse, Reverse) {
    if known_is_this {
        reversal_of(round_id, known.id, known.score, opponent_id, opponent_score, entry.result)
    } else {
        reversal_of(round_id, opponent_id, opponent_score, known.id, known.score, (-entry.result) as i64)
    }
}

/// Both entries of a reversal of a match whose recorded result for `this` is `result`,
/// reporting side first: twice the result is taken from `this` and given to `other`,
/// and the result changes sign.
pub open spec fn reversal(round_id: i64, this: User, other: User, result: i64) -> (Reverse, Reverse) {
    reversal_of(round_id, this.id, this.score, other.id, other.score, result)
}

/// `reversal`, for clans given by id and score.
pub open spec fn reversal_of(
    round_id: i64,
    this_id: i64,
    this_score: i64,
    other_id: i64,
    other_score: i64,
    result: i64,
) -> (Reverse, Reverse) {
    let this_new = (this_score - result * 2) as i64;
    let other_new = (other_score + result * 2) as i64;
    (
        Reverse {
            id: 0,
            round_id,
            this_clan_id: this_id,
            this_old_score: this_score,
            this_new_score: this_new,
            other_clan_id: other_id,
            other_old_score: other_score,
            other_new_score: other_new,
            old_result: result,
            new_result: (-result) as i64,
            create_time: epoch(),
        },
        Reverse {
            id: 0,
            round_id,
            this_clan_id: other_id,
            this_old_score: other_score,
            this_new_score: other_new,
            other_clan_id: this_id,
            other_old_score: this_score,
            other_new_score: this_new,
            old_result: (-result) as i64,
            new_result: result,
            create_time: epoch(),
        },
    )
}

/// The entries that reverse a match between `this` and `other` in a round, whose
/// recorded result for `this` is `result` (see `reversal`).
pub fn reverse_entries(round_id: i64, this: &User, other: &User, result: i64) -> (r: (Reverse, Reverse))
    requires
        reverses(this.score, other.score, result),
    ensures
        r == reversal(round_id, *this, *other, result),
{
    let doubled = result * 2;
    let this_new_score = this.score - doubled;
    let other_new_score = other.score + doubled;
    let this_insert_data = Reverse::insert_data(
        round_id,
        this.id,
        this.score,
        this_new_score,
        other.id,
        other.score,
        other_new_score,
        result,
        -result,
    );
    let other_insert_data = Reverse::insert_data(
        round_id,
        other.id,
        other.score,
        other_new_score,
        this.id,
        this.score,
        this_new_score,
        -result,
        result,
    );
    (this_insert_data, other_insert_data)
}

/// A reversal moves no points in or out, and both entries tell the same story from
/// either side.
pub proof fn reversal_conserves_points(round_id: i64, this: User, other: User, result: i64)
    requires
        reverses(this.score, other.score, result),
    ensures
        ({
            let (a, b) = reversal(round_id, this, other, result);
            &&& a.this_new_score + a.other_new_score == a.this_old_score + a.other_old_score
            &&& b.this_new_score == a.other_new_score && b.other_new_score == a.this_new_score
            &&& b.this_old_score == a.other_old_score && b.other_old_score == a.this_old_score
            &&& a.new_result == -a.old_result && b.old_result == a.new_result
        }),
{
}

/// Reversing a freshly settled match leaves both clans with the scores they would have
/// had if the match had been settled the other way round.
pub proof fn reversal_turns_the_outcome(round_id: i64, reverse_round_id: i64, this: User, other: User)
    requires
        settles(this.score, other.score),
        i64::MIN + 2 <= this.score <= i64::MAX - 2,
        i64::MIN + 2 <= other.score <= i64::MAX - 2,
    ensures
        ({
            let (s, t) = settlement(round_id, this, other);
            let settled_this = User { score: s.new_score, ..this };
            let settled_other = User { score: t.new_score, ..other };
            let (a, b) = reversal(reverse_round_id, settled_this, settled_other, s.result);
            &&& reverses(settled_this.score, settled_other.score, s.result)
            &&& a.this_new_score == this.score - match_result(this.score as int, other.score as int)
            &&& b.this_new_score == other.score + match_result(this.score as int, other.score as int)
        }),
{
}

/// The report of a reversal: the requested round (0 where none was given); the reporting
/// clan's stored entry, its id and its scores; the opposing clan's stored entry, its id
/// and the scores that entry records for its opponent; and the requested server.
pub open spec fn reports_reversal(api: ReverseApi, param: ReverseParam, this_rev: Reverse, other_rev: Reverse) -> bool {
    &&& api.round_id == param.round_id.unwrap_or(0)
    &&& api.this_clan == ClanInfo {
        id: this_rev.id,
        old_score: this_rev.this_old_score,
        new_score: this_rev.this_new_score,
    }
    &&& api.other_clan == ClanInfo {
        id: other_rev.id,
        old_score: other_rev.other_old_score,
        new_score: other_rev.other_new_score,
    }
    &&& api.is_global == param.is_global.unwrap_or(false)
}

/// The report of a reversal (see `reports_reversal`).
pub fn reverse_api(param: &ReverseParam, this_rev: &Reverse, other_rev: &Reverse) -> (r: ReverseApi)
    ensures
        reports_reversal(r, *param, *this_rev, *other_rev),
{
    ReverseApi {
        round_id: match param.round_id {
            Some(id) => id,
            None => 0,
        },
        this_clan: ClanInfo {
            id: this_rev.id,
            old_score: this_rev.this_old_score,
            new_score: this_rev.this_new_score,
        },
        other_clan: ClanInfo {
            id: other_rev.id,
            old_score: other_rev.other_old_score,
            new_score: other_rev.other_new_score,
        },
        is_global: match param.is_global {
            Some(g) => g,
            None => false,
        },
    }
}

/// The result of a reversal request: the report, or why it was refused.
pub type ReverseOutcome = ResMessage<ReverseApi, Failure>;

/// The stages of handling a reversal request.
pub enum ReverseFlow {
    /// Looking up the league that holds the request's key.
    AwaitKeyLeague { param: ReverseParam },
    /// Both tags given: looking up the reporting clan.
    AwaitThisUser { param: ReverseParam, other_tag: String },
    /// Looking up the opposing clan.
    AwaitOtherUser { param: ReverseParam, this: User },
    /// Looking up the reporting clan's entry in the round.
    AwaitRecord { param: ReverseParam, this: User, other: User },
    /// One tag given: looking up its clan, the reporting clan where `known_is_this`.
    AwaitKnownUser { param: ReverseParam, known_is_this: bool },
    /// One tag given: looking up its clan's entry in the round.
    AwaitKnownEntry { param: ReverseParam, known_is_this: bool, known: User },
    /// One tag given: looking up the opponent that the entry names.
    AwaitOpponent { param: ReverseParam, known_is_this: bool, known: User, entry: Record },
    /// Storing the reporting clan's reversal entry.
    AwaitThisSave { param: ReverseParam, entries: (Reverse, Reverse) },
    /// Setting the reporting clan's new score.
    AwaitThisScore { param: ReverseParam, entries: (Reverse, Reverse), saved_this: Reverse },
    /// Storing the opposing clan's reversal entry.
    AwaitOtherSave { param: ReverseParam, entries: (Reverse, Reverse), saved_this: Reverse },
    /// Setting the opposing clan's new score.
    AwaitOtherScore { param: ReverseParam, saved_this: Reverse, saved_other: Reverse },
}

/// The first step of a reversal request: without a key it is refused, else the league
/// that holds the key is looked up.
pub open spec fn reverse_start(param: ReverseParam, r: Flow<ReverseFlow, ReverseOutcome>) -> bool {
    match param.api_key {
        None => r == Flow::<ReverseFlow, ReverseOutcome>::Done(ResMessage::Failed(Failure::MissingApiKey)),
        Some(k) => r == Flow::<ReverseFlow, ReverseOutcome>::Ask(
            ReverseFlow::AwaitKeyLeague { param },
            Query::LeagueByKey { api_key: k },
        ),
    }
}

/// The step after the key is accepted: without either tag the request is refused; with
/// both, the reporting clan is looked up first; with one, that tag's clan is looked up.
pub open spec fn reverse_saving(param: ReverseParam, r: Flow<ReverseFlow, ReverseOutcome>) -> bool {
    let is_global = param.is_global.unwrap_or(false);
    match (param.this_tag, param.other_tag) {
        (None, None) => r == Flow::<ReverseFlow, ReverseOutcome>::Done(
            ResMessage::Failed(Failure::MissingThisTag),
        ),
        (Some(t), Some(o)) => r == Flow::<ReverseFlow, ReverseOutcome>::Ask(
            ReverseFlow::AwaitThisUser { param, other_tag: o },
            Query::UserByTag { tag: t, is_global },
        ),
        (Some(t), None) => r == Flow::<ReverseFlow, ReverseOutcome>::Ask(
            ReverseFlow::AwaitKnownUser { param, known_is_this: true },
            Query::UserByTag { tag: t, is_global },
        ),
        (None, Some(o)) => r == Flow::<ReverseFlow, ReverseOutcome>::Ask(
            ReverseFlow::AwaitKnownUser { param, known_is_this: false },
            Query::UserByTag { tag: o, is_global },
        ),
    }
}

/// Starts handling a reversal request (see `reverse_start`).
pub fn set(reverse_param: ReverseParam) -> (r: Flow<ReverseFlow, ReverseOutcome>)
    ensures
        reverse_start(reverse_param, r),
{
    let api_key = match &reverse_param.api_key {
        Some(k) => k.clone(),
        None => {
            return Flow::Done(ResMessage::Failed(Failure::MissingApiKey));
        },
    };
    Flow::Ask(ReverseFlow::AwaitKeyLeague { param: reverse_param }, Query::LeagueByKey { api_key })
}

/// Goes on with a reversal request whose key was accepted (see `reverse_saving`).
pub fn save_reverse(reverse_param: ReverseParam) -> (r: Flow<ReverseFlow, ReverseOutcome>)
    ensures
        reverse_saving(reverse_param, r),
{
    let is_global = match reverse_param.is_global {
        Some(g) => g,
        None => false,
    };
    match (&reverse_param.this_tag, &reverse_param.other_tag) {
        (Some(t), Some(o)) => {
            let tag = t.clone();
            let other_tag = o.clone();
            Flow::Ask(
                ReverseFlow::AwaitThisUser { param: reverse_param, other_tag },
                Query::UserByTag { tag, is_global },
            )
        },
        (Some(t), None) => {
            let tag = t.clone();
            Flow::Ask(
                ReverseFlow::AwaitKnownUser { param: reverse_param, known_is_this: true },
                Query::UserByTag { tag, is_global },
            )
        },
        (None, Some(o)) => {
            let tag = o.clone();
            Flow::Ask(
                ReverseFlow::AwaitKnownUser { param: reverse_param, known_is_this: false },
                Query::UserByTag { tag, is_global },
            )
        },
        (None, None) => Flow::Done(ResMessage::Failed(Failure::MissingThisTag)),
    }
}

/// Whether the scores can be reversed within `i64` (see `reverses`).
fn reverse_fits(this_score: i64, other_score: i64, result: i64) -> (b: bool)
    ensures
        b == reverses(this_score, other_score, result),
{
    if result < -0x4000_0000_0000_0000 || result >= 0x4000_0000_0000_0000 {
        false
    } else {
        let doubled = result * 2;
        let this_fits = if doubled >= 0 {
            this_score >= i64::MIN + doubled
        } else {
            this_score <= i64::MAX + doubled
        };
        let other_fits = if doubled >= 0 {
            other_score <= i64::MAX - doubled
        } else {
            other_score >= i64::MIN - doubled
        };
        this_fits && other_fits
    }
}

impl ReverseFlow {
    /// The answer kind that each stage waits for; before the reversal is computed, the
    /// scores must allow it (see `reverses`).
    pub open spec fn accepts(self, a: Answer) -> bool {
        match self {
            ReverseFlow::AwaitKeyLeague { .. } => a is League,
            ReverseFlow::AwaitThisUser { .. } => a is User,
            ReverseFlow::AwaitOtherUser { .. } => a is User,
            ReverseFlow::AwaitRecord { this, other, .. } => match a {
                Answer::Record(Some(rec)) => reverses(this.score, other.score, rec.result),
                Answer::Record(None) => true,
                _ => false,
            },
            ReverseFlow::AwaitKnownUser { .. } => a is User,
            ReverseFlow::AwaitKnownEntry { .. } => a is Record,
            ReverseFlow::AwaitOpponent { known_is_this, known, entry, .. } => match a {
                Answer::User(found) => one_tag_reverses(known_is_this, known, entry, found_score(found)),
                _ => false,
            },
            ReverseFlow::AwaitThisSave { .. } => a is Reverse,
            ReverseFlow::AwaitThisScore { .. } => a is User,
            ReverseFlow::AwaitOtherSave { .. } => a is Reverse,
            ReverseFlow::AwaitOtherScore { .. } => a is User,
        }
    }

    /// One step of a reversal request:
    /// - an unknown key refuses the request; else the tags are checked (`reverse_saving`);
    /// - clans that are not found are taken as the blank clan;
    /// - with both tags, the reporting clan's entry in the requested round (0 where none
    ///   is given) is looked up; without one the request is refused; the reversal is
    ///   computed from both clans and that entry's result (see `reversal`);
    /// - with one tag, that clan's entry in the round is looked up (without one the
    ///   request is refused), then the opponent that the entry names, by id; the
    ///   reversal is computed from both (see `one_tag_reversal`);
    /// - the reporting clan's reversal entry is stored,
    ///   and only then its score set; then the opposing clan's entry is stored, and only
    ///   then its score set; an entry that cannot be stored refuses the request there;
    /// - the stored entries are reported (see `reports_reversal`).
    pub open spec fn steps_to(self, a: Answer, r: Flow<ReverseFlow, ReverseOutcome>) -> bool {
        match self {
            ReverseFlow::AwaitKeyLeague { param } => match a {
                Answer::League(None) => r == Flow::<ReverseFlow, ReverseOutcome>::Done(
                    ResMessage::Failed(Failure::UnknownLeague),
                ),
                Answer::League(Some(_)) => reverse_saving(param, r),
                _ => false,
            },
            ReverseFlow::AwaitThisUser { param, other_tag } => match a {
                Answer::User(found) => r matches Flow::Ask(
                    ReverseFlow::AwaitOtherUser { param: p2, this },
                    Query::UserByTag { tag, is_global },
                ) && p2 == param && tag == other_tag && is_global == param.is_global.unwrap_or(
                    false,
                ) && (match found {
                    Some(u) => this == u,
                    None => this.is_blank(),
                }),
                _ => false,
            },
            ReverseFlow::AwaitOtherUser { param, this } => match a {
                Answer::User(found) => r matches Flow::Ask(
                    ReverseFlow::AwaitRecord { param: p2, this: t2, other },
                    Query::RecordByUser { round_id, clan_id },
                ) && p2 == param && t2 == this && round_id == param.round_id.unwrap_or(0)
                    && clan_id == this.id && (match found {
                    Some(u) => other == u,
                    None => other.is_blank(),
                }),
                _ => false,
            },
            ReverseFlow::AwaitRecord { param, this, other } => match a {
                Answer::Record(None) => r == Flow::<ReverseFlow, ReverseOutcome>::Done(
                    ResMessage::Failed(Failure::NoRecordThisRound),
                ),
                Answer::Record(Some(rec)) => {
                    let entries = reversal(param.round_id.unwrap_or(0), this, other, rec.result);
                    r == Flow::<ReverseFlow, ReverseOutcome>::Ask(
                        ReverseFlow::AwaitThisSave { param, entries },
                        Query::InsertReverse { reverse: entries.0 },
                    )
                },
                _ => false,
            },
            ReverseFlow::AwaitKnownUser { param, known_is_this } => match a {
                Answer::User(found) => r matches Flow::Ask(
                    ReverseFlow::AwaitKnownEntry { param: p2, known_is_this: k2, known },
                    Query::RecordByUser { round_id, clan_id },
                ) && p2 == param && k2 == known_is_this && round_id == param.round_id.unwrap_or(0)
                    && clan_id == known.id && (match found {
                    Some(u) => known == u,
                    None => known.is_blank(),
                }),
                _ => false,
            },
            ReverseFlow::AwaitKnownEntry { param, known_is_this, known } => match a {
                Answer::Record(None) => r == Flow::<ReverseFlow, ReverseOutcome>::Done(
                    ResMessage::Failed(Failure::NoRecordThisRound),
                ),
                Answer::Record(Some(entry)) => r == Flow::<ReverseFlow, ReverseOutcome>::Ask(
                    ReverseFlow::AwaitOpponent { param, known_is_this, known, entry },
                    Query::UserById { id: entry.other_clan_id },
                ),
                _ => false,
            },
            ReverseFlow::AwaitOpponent { param, known_is_this, known, entry } => match a {
                Answer::User(found) => {
                    let entries = one_tag_reversal(
                        param.round_id.unwrap_or(0),
                        known_is_this,
                        known,
                        entry,
                        found_id(found),
                        found_score(found),
                    );
                    r == Flow::<ReverseFlow, ReverseOutcome>::Ask(
                        ReverseFlow::AwaitThisSave { param, entries },
                        Query::InsertReverse { reverse: entries.0 },
                    )
                },
                _ => false,
            },
            ReverseFlow::AwaitThisSave { param, entries } => match a {
                Answer::Reverse(None) => r == Flow::<ReverseFlow, ReverseOutcome>::Done(
                    ResMessage::Failed(Failure::ThisReverseNotSaved),
                ),
                Answer::Reverse(Some(saved_this)) => r == Flow::<ReverseFlow, ReverseOutcome>::Ask(
                    ReverseFlow::AwaitThisScore { param, entries, saved_this },
                    Query::UpdateScore {
                        id: entries.0.this_clan_id,
                        score: entries.0.this_new_score,
                    },
                ),
                _ => false,
            },
            ReverseFlow::AwaitThisScore { param, entries, saved_this } => match a {
                Answer::User(_) => r == Flow::<ReverseFlow, ReverseOutcome>::Ask(
                    ReverseFlow::AwaitOtherSave { param, entries, saved_this },
                    Query::InsertReverse { reverse: entries.1 },
                ),
                _ => false,
            },
            ReverseFlow::AwaitOtherSave { param, entries, saved_this } => match a {
                Answer::Reverse(None) => r == Flow::<ReverseFlow, ReverseOutcome>::Done(
                    ResMessage::Failed(Failure::OtherReverseNotSaved),
                ),
                Answer::Reverse(Some(saved_other)) => r == Flow::<
                    ReverseFlow,
                    ReverseOutcome,
                >::Ask(
                    ReverseFlow::AwaitOtherScore { param, saved_this, saved_other },
                    Query::UpdateScore {
                        id: entries.1.this_clan_id,
                        score: entries.1.this_new_score,
                    },
                ),
                _ => false,
            },
            ReverseFlow::AwaitOtherScore { param, saved_this, saved_other } => match a {
                Answer::User(_) => r matches Flow::Done(ResMessage::Success(api)) && reports_reversal(
                    api,
                    param,
                    saved_this,
                    saved_other,
                ),
                _ => false,
            },
        }
    }

    /// Whether the stage waits for this answer (see `accepts`).
    pub fn accepts_answer(&self, a: &Answer) -> (b: bool)
        ensures
            b == self.accepts(*a),
    {
        match self {
            ReverseFlow::AwaitKeyLeague { .. } => matches!(a, Answer::League(_)),
            ReverseFlow::AwaitThisUser { .. } => matches!(a, Answer::User(_)),
            ReverseFlow::AwaitOtherUser { .. } => matches!(a, Answer::User(_)),
            ReverseFlow::AwaitRecord { this, other, .. } => match a {
                Answer::Record(Some(rec)) => reverse_fits(this.score, other.score, rec.result),
                Answer::Record(None) => true,
                _ => false,
            },
            ReverseFlow::AwaitKnownUser { .. } => matches!(a, Answer::User(_)),
            ReverseFlow::AwaitKnownEntry { .. } => matches!(a, Answer::Record(_)),
            ReverseFlow::AwaitOpponent { known_is_this, known, entry, .. } => match a {
                Answer::User(found) => {
                    let opponent_score = match found {
                        Some(u) => u.score,
                        None => 0,
                    };
                    if *known_is_this {
                        reverse_fits(known.score, opponent_score, entry.result)
                    } else {
                        entry.result > i64::MIN && reverse_fits(opponent_score, known.score, -entry.result)
                    }
                },
                _ => false,
            },
            ReverseFlow::AwaitThisSave { .. } => matches!(a, Answer::Reverse(_)),
            ReverseFlow::AwaitThisScore { .. } => matches!(a, Answer::User(_)),
            ReverseFlow::AwaitOtherSave { .. } => matches!(a, Answer::Reverse(_)),
            ReverseFlow::AwaitOtherScore { .. } => matches!(a, Answer::User(_)),
        }
    }

    /// Takes the answer to the stage's query and goes on (see `steps_to`).
    pub fn step(self, a: Answer) -> (r: Flow<ReverseFlow, ReverseOutcome>)
        requires
            self.accepts(a),
        ensures
            self.steps_to(a, r),
    {
        match self {
            ReverseFlow::AwaitKeyLeague { param } => match a {
                Answer::League(Some(_)) => save_reverse(param),
                _ => Flow::Done(ResMessage::Failed(Failure::UnknownLeague)),
            },
            ReverseFlow::AwaitThisUser { param, other_tag } => {
                let found = match a {
                    Answer::User(found) => found,
                    _ => None,
                };
                let is_global = match param.is_global {
                    Some(g) => g,
                    None => false,
                };
                Flow::Ask(
                    ReverseFlow::AwaitOtherUser { param, this: User::or_blank(found) },
                    Query::UserByTag { tag: other_tag, is_global },
                )
            },
            ReverseFlow::AwaitOtherUser { param, this } => {
                let found = match a {
                    Answer::User(found) => found,
                    _ => None,
                };
                let round_id = match param.round_id {
                    Some(id) => id,
                    None => 0,
                };
                let clan_id = this.id;
                Flow::Ask(
                    ReverseFlow::AwaitRecord { param, this, other: User::or_blank(found) },
                    Query::RecordByUser { round_id, clan_id },
                )
            },
            ReverseFlow::AwaitRecord { param, this, other } => match a {
                Answer::Record(Some(rec)) => {
                    let round_id = match param.round_id {
                        Some(id) => id,
                        None => 0,
                    };
                    let entries = reverse_entries(round_id, &this, &other, rec.result);
                    Flow::Ask(
                        ReverseFlow::AwaitThisSave { param, entries },
                        Query::InsertReverse { reverse: entries.0 },
                    )
                },
                _ => Flow::Done(ResMessage::Failed(Failure::NoRecordThisRound)),
            },
            ReverseFlow::AwaitKnownUser { param, known_is_this } => {
                let found = match a {
                    Answer::User(found) => found,
                    _ => None,
                };
                let known = User::or_blank(found);
                let round_id = match param.round_id {
                    Some(id) => id,
                    None => 0,
                };
                let clan_id = known.id;
                Flow::Ask(
                    ReverseFlow::AwaitKnownEntry { param, known_is_this, known },
                    Query::RecordByUser { round_id, clan_id },
                )
            },
            ReverseFlow::AwaitKnownEntry { param, known_is_this, known } => match a {
                Answer::Record(Some(entry)) => {
                    let id = entry.other_clan_id;
                    Flow::Ask(
                        ReverseFlow::AwaitOpponent { param, known_is_this, known, entry },
                        Query::UserById { id },
                    )
                },
                _ => Flow::Done(ResMessage::Failed(Failure::NoRecordThisRound)),
            },
            ReverseFlow::AwaitOpponent { param, known_is_this, known, entry } => {
                let found = match a {
                    Answer::User(found) => found,
                    _ => None,
                };
                let opponent = User::or_blank(found);
                let round_id = match param.round_id {
                    Some(id) => id,
                    None => 0,
                };
                let entries = if known_is_this {
                    reverse_entries(round_id, &known, &opponent, entry.result)
                } else {
                    reverse_entries(round_id, &opponent, &known, -entry.result)
                };
                Flow::Ask(
                    ReverseFlow::AwaitThisSave { param, entries },
                    Query::InsertReverse { reverse: entries.0 },
                )
            },
            ReverseFlow::AwaitThisSave { param, entries } => match a {
                Answer::Reverse(Some(saved_this)) => Flow::Ask(
                    ReverseFlow::AwaitThisScore { param, entries, saved_this },
                    Query::UpdateScore {
                        id: entries.0.this_clan_id,
                        score: entries.0.this_new_score,
                    },
                ),
                _ => Flow::Done(ResMessage::Failed(Failure::ThisReverseNotSaved)),
            },
            ReverseFlow::AwaitThisScore { param, entries, saved_this } => Flow::Ask(
                ReverseFlow::AwaitOtherSave { param, entries, saved_this },
                Query::InsertReverse { reverse: entries.1 },
            ),
            ReverseFlow::AwaitOtherSave { param, entries, saved_this } => match a {
                Answer::Reverse(Some(saved_other)) => Flow::Ask(
                    ReverseFlow::AwaitOtherScore { param, saved_this, saved_other },
                    Query::UpdateScore {
                        id: entries.1.this_clan_id,
                        score: entries.1.this_new_score,
                    },
                ),
                _ => Flow::Done(ResMessage::Failed(Failure::OtherReverseNotSaved)),
            },
            ReverseFlow::AwaitOtherScore { param, saved_this, saved_other } => {
                let api = reverse_api(&param, &saved_this, &saved_other);
                Flow::Done(ResMessage::Success(api))
            },
        }
    }
}

} // verus!

verus! {

/// A reversal sets a clan's score only right after that clan's reversal entry was
/// stored: an entry that cannot be stored leaves the score untouched.
pub proof fn scores_change_only_after_entry_is_stored(s: ReverseFlow, a: Answer, r: Flow<ReverseFlow, ReverseOutcome>)
    requires
        s.steps_to(a, r),
    ensures
        r matches Flow::Ask(_, Query::UpdateScore { .. }) ==> (s is AwaitThisSave
            || s is AwaitOtherSave) && a matches Answer::Reverse(Some(_)),
{
}

/// The entries a reversal computes set the reporting clan's and then the opposing
/// clan's score, and the two new scores add up to the two old ones.
pub proof fn reversal_updates_conserve_points(
    param: ReverseParam,
    this: User,
    other: User,
    rec: Record,
    r: Flow<ReverseFlow, ReverseOutcome>,
)
    requires
        (ReverseFlow::AwaitRecord { param, this, other }).accepts(Answer::Record(Some(rec))),
        (ReverseFlow::AwaitRecord { param, this, other }).steps_to(Answer::Record(Some(rec)), r),
    ensures
        r matches Flow::Ask(ReverseFlow::AwaitThisSave { entries, .. }, _) && entries.0.this_clan_id
            == this.id && entries.1.this_clan_id == other.id && entries.0.this_new_score
            + entries.1.this_new_score == this.score + other.score,
{
}

} // verus!

verus! {

/// A reversal requested with one tag gives the same entries as one requested with both:
/// after a match was settled (see `settlement`), the reporting clan's entry names the
/// opposing clan and the opposing clan's entry names the reporting clan with the
/// opposite result, so starting from either clan reverses the same match the same way.
pub proof fn either_tag_gives_the_same_reversal(round_id: i64, reverse_round_id: i64, this: User, other: User)
    requires
        settles(this.score, other.score),
    ensures
        ({
            let (s, t) = settlement(round_id, this, other);
            let settled_this = User { score: s.new_score, ..this };
            let settled_other = User { score: t.new_score, ..other };
            let both = reversal(reverse_round_id, settled_this, settled_other, s.result);
            &&& s.other_clan_id == other.id && t.other_clan_id == this.id
            &&& one_tag_reversal(reverse_round_id, true, settled_this, s, settled_other.id, settled_other.score) == both
            &&& one_tag_reversal(reverse_round_id, false, settled_other, t, settled_this.id, settled_this.score) == both
        }),
{
}

/// A reversal requested with one tag sets the two clans' scores (its own clan's and the
/// opponent's) to new scores that add up to their old ones.
pub proof fn one_tag_updates_conserve_points(
    param: ReverseParam,
    known_is_this: bool,
    known: User,
    entry: Record,
    found: Option<User>,
    r: Flow<ReverseFlow, ReverseOutcome>,
)
    requires
        (ReverseFlow::AwaitOpponent { param, known_is_this, known, entry }).accepts(Answer::User(found)),
        (ReverseFlow::AwaitOpponent { param, known_is_this, known, entry }).steps_to(Answer::User(found), r),
    ensures
        r matches Flow::Ask(ReverseFlow::AwaitThisSave { entries, .. }, _) && entries.0.this_new_score
            + entries.1.this_new_score == known.score + found_score(found),
{
}

/// Reporting a match and then reversing it leaves both clans with the scores the opposite
/// outcome would have given them: the reversal of the settled match (read back with the
/// settled scores and the reporting clan's entry) sets the reporting clan's score to its
/// score before the match minus its result, and the opposing clan's to its score before
/// plus that result.
pub proof fn report_then_reverse_swaps_outcome(
    round_id: i64,
    this: User,
    other: User,
    param: ReverseParam,
    r: Flow<ReverseFlow, ReverseOutcome>,
)
    requires
        settles(this.score, other.score),
        i64::MIN + 2 <= this.score <= i64::MAX - 2,
        i64::MIN + 2 <= other.score <= i64::MAX - 2,
        ({
            let (s, t) = settlement(round_id, this, other);
            let stage = ReverseFlow::AwaitRecord {
                param,
                this: User { score: s.new_score, ..this },
                other: User { score: t.new_score, ..other },
            };
            stage.steps_to(Answer::Record(Some(s)), r)
        }),
    ensures
        ({
            let res = match_result(this.score as int, other.score as int);
            r matches Flow::Ask(ReverseFlow::AwaitThisSave { entries, .. }, _) && entries.0.this_clan_id
                == this.id && entries.0.this_new_score == this.score - res && entries.1.this_clan_id
                == other.id && entries.1.this_new_score == other.score + res
        }),
        ({
            let (s, t) = settlement(round_id, this, other);
            (ReverseFlow::AwaitRecord {
                param,
                this: User { score: s.new_score, ..this },
                other: User { score: t.new_score, ..other },
            }).accepts(Answer::Record(Some(s)))
        }),
{
}

} // verus!

verus! {

/// The request that a reversal stage works for.
pub open spec fn reversal_request(s: ReverseFlow) -> ReverseParam {
    match s {
        ReverseFlow::AwaitKeyLeague { param } => param,
        ReverseFlow::AwaitThisUser { param, .. } => param,
        ReverseFlow::AwaitOtherUser { param, .. } => param,
        ReverseFlow::AwaitRecord { param, .. } => param,
        ReverseFlow::AwaitKnownUser { param, .. } => param,
        ReverseFlow::AwaitKnownEntry { param, .. } => param,
        ReverseFlow::AwaitOpponent { param, .. } => param,
        ReverseFlow::AwaitThisSave { param, .. } => param,
        ReverseFlow::AwaitThisScore { param, .. } => param,
        ReverseFlow::AwaitOtherSave { param, .. } => param,
        ReverseFlow::AwaitOtherScore { param, .. } => param,
    }
}

/// A clan looked up by tag for a reversal is looked up in the server the request names
/// (the national one, `false`, only where it names none).
pub open spec fn in_requested_server(param: ReverseParam, is_global: bool) -> bool {
    &&& param.is_global matches Some(g) ==> is_global == g
    &&& param.is_global is None ==> !is_global
}

/// A reversal with a tag starts by looking that tag up in the requested server: the
/// reporting tag where it is given, else the opposing one.
pub proof fn reversal_starts_in_the_requested_server(param: ReverseParam, r: Flow<ReverseFlow, ReverseOutcome>)
    requires
        reverse_saving(param, r),
        param.this_tag is Some || param.other_tag is Some,
    ensures
        r matches Flow::Ask(s, Query::UserByTag { tag, is_global }) && in_requested_server(
            param,
            is_global,
        ) && reversal_request(s) == param && (param.this_tag matches Some(t) ==> tag == t) && (
        param.this_tag is None ==> tag == param.other_tag->0),
{
}

/// Every clan that a reversal looks up by tag is looked up in the requested server, and
/// every stage keeps working for the same request.
pub proof fn reversal_lookups_keep_the_server(s: ReverseFlow, a: Answer, r: Flow<ReverseFlow, ReverseOutcome>)
    requires
        s.steps_to(a, r),
    ensures
        r matches Flow::Ask(s2, q) ==> reversal_request(s2) == reversal_request(s) && (q matches Query::UserByTag {
            is_global,
            ..
        } ==> in_requested_server(reversal_request(s), is_global)),
{
}

} // verus!

verus! {

/// A reversal files its first entry under the reporting clan and its second under the
/// opponent, both in the requested round, starting from the clans' current scores:
/// the reporting clan loses twice the recorded result and the opponent gains it.
pub proof fn reversal_files_each_entry_under_its_clan(round_id: i64, this: User, other: User, result: i64)
    requires
        reverses(this.score, other.score, result),
    ensures
        ({
            let (a, b) = reversal(round_id, this, other, result);
            &&& a.round_id == round_id && b.round_id == round_id
            &&& a.this_clan_id == this.id && a.other_clan_id == other.id
            &&& b.this_clan_id == other.id && b.other_clan_id == this.id
            &&& a.this_old_score == this.score && b.this_old_score == other.score
            &&& a.this_new_score == this.score - 2 * result
            &&& b.this_new_score == other.score + 2 * result
            &&& a.old_result == result && b.old_result == -result
        }),
{
}

/// A reversal requested with one tag files its first entry under the reporting clan: the
/// tag's clan where the reporting tag was given, else the opponent its entry names.
pub proof fn one_tag_reversal_files_entries_by_role(
    round_id: i64,
    known_is_this: bool,
    known: User,
    entry: Record,
    opponent_id: i64,
    opponent_score: i64,
)
    requires
        entry.result > i64::MIN,
    ensures
        ({
            let (a, b) = one_tag_reversal(round_id, known_is_this, known, entry, opponent_id, opponent_score);
            &&& a.round_id == round_id && b.round_id == round_id
            &&& known_is_this ==> a.this_clan_id == known.id && b.this_clan_id == opponent_id
                && a.old_result == entry.result
            &&& !known_is_this ==> a.this_clan_id == opponent_id && b.this_clan_id == known.id
                && b.old_result == entry.result
        }),
{
}

} // verus!
