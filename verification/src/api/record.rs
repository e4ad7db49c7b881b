use vstd::prelude::*;

use crate::api::league::{get_leagues, LeaguesFlow};
use crate::api::user::{get_users, users_start, UsersFlow, UsersOutcome};
use crate::api::{Answer, Failure, Flow, Insertion, Query, ResMessage};
use crate::model::league::League;
use crate::model::record::Record;
use crate::model::round::Round;
use crate::model::user::User;
use crate::time::{epoch, format_timestamp, timestamp_text};

verus! {

/// Both entries of a match with both clans.
pub struct ResInfo {
    pub this_record: Record,
    pub other_record: Record,
    pub this_user: User,
    pub other_user: User,
}

/// A settled match as it is reported.
pub struct RecordApi {
    pub time_round: i64,
    pub this_clan: ClanInfo,
    pub other_clan: ClanInfo,
    pub result: String,
    pub create_time: String,
}

/// One side of a reported match: its scores before and after, and its league.
pub struct ClanInfo {
    pub tag: String,
    pub name: String,
    pub old_score: i64,
    pub new_score: i64,
    pub league: ClanInfoLeague,
}

/// The league of one side of a reported match.
pub struct ClanInfoLeague {
    pub id: i64,
    pub name: String,
}

/// A match report: both tags and names, the server, and the reporting league's key.
pub struct RecordParam {
    pub this_tag: Option<String>,
    pub this_name: Option<String>,
    pub other_tag: Option<String>,
    pub other_name: Option<String>,
    pub is_global: Option<bool>,
    pub api_key: Option<String>,
}

/// The outcome of a match for the reporting side: it wins (1) when its score is not
/// higher than the opposing side's, else it loses (-1).
pub open spec fn match_result(this_score: int, other_score: int) -> int {
    if this_score <= other_score {
        1
    } else {
        -1
    }
}

/// The scores can be settled without leaving the range of `i64`: the winner gains a
/// point and the loser gives one up.
pub open spec fn settles(this_score: i64, other_score: i64) -> bool {
    this_score <= other_score ==> (this_score < i64::MAX && other_score > i64::MIN)
}

/// Both entries of a settled match, reporting side first: each side's score moves by its
/// own result, and the results are opposite.
pub open spec fn settlement(round_id: i64, this: User, other: User) -> (Record, Record) {
    let res = match_result(this.score as int, other.score as int);
    (
        Record {
            id: 0,
            round_id,
            this_clan_id: this.id,
            other_clan_id: other.id,
            old_score: this.score,
            new_score: (this.score + res) as i64,
            result: res as i64,
            create_time: epoch(),
        },
        Record {
            id: 0,
            round_id,
            this_clan_id: other.id,
            other_clan_id: this.id,
            old_score: other.score,
            new_score: (other.score - res) as i64,
            result: (-res) as i64,
            create_time: epoch(),
        },
    )
}

/// Settles a match between `this` (the reporting clan) and `other` in a round
/// (see `settlement`).
pub fn set_record(round_id: i64, this: &User, other: &User) -> (r: (Record, Record))
    requires
        settles(this.score, other.score),
    ensures
        r == settlement(round_id, *this, *other),
{
    let mut this_score = this.score;
    let mut other_score = other.score;
    let result: i64 = if this.score <= other.score {
        this_score = this_score + 1;
        other_score = other_score - 1;
        1
    } else {
        this_score = this_score - 1;
        other_score = other_score + 1;
        -1
    };
    let this_insert_data = Record::insert_data(
        round_id,
        this.id,
        other.id,
        this.score,
        this_score,
        result,
    );
    let other_insert_data = Record::insert_data(
        round_id,
        other.id,
        this.id,
        other.score,
        other_score,
        0 - result,
    );
    (this_insert_data, other_insert_data)
}

/// Settling a match moves no points in or out: what one side gains the other gives up,
/// each side's score moves by its own result, the results are opposite, and the side
/// whose score is not higher wins.
pub proof fn settlement_conserves_points(round_id: i64, this: User, other: User)
    requires
        settles(this.score, other.score),
    ensures
        ({
            let (a, b) = settlement(round_id, this, other);
            &&& a.new_score + b.new_score == a.old_score + b.old_score
            &&& a.new_score - a.old_score == a.result
            &&& b.new_score - b.old_score == b.result
            &&& a.result == -b.result
            &&& (a.result == 1 <==> this.score <= other.score)
            &&& (a.result == 1 || a.result == -1)
        }),
{
}

/// The word that reports the outcome of a match: "win" for a positive result, "lose" for
/// a negative one, "failed" for none.
pub open spec fn result_label(result: int) -> Seq<char> {
    if result < 0 {
        "lose"@
    } else if result == 0 {
        "failed"@
    } else {
        "win"@
    }
}

/// The word that reports the outcome `result` (see `result_label`).
pub fn result_word(result: i64) -> (r: String)
    ensures
        r@ == result_label(result as int),
{
    if result < 0 {
        String::from_str("lose")
    } else if result == 0 {
        String::from_str("failed")
    } else {
        String::from_str("win")
    }
}

/// The name under which a clan is reported: its name, or "None" where it has none.
pub open spec fn shown_name(name: Option<String>) -> Seq<char> {
    match name {
        Some(n) => n@,
        None => "None"@,
    }
}

/// `c` reports the side `user` of a match with entry `rec`, in `league`.
pub open spec fn reports_side(c: ClanInfo, user: User, rec: Record, league: League) -> bool {
    &&& c.tag == user.tag
    &&& c.name@ == shown_name(user.name)
    &&& c.old_score == rec.old_score
    &&& c.new_score == rec.new_score
    &&& c.league.id == league.id
    &&& c.league.name == league.name
}

/// `api` reports the match `info` with the clans' leagues: the round and the time of the
/// reporting side's entry, both sides, and the reporting side's outcome.
pub open spec fn reports_match(api: RecordApi, info: ResInfo, this_league: League, other_league: League) -> bool {
    &&& api.time_round == info.this_record.round_id
    &&& reports_side(api.this_clan, info.this_user, info.this_record, this_league)
    &&& reports_side(api.other_clan, info.other_user, info.other_record, other_league)
    &&& api.result@ == result_label(info.this_record.result as int)
    &&& api.create_time@ == timestamp_text(info.this_record.create_time)
}

/// The name of a clan, or "None".
fn name_or_none(name: Option<String>) -> (r: String)
    ensures
        r@ == shown_name(name),
{
    match name {
        Some(n) => n,
        None => String::from_str("None"),
    }
}

/// The report of a match (see `reports_match`).
pub fn record_api(info: ResInfo, this_league: League, other_league: League) -> (r: RecordApi)
    ensures
        reports_match(r, info, this_league, other_league),
{
    let ResInfo { this_record, other_record, this_user, other_user } = info;
    let result = result_word(this_record.result);
    let create_time = format_timestamp(&this_record.create_time);
    RecordApi {
        time_round: this_record.round_id,
        this_clan: ClanInfo {
            tag: this_user.tag,
            name: name_or_none(this_user.name),
            old_score: this_record.old_score,
            new_score: this_record.new_score,
            league: ClanInfoLeague { id: this_league.id, name: this_league.name },
        },
        other_clan: ClanInfo {
            tag: other_user.tag,
            name: name_or_none(other_user.name),
            old_score: other_record.old_score,
            new_score: other_record.new_score,
            league: ClanInfoLeague { id: other_league.id, name: other_league.name },
        },
        result,
        create_time,
    }
}

/// The result of a match report: the report, or why it was refused.
pub type RecordOutcome = ResMessage<RecordApi, Failure>;

/// The stages of handling a match report.
pub enum RecordFlow {
    /// Looking up the league that holds the report's key.
    AwaitKeyLeague { param: RecordParam },
    /// Finding both clans.
    Users { users: UsersFlow },
    /// Looking up the current round, to find the clans' entries in it.
    AwaitLookupRound { this: User, other: User },
    /// Looking up the reporting clan's entry in the round.
    AwaitThisRecord { this: User, other: User, round_id: i64 },
    /// Looking up the opposing clan's entry in the round.
    AwaitOtherRecord { this: User, other: User, round_id: i64, this_record: Option<Record> },
    /// Looking up the current round, to settle the match in it.
    AwaitScoreRound { this: User, other: User },
    /// Setting the reporting clan's new score.
    AwaitThisScore { this: User, other: User, records: (Record, Record) },
    /// Setting the opposing clan's new score.
    AwaitOtherScore { this: User, other: User, records: (Record, Record) },
    /// Storing the reporting clan's entry.
    AwaitThisSave { this: User, other: User, this_entry: Record, other_record: Record },
    /// Reading the reporting clan's entry in the round, which the store refused to add.
    AwaitThisFallback { this: User, other: User, other_record: Record },
    /// Storing the opposing clan's entry.
    AwaitOtherSave { this: User, other: User, saved_this: Record, other_record: Record },
    /// Reading the opposing clan's entry in the round, which the store refused to add.
    AwaitOtherFallback { this: User, other: User, saved_this: Record },
    /// Looking up both clans' leagues.
    Leagues { info: ResInfo, leagues: LeaguesFlow },
}

/// How the clan lookup's step `u` carries over: its stages become stages of the report,
/// its refusal refuses the report, and both clans found lead to looking up the round.
pub open spec fn after_users(u: Flow<UsersFlow, UsersOutcome>, r: Flow<RecordFlow, RecordOutcome>) -> bool {
    match u {
        Flow::Ask(s, q) => r == Flow::<RecordFlow, RecordOutcome>::Ask(RecordFlow::Users { users: s }, q),
        Flow::Done(ResMessage::Failed(f)) => r == Flow::<RecordFlow, RecordOutcome>::Done(
            ResMessage::Failed(f),
        ),
        Flow::Done(ResMessage::Success((this, other))) => r == Flow::<RecordFlow, RecordOutcome>::Ask(
            RecordFlow::AwaitLookupRound { this, other },
            Query::LatestRound,
        ),
    }
}

/// How the league lookup's step `l` for the match `info` carries over: its stages become
/// stages of the report, and both leagues found complete the report.
pub open spec fn after_leagues(
    info: ResInfo,
    l: Flow<LeaguesFlow, (League, League)>,
    r: Flow<RecordFlow, RecordOutcome>,
) -> bool {
    match l {
        Flow::Ask(s, q) => r == Flow::<RecordFlow, RecordOutcome>::Ask(
            RecordFlow::Leagues { info, leagues: s },
            q,
        ),
        Flow::Done((tl, ol)) => r matches Flow::Done(ResMessage::Success(api)) && reports_match(
            api,
            info,
            tl,
            ol,
        ),
    }
}

fn lift_users(u: Flow<UsersFlow, UsersOutcome>) -> (r: Flow<RecordFlow, RecordOutcome>)
    ensures
        after_users(u, r),
{
    match u {
        Flow::Ask(s, q) => Flow::Ask(RecordFlow::Users { users: s }, q),
        Flow::Done(ResMessage::Failed(f)) => Flow::Done(ResMessage::Failed(f)),
        Flow::Done(ResMessage::Success((this, other))) => Flow::Ask(
            RecordFlow::AwaitLookupRound { this, other },
            Query::LatestRound,
        ),
    }
}

fn lift_leagues(info: ResInfo, l: Flow<LeaguesFlow, (League, League)>) -> (r: Flow<RecordFlow, RecordOutcome>)
    ensures
        after_leagues(info, l, r),
{
    match l {
        Flow::Ask(s, q) => Flow::Ask(RecordFlow::Leagues { info, leagues: s }, q),
        Flow::Done((tl, ol)) => Flow::Done(ResMessage::Success(record_api(info, tl, ol))),
    }
}

/// How a report goes on once both entries of the settled match are known: both clans'
/// leagues are looked up, the reporting clan's first.
pub open spec fn settled_report(
    this: User,
    other: User,
    saved_this: Record,
    saved_other: Record,
    r: Flow<RecordFlow, RecordOutcome>,
) -> bool {
    after_leagues(
        ResInfo { this_record: saved_this, other_record: saved_other, this_user: this, other_user: other },
        Flow::Ask(
            LeaguesFlow::AwaitThis { other_id: other.league_id },
            Query::LeagueById { id: this.league_id },
        ),
        r,
    )
}

fn finish_report(this: User, other: User, saved_this: Record, saved_other: Record) -> (r: Flow<
    RecordFlow,
    RecordOutcome,
>)
    ensures
        settled_report(this, other, saved_this, saved_other, r),
{
    let this_league_id = this.league_id;
    let other_league_id = other.league_id;
    let info = ResInfo { this_record: saved_this, other_record: saved_other, this_user: this, other_user: other };
    lift_leagues(info, get_leagues(this_league_id, other_league_id))
}

/// The first step of a match report: without a key it is refused, else the league that
/// holds the key is looked up.
pub open spec fn record_start(param: RecordParam, r: Flow<RecordFlow, RecordOutcome>) -> bool {
    match param.api_key {
        None => r == Flow::<RecordFlow, RecordOutcome>::Done(ResMessage::Failed(Failure::MissingApiKey)),
        Some(k) => r == Flow::<RecordFlow, RecordOutcome>::Ask(
            RecordFlow::AwaitKeyLeague { param },
            Query::LeagueByKey { api_key: k },
        ),
    }
}

/// Starts handling a match report (see `record_start`).
pub fn get(result_param: RecordParam) -> (r: Flow<RecordFlow, RecordOutcome>)
    ensures
        record_start(result_param, r),
{
    let api_key = match &result_param.api_key {
        Some(k) => k.clone(),
        None => {
            return Flow::Done(ResMessage::Failed(Failure::MissingApiKey));
        },
    };
    Flow::Ask(RecordFlow::AwaitKeyLeague { param: result_param }, Query::LeagueByKey { api_key })
}

impl RecordFlow {
    /// The answer kind that each stage waits for; before the match is settled, the
    /// scores must allow it (see `settles`).
    pub open spec fn accepts(self, a: Answer) -> bool {
        match self {
            RecordFlow::AwaitKeyLeague { .. } => a is League,
            RecordFlow::Users { users } => users.accepts(a),
            RecordFlow::AwaitLookupRound { .. } => a is Round,
            RecordFlow::AwaitThisRecord { .. } => a is Record,
            RecordFlow::AwaitOtherRecord { .. } => a is Record,
            RecordFlow::AwaitScoreRound { this, other } => a is Round && settles(
                this.score,
                other.score,
            ),
            RecordFlow::AwaitThisScore { .. } => a is User,
            RecordFlow::AwaitOtherScore { .. } => a is User,
            RecordFlow::AwaitThisSave { .. } => a is RecordInsert,
            RecordFlow::AwaitThisFallback { .. } => a is Record,
            RecordFlow::AwaitOtherSave { .. } => a is RecordInsert,
            RecordFlow::AwaitOtherFallback { .. } => a is Record,
            RecordFlow::Leagues { leagues, .. } => leagues.accepts(a),
        }
    }

    /// One step of a match report:
    /// - an unknown key refuses the report; a known league starts the clan lookup;
    /// - the clans' entries are looked up in the current round (round 0 where there is
    ///   none); where both exist the match was already settled and is reported as it is;
    /// - else the match is settled in the current round (see `settlement`): the new
    ///   scores are set, reporting clan first, then both entries are stored, reporting
    ///   clan first; where the store refuses an entry, the clan's entry in that round is
    ///   read instead; an entry that cannot be read back is reported as the blank entry;
    /// - finally both clans' leagues are looked up and the match is reported.
    pub open spec fn steps_to(self, a: Answer, r: Flow<RecordFlow, RecordOutcome>) -> bool {
        match self {
            RecordFlow::AwaitKeyLeague { param } => match a {
                Answer::League(None) => r == Flow::<RecordFlow, RecordOutcome>::Done(
                    ResMessage::Failed(Failure::UnknownLeague),
                ),
                Answer::League(Some(league)) => exists|u: Flow<UsersFlow, UsersOutcome>|
                    users_start(param, league, u) && after_users(u, r),
                _ => false,
            },
            RecordFlow::Users { users } => exists|u: Flow<UsersFlow, UsersOutcome>|
                users.steps_to(a, u) && after_users(u, r),
            RecordFlow::AwaitLookupRound { this, other } => match a {
                Answer::Round(found) => r == Flow::<RecordFlow, RecordOutcome>::Ask(
                    RecordFlow::AwaitThisRecord { this, other, round_id: Round::spec_or_blank(found).id },
                    Query::RecordByUser { round_id: Round::spec_or_blank(found).id, clan_id: this.id },
                ),
                _ => false,
            },
            RecordFlow::AwaitThisRecord { this, other, round_id } => match a {
                Answer::Record(found) => r == Flow::<RecordFlow, RecordOutcome>::Ask(
                    RecordFlow::AwaitOtherRecord { this, other, round_id, this_record: found },
                    Query::RecordByUser { round_id, clan_id: other.id },
                ),
                _ => false,
            },
            RecordFlow::AwaitOtherRecord { this, other, round_id, this_record } => match a {
                Answer::Record(found) => match (this_record, found) {
                    (Some(tr), Some(or)) => {
                        let info = ResInfo {
                            this_record: tr,
                            other_record: or,
                            this_user: this,
                            other_user: other,
                        };
                        after_leagues(
                            info,
                            Flow::Ask(
                                LeaguesFlow::AwaitThis { other_id: other.league_id },
                                Query::LeagueById { id: this.league_id },
                            ),
                            r,
                        )
                    },
                    _ => r == Flow::<RecordFlow, RecordOutcome>::Ask(
                        RecordFlow::AwaitScoreRound { this, other },
                        Query::LatestRound,
                    ),
                },
                _ => false,
            },
            RecordFlow::AwaitScoreRound { this, other } => match a {
                Answer::Round(found) => {
                    let records = settlement(Round::spec_or_blank(found).id, this, other);
                    r == Flow::<RecordFlow, RecordOutcome>::Ask(
                        RecordFlow::AwaitThisScore { this, other, records },
                        Query::UpdateScore { id: this.id, score: records.0.new_score },
                    )
                },
                _ => false,
            },
            RecordFlow::AwaitThisScore { this, other, records } => match a {
                Answer::User(_) => r == Flow::<RecordFlow, RecordOutcome>::Ask(
                    RecordFlow::AwaitOtherScore { this, other, records },
                    Query::UpdateScore { id: other.id, score: records.1.new_score },
                ),
                _ => false,
            },
            RecordFlow::AwaitOtherScore { this, other, records } => match a {
                Answer::User(_) => r == Flow::<RecordFlow, RecordOutcome>::Ask(
                    RecordFlow::AwaitThisSave {
                        this,
                        other,
                        this_entry: records.0,
                        other_record: records.1,
                    },
                    Query::InsertRecord { record: records.0 },
                ),
                _ => false,
            },
            RecordFlow::AwaitThisSave { this, other, this_entry, other_record } => match a {
                Answer::RecordInsert(Insertion::Stored(found)) => r == Flow::<
                    RecordFlow,
                    RecordOutcome,
                >::Ask(
                    RecordFlow::AwaitOtherSave {
                        this,
                        other,
                        saved_this: Record::spec_or_blank(found),
                        other_record,
                    },
                    Query::InsertRecord { record: other_record },
                ),
                Answer::RecordInsert(Insertion::Refused) => r == Flow::<RecordFlow, RecordOutcome>::Ask(
                    RecordFlow::AwaitThisFallback { this, other, other_record },
                    Query::RecordByUser {
                        round_id: this_entry.round_id,
                        clan_id: this_entry.this_clan_id,
                    },
                ),
                _ => false,
            },
            RecordFlow::AwaitThisFallback { this, other, other_record } => match a {
                Answer::Record(found) => r == Flow::<RecordFlow, RecordOutcome>::Ask(
                    RecordFlow::AwaitOtherSave {
                        this,
                        other,
                        saved_this: Record::spec_or_blank(found),
                        other_record,
                    },
                    Query::InsertRecord { record: other_record },
                ),
                _ => false,
            },
            RecordFlow::AwaitOtherSave { this, other, saved_this, other_record } => match a {
                Answer::RecordInsert(Insertion::Stored(found)) => settled_report(
                    this,
                    other,
                    saved_this,
                    Record::spec_or_blank(found),
                    r,
                ),
                Answer::RecordInsert(Insertion::Refused) => r == Flow::<RecordFlow, RecordOutcome>::Ask(
                    RecordFlow::AwaitOtherFallback { this, other, saved_this },
                    Query::RecordByUser {
                        round_id: other_record.round_id,
                        clan_id: other_record.this_clan_id,
                    },
                ),
                _ => false,
            },
            RecordFlow::AwaitOtherFallback { this, other, saved_this } => match a {
                Answer::Record(found) => settled_report(
                    this,
                    other,
                    saved_this,
                    Record::spec_or_blank(found),
                    r,
                ),
                _ => false,
            },
            RecordFlow::Leagues { info, leagues } => exists|l: Flow<LeaguesFlow, (League, League)>|
                leagues.steps_to(a, l) && after_leagues(info, l, r),
        }
    }

    /// Whether the stage waits for this answer (see `accepts`).
    pub fn accepts_answer(&self, a: &Answer) -> (b: bool)
        ensures
            b == self.accepts(*a),
    {
        match self {
            RecordFlow::AwaitKeyLeague { .. } => matches!(a, Answer::League(_)),
            RecordFlow::Users { users } => users.accepts_answer(a),
            RecordFlow::AwaitLookupRound { .. } => matches!(a, Answer::Round(_)),
            RecordFlow::AwaitThisRecord { .. } => matches!(a, Answer::Record(_)),
            RecordFlow::AwaitOtherRecord { .. } => matches!(a, Answer::Record(_)),
            RecordFlow::AwaitScoreRound { this, other } => {
                let fits = if this.score <= other.score {
                    this.score < i64::MAX && other.score > i64::MIN
                } else {
                    true
                };
                matches!(a, Answer::Round(_)) && fits
            },
            RecordFlow::AwaitThisScore { .. } => matches!(a, Answer::User(_)),
            RecordFlow::AwaitOtherScore { .. } => matches!(a, Answer::User(_)),
            RecordFlow::AwaitThisSave { .. } => matches!(a, Answer::RecordInsert(_)),
            RecordFlow::AwaitThisFallback { .. } => matches!(a, Answer::Record(_)),
            RecordFlow::AwaitOtherSave { .. } => matches!(a, Answer::RecordInsert(_)),
            RecordFlow::AwaitOtherFallback { .. } => matches!(a, Answer::Record(_)),
            RecordFlow::Leagues { leagues, .. } => leagues.accepts_answer(a),
        }
    }

    /// Takes the answer to the stage's query and goes on (see `steps_to`).
    pub fn step(self, a: Answer) -> (r: Flow<RecordFlow, RecordOutcome>)
        requires
            self.accepts(a),
        ensures
            self.steps_to(a, r),
    {
        match self {
            RecordFlow::AwaitKeyLeague { param } => match a {
                Answer::League(Some(league)) => {
                    let u = get_users(param, league);
                    lift_users(u)
                },
                _ => Flow::Done(ResMessage::Failed(Failure::UnknownLeague)),
            },
            RecordFlow::Users { users } => {
                let u = users.step(a);
                lift_users(u)
            },
            RecordFlow::AwaitLookupRound { this, other } => {
                let found = match a {
                    Answer::Round(found) => found,
                    _ => None,
                };
                let round_id = Round::or_blank(found).id;
                let clan_id = this.id;
                Flow::Ask(
                    RecordFlow::AwaitThisRecord { this, other, round_id },
                    Query::RecordByUser { round_id, clan_id },
                )
            },
            RecordFlow::AwaitThisRecord { this, other, round_id } => {
                let found = match a {
                    Answer::Record(found) => found,
                    _ => None,
                };
                let clan_id = other.id;
                Flow::Ask(
                    RecordFlow::AwaitOtherRecord { this, other, round_id, this_record: found },
                    Query::RecordByUser { round_id, clan_id },
                )
            },
            RecordFlow::AwaitOtherRecord { this, other, round_id: _, this_record } => {
                let found = match a {
                    Answer::Record(found) => found,
                    _ => None,
                };
                match (this_record, found) {
                    (Some(tr), Some(or)) => {
                        let this_league_id = this.league_id;
                        let other_league_id = other.league_id;
                        let info = ResInfo {
                            this_record: tr,
                            other_record: or,
                            this_user: this,
                            other_user: other,
                        };
                        lift_leagues(info, get_leagues(this_league_id, other_league_id))
                    },
                    _ => Flow::Ask(RecordFlow::AwaitScoreRound { this, other }, Query::LatestRound),
                }
            },
            RecordFlow::AwaitScoreRound { this, other } => {
                let found = match a {
                    Answer::Round(found) => found,
                    _ => None,
                };
                let round = Round::or_blank(found);
                let records = set_record(round.id, &this, &other);
                let id = this.id;
                let score = records.0.new_score;
                Flow::Ask(RecordFlow::AwaitThisScore { this, other, records }, Query::UpdateScore { id, score })
            },
            RecordFlow::AwaitThisScore { this, other, records } => {
                let id = other.id;
                let score = records.1.new_score;
                Flow::Ask(
                    RecordFlow::AwaitOtherScore { this, other, records },
                    Query::UpdateScore { id, score },
                )
            },
            RecordFlow::AwaitOtherScore { this, other, records } => Flow::Ask(
                RecordFlow::AwaitThisSave {
                    this,
                    other,
                    this_entry: records.0,
                    other_record: records.1,
                },
                Query::InsertRecord { record: records.0 },
            ),
            RecordFlow::AwaitThisSave { this, other, this_entry, other_record } => match a {
                Answer::RecordInsert(Insertion::Stored(found)) => Flow::Ask(
                    RecordFlow::AwaitOtherSave {
                        this,
                        other,
                        saved_this: Record::or_blank(found),
                        other_record,
                    },
                    Query::InsertRecord { record: other_record },
                ),
                _ => Flow::Ask(
                    RecordFlow::AwaitThisFallback { this, other, other_record },
                    Query::RecordByUser {
                        round_id: this_entry.round_id,
                        clan_id: this_entry.this_clan_id,
                    },
                ),
            },
            RecordFlow::AwaitThisFallback { this, other, other_record } => {
                let found = match a {
                    Answer::Record(found) => found,
                    _ => None,
                };
                Flow::Ask(
                    RecordFlow::AwaitOtherSave {
                        this,
                        other,
                        saved_this: Record::or_blank(found),
                        other_record,
                    },
                    Query::InsertRecord { record: other_record },
                )
            },
            RecordFlow::AwaitOtherSave { this, other, saved_this, other_record } => match a {
                Answer::RecordInsert(Insertion::Stored(found)) => finish_report(
                    this,
                    other,
                    saved_this,
                    Record::or_blank(found),
                ),
                _ => Flow::Ask(
                    RecordFlow::AwaitOtherFallback { this, other, saved_this },
                    Query::RecordByUser {
                        round_id: other_record.round_id,
                        clan_id: other_record.this_clan_id,
                    },
                ),
            },
            RecordFlow::AwaitOtherFallback { this, other, saved_this } => {
                let found = match a {
                    Answer::Record(found) => found,
                    _ => None,
                };
                finish_report(this, other, saved_this, Record::or_blank(found))
            },
            RecordFlow::Leagues { info, leagues } => {
                let l = leagues.step(a);
                lift_leagues(info, l)
            },
        }
    }
}

} // verus!

verus! {

/// A match whose entries both clans already have in the current round is reported as
/// it stands: no score is changed and nothing is stored; the leagues are looked up.
pub proof fn recorded_match_is_not_settled_again(
    this: User,
    other: User,
    round_id: i64,
    this_record: Record,
    other_record: Record,
    r: Flow<RecordFlow, RecordOutcome>,
)
    requires
        (RecordFlow::AwaitOtherRecord { this, other, round_id, this_record: Some(this_record) }).steps_to(
            Answer::Record(Some(other_record)),
            r,
        ),
    ensures
        r matches Flow::Ask(RecordFlow::Leagues { info, .. }, Query::LeagueById { id }) && id
            == this.league_id && info.this_record == this_record && info.other_record == other_record,
{
}

/// A report changes scores only while it settles a match: from the stage that learns
/// the round it settles in, and from the stage that learns the first score was set.
pub proof fn scores_change_only_when_settling(s: RecordFlow, a: Answer, r: Flow<RecordFlow, RecordOutcome>)
    requires
        s.steps_to(a, r),
    ensures
        r matches Flow::Ask(_, Query::UpdateScore { .. }) ==> (s is AwaitScoreRound
            || s is AwaitThisScore),
{
    match s {
        RecordFlow::Users { users } => {
            let u = choose|u: Flow<UsersFlow, UsersOutcome>| users.steps_to(a, u) && after_users(u, r);
            crate::api::user::users_lookup_only_reads_and_registers(users, a, u);
        },
        _ => {},
    }
}

/// The two new scores that settling a match sets add up to the two clans' old scores.
pub proof fn settled_scores_conserve_points(
    this: User,
    other: User,
    round: Answer,
    r1: Flow<RecordFlow, RecordOutcome>,
    s1: RecordFlow,
    q1: Query,
    set: Answer,
    r2: Flow<RecordFlow, RecordOutcome>,
)
    requires
        (RecordFlow::AwaitScoreRound { this, other }).accepts(round),
        (RecordFlow::AwaitScoreRound { this, other }).steps_to(round, r1),
        r1 == Flow::<RecordFlow, RecordOutcome>::Ask(s1, q1),
        s1.accepts(set),
        s1.steps_to(set, r2),
    ensures
        q1 matches Query::UpdateScore { id: id1, score: score1 } && id1 == this.id,
        r2 matches Flow::Ask(_, Query::UpdateScore { id: id2, score: score2 }) && id2 == other.id,
        q1->score + r2->Ask_1->score == this.score + other.score,
{
    if let Answer::Round(found) = round {
        settlement_conserves_points(Round::spec_or_blank(found).id, this, other);
    }
}

} // verus!

verus! {

/// The league that a lookup yields: the one found, or the blank league.
pub open spec fn league_found(found: Option<League>, l: League) -> bool {
    match found {
        Some(x) => l == x,
        None => l.is_blank(),
    }
}

/// Two reports say the same: round, both sides' tags, names, scores and leagues, the
/// outcome and the time.
pub open spec fn same_report(x: RecordApi, y: RecordApi) -> bool {
    &&& x.time_round == y.time_round
    &&& x.result@ == y.result@
    &&& x.create_time@ == y.create_time@
    &&& same_side(x.this_clan, y.this_clan)
    &&& same_side(x.other_clan, y.other_clan)
}

/// Two reported sides say the same.
pub open spec fn same_side(x: ClanInfo, y: ClanInfo) -> bool {
    &&& x.tag@ == y.tag@
    &&& x.name@ == y.name@
    &&& x.old_score == y.old_score
    &&& x.new_score == y.new_score
    &&& x.league.id == y.league.id
    &&& x.league.name@ == y.league.name@
}

/// Reporting a match again changes nothing: once the match is settled, a report that
/// finds both clans' entries in the current round only reads (the two entries, then the
/// two leagues), sets no score and stores nothing; and where the store hands back the
/// entries, clans and leagues of the first report, the second report says what the first
/// said.
pub proof fn repeated_report_changes_nothing(
    first: RecordApi,
    first_info: ResInfo,
    first_this_league: League,
    first_other_league: League,
    this: User,
    other: User,
    round: Option<Round>,
    this_league: Option<League>,
    other_league: Option<League>,
    s1: RecordFlow,
    q1: Query,
    s2: RecordFlow,
    q2: Query,
    s3: RecordFlow,
    q3: Query,
    s4: RecordFlow,
    q4: Query,
    r: Flow<RecordFlow, RecordOutcome>,
)
    requires
        reports_match(first, first_info, first_this_league, first_other_league),
        this.tag@ == first_info.this_user.tag@,
        shown_name(this.name) == shown_name(first_info.this_user.name),
        other.tag@ == first_info.other_user.tag@,
        shown_name(other.name) == shown_name(first_info.other_user.name),
        (RecordFlow::AwaitLookupRound { this, other }).steps_to(Answer::Round(round), Flow::Ask(s1, q1)),
        s1.steps_to(Answer::Record(Some(first_info.this_record)), Flow::Ask(s2, q2)),
        s2.steps_to(Answer::Record(Some(first_info.other_record)), Flow::Ask(s3, q3)),
        s3.steps_to(Answer::League(this_league), Flow::Ask(s4, q4)),
        s4.steps_to(Answer::League(other_league), r),
        this_league matches Some(l) && l.id == first_this_league.id && l.name@ == first_this_league.name@,
        other_league matches Some(l) && l.id == first_other_league.id && l.name@
            == first_other_league.name@,
    ensures
        q1 == (Query::RecordByUser { round_id: Round::spec_or_blank(round).id, clan_id: this.id }),
        q2 == (Query::RecordByUser { round_id: Round::spec_or_blank(round).id, clan_id: other.id }),
        q3 == (Query::LeagueById { id: this.league_id }),
        q4 == (Query::LeagueById { id: other.league_id }),
        r matches Flow::Done(ResMessage::Success(second)) && same_report(first, second),
{
    let info = ResInfo {
        this_record: first_info.this_record,
        other_record: first_info.other_record,
        this_user: this,
        other_user: other,
    };
    assert(s3 == RecordFlow::Leagues {
        info,
        leagues: LeaguesFlow::AwaitThis { other_id: other.league_id },
    });
    let l3 = choose|l: Flow<LeaguesFlow, (League, League)>|
        (LeaguesFlow::AwaitThis { other_id: other.league_id }).steps_to(Answer::League(this_league), l)
            && after_leagues(info, l, Flow::Ask(s4, q4));
    if let Flow::Ask(ls4, lq4) = l3 {
        let l5 = choose|l: Flow<LeaguesFlow, (League, League)>|
            ls4.steps_to(Answer::League(other_league), l) && after_leagues(info, l, r);
    }
}

} // verus!

verus! {

/// Whichever side wins, settling a match in round `round_id` files the first entry under
/// the reporting clan against the opponent, and the second under the opponent against
/// the reporting clan, both in that round and each starting from its clan's score.
pub proof fn settlement_files_each_entry_under_its_clan(round_id: i64, this: User, other: User)
    ensures
        ({
            let (a, b) = settlement(round_id, this, other);
            &&& a.round_id == round_id && b.round_id == round_id
            &&& a.this_clan_id == this.id && a.other_clan_id == other.id
            &&& b.this_clan_id == other.id && b.other_clan_id == this.id
            &&& a.old_score == this.score && b.old_score == other.score
            &&& a.id == 0 && b.id == 0
        }),
{
}

/// The settling stage takes any round answer whenever the scores can move within `i64`:
/// always when the reporting clan's score is higher (it gives a point up), and when it is
/// not higher as long as it can gain a point and the opponent can lose one.
pub proof fn settling_stage_accepts_every_movable_round(this: User, other: User, found: Option<Round>)
    ensures
        this.score > other.score ==> (RecordFlow::AwaitScoreRound { this, other }).accepts(
            Answer::Round(found),
        ),
        this.score <= other.score && this.score < i64::MAX && other.score > i64::MIN ==> (
        RecordFlow::AwaitScoreRound { this, other }).accepts(Answer::Round(found)),
{
}

} // verus!
