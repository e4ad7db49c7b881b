use vstd::prelude::*;

pub mod league;
pub mod record;
pub mod result;
pub mod reverse;
pub mod round;
pub mod user;

use crate::model::league::League;
use crate::model::record::Record;
use crate::model::reverse::Reverse;
use crate::model::round::Round;
use crate::model::user::User;
use user::{LeagueJson, LeagueJsonUnion, union_name};

verus! {

/// The outcome of a request: a value, or the reason it was refused.
pub enum ResMessage<T, E> {
    Success(T),
    Failed(E),
}

/// The envelope of every answer: code 0 and "Success", or code 1 and "Error", around a body.
pub struct MiddleResponse<T> {
    code: i64,
    message: String,
    body: T,
}

impl<T> MiddleResponse<T> {
    /// A successful answer around `body`.
    pub fn success(body: T) -> (r: Self)
        ensures
            r.code() == 0,
            r.message()@ == "Success"@,
            r.body() == body,
    {
        MiddleResponse { code: 0, message: String::from_str("Success"), body }
    }

    /// A failed answer around `body`.
    pub fn error(body: T) -> (r: Self)
        ensures
            r.code() == 1,
            r.message()@ == "Error"@,
            r.body() == body,
    {
        MiddleResponse { code: 1, message: String::from_str("Error"), body }
    }

    /// The answer's code.
    pub closed spec fn code(self) -> i64 {
        self.code
    }

    /// The answer's message.
    pub closed spec fn message(self) -> String {
        self.message
    }

    /// The answer's body.
    pub closed spec fn body(self) -> T {
        self.body
    }

    /// The code: 0 for success, 1 for error.
    pub fn get_code(&self) -> (r: i64)
        ensures
            r == self.code(),
    {
        self.code
    }

    /// The message, "Success" or "Error".
    pub fn get_message(&self) -> (r: &String)
        ensures
            r == self.message(),
    {
        &self.message
    }

    /// Takes the body out of the envelope.
    pub fn into_body(self) -> (r: T)
        ensures
            r == self.body(),
    {
        self.body
    }
}

/// Why a request was refused.
#[derive(Debug, PartialEq, Eq, Structural, Clone, Copy)]
pub enum Failure {
    /// The request carries no league key.
    MissingApiKey,
    /// No league has the key that the request carries.
    UnknownLeague,
    /// The request names no tag for the reporting clan.
    MissingThisTag,
    /// The request names no tag for the opposing clan.
    MissingOtherTag,
    /// The opposing clan belongs to the reporting league.
    SameLeague,
    /// No usable entry for the opposing clan was found.
    MatchFailed,
    /// Two leagues claim the opposing clan's tag.
    DuplicateTag(LeagueJsonUnion, LeagueJsonUnion),
    /// The clan has no match in the round.
    NoRecordThisRound,
    /// The reversal entry of the reporting clan could not be stored.
    ThisReverseNotSaved,
    /// The reversal entry of the opposing clan could not be stored.
    OtherReverseNotSaved,
}

/// The text that answers a refused request.
pub open spec fn failure_text(f: Failure) -> Seq<char> {
    match f {
        Failure::MissingApiKey => "无联盟信息"@,
        Failure::UnknownLeague => "非法接入"@,
        Failure::MissingThisTag => "本方标签缺失"@,
        Failure::MissingOtherTag => "对方标签缺失"@,
        Failure::SameLeague => "同联盟"@,
        Failure::MatchFailed => "匹配失败"@,
        Failure::DuplicateTag(a, b) => union_name(a) + "和"@ + union_name(b) + "标签重复"@,
        Failure::NoRecordThisRound => "本轮无对战信息"@,
        Failure::ThisReverseNotSaved => "本方逆转记录失败"@,
        Failure::OtherReverseNotSaved => "对方逆转记录失败"@,
    }
}

impl Failure {
    /// The text that answers a request refused for this reason.
    pub fn message(&self) -> (r: String)
        ensures
            r@ == failure_text(*self),
    {
        match self {
            Failure::MissingApiKey => String::from_str("无联盟信息"),
            Failure::UnknownLeague => String::from_str("非法接入"),
            Failure::MissingThisTag => String::from_str("本方标签缺失"),
            Failure::MissingOtherTag => String::from_str("对方标签缺失"),
            Failure::SameLeague => String::from_str("同联盟"),
            Failure::MatchFailed => String::from_str("匹配失败"),
            Failure::DuplicateTag(a, b) => {
                let mut s = String::from_str(a.debug_name());
                s.append("和");
                s.append(b.debug_name());
                s.append("标签重复");
                s
            },
            Failure::NoRecordThisRound => String::from_str("本轮无对战信息"),
            Failure::ThisReverseNotSaved => String::from_str("本方逆转记录失败"),
            Failure::OtherReverseNotSaved => String::from_str("对方逆转记录失败"),
        }
    }
}

/// Outside work that a request needs done before it can go on.
pub enum Query {
    /// Look up the league that holds a key.
    LeagueByKey { api_key: String },
    /// Look up a league by its id.
    LeagueById { id: i64 },
    /// Look up a clan by tag, in the global or the national server.
    UserByTag { tag: String, is_global: bool },
    /// Look up a clan by its id.
    UserById { id: i64 },
    /// Store a new clan under this name and read it back.
    InsertUser { tag: String, name: String, league_id: i64, is_global: bool },
    /// Ask each of these addresses, in order, which league holds a tag.
    LeagueJsons { urls: Vec<String> },
    /// Look up the latest round.
    LatestRound,
    /// Look up the match entry of a clan in a round.
    RecordByUser { round_id: i64, clan_id: i64 },
    /// Set the score of a clan and read the clan back.
    UpdateScore { id: i64, score: i64 },
    /// Store a match entry; read it back where it was stored (see `Insertion`).
    InsertRecord { record: Record },
    /// Store a reversal entry and read it back.
    InsertReverse { reverse: Reverse },
}

/// What outside work produced, handed back to the request that asked for it.
pub enum Answer {
    League(Option<League>),
    User(Option<User>),
    LeagueJsons(Vec<LeagueJson>),
    Round(Option<Round>),
    Record(Option<Record>),
    RecordInsert(Insertion),
    Reverse(Option<Reverse>),
}

/// What became of storing a match entry: the store refused it (the clan already has an
/// entry in that round), or stored it, with the entry as read back (if it could be).
pub enum Insertion {
    Refused,
    Stored(Option<Record>),
}

/// One step of a request: it asks for outside work and waits in the given state, or it is done.
pub enum Flow<S, T> {
    Ask(S, Query),
    Done(T),
}

} // verus!
