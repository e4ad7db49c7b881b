use middle_data::api::league::{get_leagues, LeaguesFlow};
use middle_data::api::record::{
    get, record_api, result_word, set_record, RecordFlow, RecordOutcome, RecordParam, ResInfo,
};
use middle_data::api::reverse::{reverse_entries, save_reverse, ReverseFlow, ReverseOutcome, ReverseParam};
use middle_data::api::user::{check_state, get_users, league_json_urls, LeagueJson, LeagueJsonUnion, UsersFlow};
use middle_data::api::{Answer, Failure, Flow, Insertion, MiddleResponse, Query, ResMessage};
use middle_data::model::league::League;
use middle_data::model::record::Record;
use middle_data::model::reverse::Reverse;
use middle_data::model::round::Round;
use middle_data::model::user::User;
use middle_data::time::DateTime;

fn user(id: i64, tag: &str, name: Option<&str>, score: i64, league_id: i64) -> User {
    User {
        id,
        tag: tag.to_string(),
        name: name.map(|n| n.to_string()),
        score,
        reverse_count: 0,
        league_id,
        is_global: false,
        create_time: DateTime::epoch(),
        update_time: DateTime::epoch(),
    }
}

fn league(id: i64, name: &str) -> League {
    League { id, name: name.to_string(), api_key: format!("key{id}"), create_time: DateTime::epoch() }
}

fn report(tag: &str, name: &str, state: &str, union: LeagueJsonUnion) -> LeagueJson {
    LeagueJson { tag: tag.to_string(), name: name.to_string(), state: state.to_string(), union }
}

fn record_param(this_tag: Option<&str>, other_tag: Option<&str>, key: Option<&str>) -> RecordParam {
    RecordParam {
        this_tag: this_tag.map(|t| t.to_string()),
        this_name: Some("Home".to_string()),
        other_tag: other_tag.map(|t| t.to_string()),
        other_name: None,
        is_global: None,
        api_key: key.map(|k| k.to_string()),
    }
}

fn time(year: i32, month: u32, day: u32, hour: u32, minute: u32, second: u32) -> DateTime {
    DateTime { year, month, day, hour, minute, second, nanosecond: 0 }
}

#[test]
fn middle_response_codes() {
    let ok = MiddleResponse::success(5);
    assert_eq!(ok.get_code(), 0);
    assert_eq!(ok.get_message(), "Success");
    assert_eq!(ok.into_body(), 5);
    let err = MiddleResponse::error("x");
    assert_eq!(err.get_code(), 1);
    assert_eq!(err.get_message(), "Error");
    assert_eq!(err.into_body(), "x");
}

#[test]
fn failure_messages() {
    assert_eq!(Failure::MissingApiKey.message(), "无联盟信息");
    assert_eq!(Failure::UnknownLeague.message(), "非法接入");
    assert_eq!(Failure::MissingThisTag.message(), "本方标签缺失");
    assert_eq!(Failure::MissingOtherTag.message(), "对方标签缺失");
    assert_eq!(Failure::SameLeague.message(), "同联盟");
    assert_eq!(Failure::MatchFailed.message(), "匹配失败");
    assert_eq!(Failure::DuplicateTag(LeagueJsonUnion::BzLm, LeagueJsonUnion::G).message(), "BzLm和G标签重复");
    assert_eq!(Failure::NoRecordThisRound.message(), "本轮无对战信息");
    assert_eq!(Failure::ThisReverseNotSaved.message(), "本方逆转记录失败");
    assert_eq!(Failure::OtherReverseNotSaved.message(), "对方逆转记录失败");
}

#[test]
fn league_union_numbers() {
    assert_eq!(LeagueJsonUnion::O.num(), 1);
    assert_eq!(LeagueJsonUnion::BzLm.num(), 2);
    assert_eq!(LeagueJsonUnion::G.num(), 3);
    assert_eq!(LeagueJsonUnion::Other.num(), 0);
    assert_eq!(LeagueJsonUnion::default(), LeagueJsonUnion::Other);
    assert_eq!(LeagueJsonUnion::O.debug_name(), format!("{:?}", LeagueJsonUnion::O));
    assert_eq!(LeagueJsonUnion::BzLm.debug_name(), "BzLm");
}

#[test]
fn league_json_urls_for_tag() {
    let urls = league_json_urls("ABC");
    assert_eq!(urls, vec!["http://cocbzlm.com:8422/tag/ABC".to_string(), "http://www.coc-hs.cn/tag/ABC".to_string()]);
}

#[test]
fn check_state_without_usable_report_is_blank() {
    let got = check_state("#ABC", vec![report("#XYZ", "n", "ok", LeagueJsonUnion::G), report("#ABC", "n", "bad", LeagueJsonUnion::O)]);
    match got {
        ResMessage::Success(l) => {
            assert_eq!(l.tag, "#");
            assert_eq!(l.name, "");
            assert_eq!(l.state, "");
            assert_eq!(l.union, LeagueJsonUnion::Other);
        }
        ResMessage::Failed(_) => panic!("no conflict expected"),
    }
}

#[test]
fn check_state_keeps_single_usable_report() {
    let got = check_state("##ABC", vec![report("#ABC", "Clan A", "OK", LeagueJsonUnion::BzLm), report("", "", "", LeagueJsonUnion::Other)]);
    match got {
        ResMessage::Success(l) => {
            assert_eq!(l.tag, "#ABC");
            assert_eq!(l.name, "Clan A");
            assert_eq!(l.state, "OK");
            assert_eq!(l.union, LeagueJsonUnion::BzLm);
        }
        ResMessage::Failed(_) => panic!("no conflict expected"),
    }
}

#[test]
fn check_state_rejects_short_tags() {
    let got = check_state("A", vec![report("#A", "Clan A", "ok", LeagueJsonUnion::O)]);
    match got {
        ResMessage::Success(l) => assert_eq!(l.tag, "#"),
        ResMessage::Failed(_) => panic!("no conflict expected"),
    }
}

#[test]
fn check_state_conflict_between_two_leagues() {
    let got = check_state("ABC", vec![report("#ABC", "a", "ok", LeagueJsonUnion::BzLm), report("#ABC", "b", "Ok", LeagueJsonUnion::G)]);
    match got {
        ResMessage::Failed(f) => {
            assert_eq!(f, Failure::DuplicateTag(LeagueJsonUnion::BzLm, LeagueJsonUnion::G));
            assert_eq!(f.message(), "BzLm和G标签重复");
        }
        ResMessage::Success(_) => panic!("conflict expected"),
    }
}

#[test]
fn settlement_lower_score_wins() {
    let (a, b) = set_record(7, &user(1, "#A", None, 10, 1), &user(2, "#B", None, 20, 2));
    assert_eq!((a.round_id, a.this_clan_id, a.other_clan_id, a.old_score, a.new_score, a.result), (7, 1, 2, 10, 11, 1));
    assert_eq!((b.round_id, b.this_clan_id, b.other_clan_id, b.old_score, b.new_score, b.result), (7, 2, 1, 20, 19, -1));
    assert_eq!(a.id, 0);
    assert_eq!(a.create_time, DateTime::epoch());
}

#[test]
fn settlement_higher_score_loses_and_tie_wins() {
    let (a, b) = set_record(1, &user(1, "#A", None, 30, 1), &user(2, "#B", None, 20, 2));
    assert_eq!((a.new_score, a.result, b.new_score, b.result), (29, -1, 21, 1));
    let (c, d) = set_record(1, &user(1, "#A", None, 5, 1), &user(2, "#B", None, 5, 2));
    assert_eq!((c.new_score, c.result, d.new_score, d.result), (6, 1, 4, -1));
    assert_eq!(c.new_score + d.new_score, 10);
}

#[test]
fn result_words() {
    assert_eq!(result_word(1), "win");
    assert_eq!(result_word(-1), "lose");
    assert_eq!(result_word(0), "failed");
}

#[test]
fn reversal_entries() {
    let (a, b) = reverse_entries(3, &user(1, "#A", None, 11, 1), &user(2, "#B", None, 19, 2), 1);
    assert_eq!((a.this_clan_id, a.this_old_score, a.this_new_score, a.other_clan_id, a.other_old_score, a.other_new_score, a.old_result, a.new_result), (1, 11, 9, 2, 19, 21, 1, -1));
    assert_eq!((b.this_clan_id, b.this_old_score, b.this_new_score, b.other_clan_id, b.other_old_score, b.other_new_score, b.old_result, b.new_result), (2, 19, 21, 1, 11, 9, -1, 1));
    assert_eq!(a.round_id, 3);
    assert_eq!(a.this_new_score + a.other_new_score, 30);
}

#[test]
fn reversal_turns_a_win_into_a_loss() {
    let this = user(1, "#A", None, 10, 1);
    let other = user(2, "#B", None, 20, 2);
    let (s, t) = set_record(1, &this, &other);
    let (a, b) = reverse_entries(1, &user(1, "#A", None, s.new_score, 1), &user(2, "#B", None, t.new_score, 2), s.result);
    assert_eq!(a.this_new_score, 9);
    assert_eq!(b.this_new_score, 21);
}

#[test]
fn record_api_reports_match() {
    let info = ResInfo {
        this_record: Record { id: 5, round_id: 20240501, this_clan_id: 1, other_clan_id: 2, old_score: 10, new_score: 11, result: 1, create_time: time(2024, 5, 1, 8, 9, 10) },
        other_record: Record { id: 6, round_id: 20240501, this_clan_id: 2, other_clan_id: 1, old_score: 20, new_score: 19, result: -1, create_time: time(2024, 5, 1, 8, 9, 10) },
        this_user: user(1, "#A", Some("Alpha"), 11, 1),
        other_user: user(2, "#B", None, 19, 2),
    };
    let api = record_api(info, league(1, "L1"), League::blank());
    assert_eq!(api.time_round, 20240501);
    assert_eq!(api.this_clan.tag, "#A");
    assert_eq!(api.this_clan.name, "Alpha");
    assert_eq!((api.this_clan.old_score, api.this_clan.new_score), (10, 11));
    assert_eq!((api.this_clan.league.id, api.this_clan.league.name.as_str()), (1, "L1"));
    assert_eq!(api.other_clan.name, "None");
    assert_eq!((api.other_clan.old_score, api.other_clan.new_score), (20, 19));
    assert_eq!((api.other_clan.league.id, api.other_clan.league.name.as_str()), (0, ""));
    assert_eq!(api.result, "win");
    assert_eq!(api.create_time, "2024-05-01 08:09:10");
}

#[test]
fn leagues_flow_defaults_missing_league() {
    let Flow::Ask(s, q) = get_leagues(1, 2) else { panic!() };
    assert!(matches!(q, Query::LeagueById { id: 1 }));
    let Flow::Ask(s, q) = s.step(Answer::League(None)) else { panic!() };
    assert!(matches!(q, Query::LeagueById { id: 2 }));
    assert!(matches!(&s, LeaguesFlow::AwaitOther { this_league } if this_league.id == 0));
    let Flow::Done((a, b)) = s.step(Answer::League(Some(league(2, "L2")))) else { panic!() };
    assert_eq!((a.id, b.id, b.name.as_str()), (0, 2, "L2"));
}

fn expect_failure(flow: Flow<RecordFlow, RecordOutcome>) -> Failure {
    match flow {
        Flow::Done(ResMessage::Failed(f)) => f,
        _ => panic!("expected a refusal"),
    }
}

#[test]
fn record_flow_refuses_without_key() {
    assert_eq!(expect_failure(get(record_param(Some("#A"), Some("#B"), None))), Failure::MissingApiKey);
}

#[test]
fn record_flow_refuses_unknown_key() {
    let Flow::Ask(s, q) = get(record_param(Some("#A"), Some("#B"), Some("k"))) else { panic!() };
    assert!(matches!(q, Query::LeagueByKey { api_key } if api_key == "k"));
    assert_eq!(expect_failure(s.step(Answer::League(None))), Failure::UnknownLeague);
}

#[test]
fn record_flow_refuses_missing_tags() {
    let Flow::Ask(s, _) = get(record_param(None, Some("#B"), Some("k"))) else { panic!() };
    assert_eq!(expect_failure(s.step(Answer::League(Some(league(1, "L1"))))), Failure::MissingThisTag);
    let Flow::Ask(s, _) = get(record_param(Some("#A"), None, Some("k"))) else { panic!() };
    assert_eq!(expect_failure(s.step(Answer::League(Some(league(1, "L1"))))), Failure::MissingOtherTag);
}

fn ask(flow: Flow<RecordFlow, RecordOutcome>) -> (RecordFlow, Query) {
    match flow {
        Flow::Ask(s, q) => (s, q),
        Flow::Done(_) => panic!("expected a query"),
    }
}

#[test]
fn record_flow_settles_new_match() {
    let (s, _) = ask(get(record_param(Some("#A"), Some("#B"), Some("k"))));
    let (s, q) = ask(s.step(Answer::League(Some(league(1, "L1")))));
    assert!(matches!(q, Query::UserByTag { tag, is_global: false } if tag == "#A"));
    let (s, q) = ask(s.step(Answer::User(None)));
    assert!(matches!(q, Query::InsertUser { tag, name, league_id: 1, is_global: false } if tag == "#A" && name == "Home"));
    let (s, q) = ask(s.step(Answer::User(Some(user(1, "#A", Some("Home"), 10, 1)))));
    assert!(matches!(q, Query::UserByTag { tag, .. } if tag == "#B"));
    let (s, q) = ask(s.step(Answer::User(Some(user(2, "#B", None, 20, 2)))));
    assert!(matches!(q, Query::LatestRound));
    let (s, q) = ask(s.step(Answer::Round(Some(Round { id: 20240501, time: DateTime::epoch(), create_time: DateTime::epoch(), update_time: DateTime::epoch() }))));
    assert!(matches!(q, Query::RecordByUser { round_id: 20240501, clan_id: 1 }));
    let (s, q) = ask(s.step(Answer::Record(None)));
    assert!(matches!(q, Query::RecordByUser { round_id: 20240501, clan_id: 2 }));
    let (s, q) = ask(s.step(Answer::Record(None)));
    assert!(matches!(q, Query::LatestRound));
    assert!(s.accepts_answer(&Answer::Round(None)));
    let (s, q) = ask(s.step(Answer::Round(None)));
    assert!(matches!(q, Query::UpdateScore { id: 1, score: 11 }));
    let (s, q) = ask(s.step(Answer::User(None)));
    assert!(matches!(q, Query::UpdateScore { id: 2, score: 19 }));
    let (s, q) = ask(s.step(Answer::User(None)));
    let Query::InsertRecord { record } = q else { panic!() };
    assert_eq!((record.round_id, record.this_clan_id, record.new_score, record.result), (0, 1, 11, 1));
    let saved = Record { id: 9, create_time: time(2024, 5, 1, 21, 0, 0), ..record };
    let (s, q) = ask(s.step(Answer::RecordInsert(Insertion::Stored(Some(saved)))));
    let Query::InsertRecord { record } = q else { panic!() };
    assert_eq!((record.this_clan_id, record.new_score, record.result), (2, 19, -1));
    let (s, q) = ask(s.step(Answer::RecordInsert(Insertion::Stored(None))));
    assert!(matches!(q, Query::LeagueById { id: 1 }));
    let (s, q) = ask(s.step(Answer::League(Some(league(1, "L1")))));
    assert!(matches!(q, Query::LeagueById { id: 2 }));
    let Flow::Done(ResMessage::Success(api)) = s.step(Answer::League(Some(league(2, "L2")))) else { panic!() };
    assert_eq!(api.time_round, 0);
    assert_eq!(api.result, "win");
    assert_eq!(api.create_time, "2024-05-01 21:00:00");
    assert_eq!((api.this_clan.tag.as_str(), api.this_clan.name.as_str(), api.this_clan.old_score, api.this_clan.new_score), ("#A", "Home", 10, 11));
    assert_eq!((api.other_clan.old_score, api.other_clan.new_score), (0, 0));
    assert_eq!(api.other_clan.league.name, "L2");
}

#[test]
fn record_flow_reports_already_settled_match() {
    let (s, _) = ask(get(record_param(Some("#A"), Some("#B"), Some("k"))));
    let (s, _) = ask(s.step(Answer::League(Some(league(1, "L1")))));
    let (s, _) = ask(s.step(Answer::User(Some(user(1, "#A", None, 11, 1)))));
    let (s, _) = ask(s.step(Answer::User(Some(user(2, "#B", None, 19, 2)))));
    let (s, _) = ask(s.step(Answer::Round(None)));
    let mine = Record { id: 3, round_id: 0, this_clan_id: 1, other_clan_id: 2, old_score: 10, new_score: 11, result: 1, create_time: DateTime::epoch() };
    let theirs = Record { id: 4, round_id: 0, this_clan_id: 2, other_clan_id: 1, old_score: 20, new_score: 19, result: -1, create_time: DateTime::epoch() };
    let (s, _) = ask(s.step(Answer::Record(Some(mine))));
    let (s, q) = ask(s.step(Answer::Record(Some(theirs))));
    assert!(matches!(q, Query::LeagueById { id: 1 }));
    let (s, _) = ask(s.step(Answer::League(None)));
    let Flow::Done(ResMessage::Success(api)) = s.step(Answer::League(None)) else { panic!() };
    assert_eq!((api.this_clan.old_score, api.this_clan.new_score, api.other_clan.new_score), (10, 11, 19));
    assert_eq!(api.create_time, "1970-01-01 00:00:00");
}

fn users_after(other: Option<User>, reports: Vec<LeagueJson>) -> Flow<UsersFlow, ResMessage<(User, User), Failure>> {
    let Flow::Ask(s, _) = get_users(record_param(Some("#A"), Some("##ABC"), Some("k")), league(2, "BZ")) else { panic!() };
    let Flow::Ask(s, _) = s.step(Answer::User(Some(user(1, "#A", None, 0, 2)))) else { panic!() };
    let Flow::Ask(s, q) = s.step(Answer::User(other)) else { panic!() };
    let Query::LeagueJsons { urls } = q else { panic!() };
    assert_eq!(urls[0], "http://cocbzlm.com:8422/tag/ABC");
    s.step(Answer::LeagueJsons(reports))
}

#[test]
fn users_flow_refuses_opponent_of_same_league() {
    let r = users_after(None, vec![report("#ABC", "x", "ok", LeagueJsonUnion::BzLm)]);
    assert!(matches!(r, Flow::Done(ResMessage::Failed(Failure::SameLeague))));
}

#[test]
fn users_flow_refuses_unmatched_opponent() {
    let r = users_after(None, vec![report("#XYZ", "x", "ok", LeagueJsonUnion::G)]);
    assert!(matches!(r, Flow::Done(ResMessage::Failed(Failure::MatchFailed))));
}

#[test]
fn users_flow_refuses_conflicting_reports() {
    let r = users_after(None, vec![report("#ABC", "x", "ok", LeagueJsonUnion::O), report("#ABC", "y", "ok", LeagueJsonUnion::G)]);
    assert!(matches!(r, Flow::Done(ResMessage::Failed(Failure::DuplicateTag(LeagueJsonUnion::O, LeagueJsonUnion::G)))));
}

#[test]
fn users_flow_registers_reported_opponent() {
    let r = users_after(None, vec![report("#ABC", "Gamma", "OK", LeagueJsonUnion::G)]);
    let Flow::Ask(s, q) = r else { panic!() };
    assert!(matches!(q, Query::InsertUser { tag, name, league_id: 3, is_global: false } if tag == "#ABC" && name == "Gamma"));
    let Flow::Done(ResMessage::Success((a, b))) = s.step(Answer::User(None)) else { panic!() };
    assert_eq!(a.id, 1);
    assert_eq!((b.id, b.tag.as_str(), b.name.is_none()), (0, "", true));
}

fn reverse_param(round_id: Option<i64>) -> ReverseParam {
    ReverseParam { round_id, this_tag: Some("#A".to_string()), other_tag: Some("#B".to_string()), is_global: Some(true), api_key: Some("k".to_string()) }
}

fn rask(flow: Flow<ReverseFlow, ReverseOutcome>) -> (ReverseFlow, Query) {
    match flow {
        Flow::Ask(s, q) => (s, q),
        Flow::Done(_) => panic!("expected a query"),
    }
}

fn rfail(flow: Flow<ReverseFlow, ReverseOutcome>) -> Failure {
    match flow {
        Flow::Done(ResMessage::Failed(f)) => f,
        _ => panic!("expected a refusal"),
    }
}

#[test]
fn reverse_flow_refusals() {
    assert_eq!(rfail(middle_data::api::reverse::set(ReverseParam { api_key: None, ..reverse_param(Some(1)) })), Failure::MissingApiKey);
    let (s, _) = rask(middle_data::api::reverse::set(reverse_param(Some(1))));
    assert_eq!(rfail(s.step(Answer::League(None))), Failure::UnknownLeague);
    let (s, _) = rask(save_reverse(reverse_param(None)));
    let (s, _) = rask(s.step(Answer::User(None)));
    let (s, q) = rask(s.step(Answer::User(None)));
    assert!(matches!(q, Query::RecordByUser { round_id: 0, clan_id: 0 }));
    assert_eq!(rfail(s.step(Answer::Record(None))), Failure::NoRecordThisRound);
}

fn stored(entry: Reverse, id: i64) -> Reverse {
    Reverse { id, ..entry }
}

#[test]
fn reverse_flow_completes() {
    let (s, _) = rask(middle_data::api::reverse::set(reverse_param(Some(20240501))));
    let (s, q) = rask(s.step(Answer::League(Some(league(1, "L1")))));
    assert!(matches!(q, Query::UserByTag { tag, is_global: true } if tag == "#A"));
    let (s, q) = rask(s.step(Answer::User(Some(user(1, "#A", None, 11, 1)))));
    assert!(matches!(q, Query::UserByTag { tag, is_global: true } if tag == "#B"));
    let (s, q) = rask(s.step(Answer::User(Some(user(2, "#B", None, 19, 2)))));
    assert!(matches!(q, Query::RecordByUser { round_id: 20240501, clan_id: 1 }));
    let rec = Record { id: 3, round_id: 20240501, this_clan_id: 1, other_clan_id: 2, old_score: 10, new_score: 11, result: 1, create_time: DateTime::epoch() };
    let (s, q) = rask(s.step(Answer::Record(Some(rec))));
    let Query::InsertReverse { reverse: mine } = q else { panic!() };
    assert_eq!((mine.this_new_score, mine.other_new_score), (9, 21));
    let (s, q) = rask(s.step(Answer::Reverse(Some(stored(mine, 40)))));
    assert!(matches!(q, Query::UpdateScore { id: 1, score: 9 }));
    let (s, q) = rask(s.step(Answer::User(None)));
    let Query::InsertReverse { reverse: theirs } = q else { panic!() };
    assert_eq!((theirs.this_clan_id, theirs.this_new_score, theirs.other_new_score), (2, 21, 9));
    let (s, q) = rask(s.step(Answer::Reverse(Some(stored(theirs, 41)))));
    assert!(matches!(q, Query::UpdateScore { id: 2, score: 21 }));
    let Flow::Done(ResMessage::Success(api)) = s.step(Answer::User(None)) else { panic!() };
    assert_eq!(api.round_id, 20240501);
    assert!(api.is_global);
    assert_eq!((api.this_clan.id, api.this_clan.old_score, api.this_clan.new_score), (40, 11, 9));
    assert_eq!((api.other_clan.id, api.other_clan.old_score, api.other_clan.new_score), (41, 11, 9));
}

#[test]
fn reverse_flow_refuses_unsaved_entries() {
    let (s, _) = rask(save_reverse(reverse_param(None)));
    let (s, _) = rask(s.step(Answer::User(Some(user(1, "#A", None, 11, 1)))));
    let (s, _) = rask(s.step(Answer::User(Some(user(2, "#B", None, 19, 2)))));
    let rec = Record { id: 3, round_id: 0, this_clan_id: 1, other_clan_id: 2, old_score: 12, new_score: 11, result: -1, create_time: DateTime::epoch() };
    let (s2, q) = rask(s.step(Answer::Record(Some(rec))));
    let Query::InsertReverse { reverse: mine } = q else { panic!() };
    assert_eq!((mine.this_new_score, mine.other_new_score), (13, 17));
    assert_eq!(rfail(s2.step(Answer::Reverse(None))), Failure::ThisReverseNotSaved);
    let (s, _) = rask(save_reverse(reverse_param(None)));
    let (s, _) = rask(s.step(Answer::User(None)));
    let (s, _) = rask(s.step(Answer::User(None)));
    let (s, _) = rask(s.step(Answer::Record(Some(rec))));
    let (s, _) = rask(s.step(Answer::Reverse(Some(mine))));

    let (s, _) = rask(s.step(Answer::User(None)));
    assert_eq!(rfail(s.step(Answer::Reverse(None))), Failure::OtherReverseNotSaved);
}

#[test]
fn reverse_flow_rejects_overflowing_result() {
    let (s, _) = rask(save_reverse(reverse_param(None)));
    let (s, _) = rask(s.step(Answer::User(Some(user(1, "#A", None, i64::MIN + 1, 1)))));
    let (s, _) = rask(s.step(Answer::User(None)));
    let rec = Record { id: 3, round_id: 0, this_clan_id: 1, other_clan_id: 2, old_score: 0, new_score: 0, result: 1, create_time: DateTime::epoch() };
    assert!(!s.accepts_answer(&Answer::Record(Some(rec))));
    assert!(s.accepts_answer(&Answer::Record(None)));
}


#[test]
fn users_flow_registers_unnamed_clan_as_new_clan() {
    let param = RecordParam { this_name: None, ..record_param(Some("#A"), Some("#B"), Some("k")) };
    let Flow::Ask(s, _) = get_users(param, league(4, "L4")) else { panic!() };
    let Flow::Ask(_, q) = s.step(Answer::User(None)) else { panic!() };
    assert!(matches!(q, Query::InsertUser { tag, name, league_id: 4, is_global: false } if tag == "#A" && name == "New Clan"));
}

#[test]
fn record_flow_reads_entry_that_store_refused() {
    let (s, _) = ask(get(record_param(Some("#A"), Some("#B"), Some("k"))));
    let (s, _) = ask(s.step(Answer::League(Some(league(1, "L1")))));
    let (s, _) = ask(s.step(Answer::User(Some(user(1, "#A", None, 10, 1)))));
    let (s, _) = ask(s.step(Answer::User(Some(user(2, "#B", None, 20, 2)))));
    let round = Round { id: 7, time: DateTime::epoch(), create_time: DateTime::epoch(), update_time: DateTime::epoch() };
    let (s, _) = ask(s.step(Answer::Round(Some(round))));
    let (s, _) = ask(s.step(Answer::Record(None)));
    let (s, _) = ask(s.step(Answer::Record(None)));
    let (s, _) = ask(s.step(Answer::Round(Some(round))));
    let (s, _) = ask(s.step(Answer::User(None)));
    let (s, _) = ask(s.step(Answer::User(None)));
    let (s, q) = ask(s.step(Answer::RecordInsert(Insertion::Refused)));
    assert!(matches!(q, Query::RecordByUser { round_id: 7, clan_id: 1 }));
    let existing = Record { id: 30, round_id: 7, this_clan_id: 1, other_clan_id: 2, old_score: 9, new_score: 10, result: 1, create_time: DateTime::epoch() };
    let (s, q) = ask(s.step(Answer::Record(Some(existing))));
    assert!(matches!(q, Query::InsertRecord { record } if record.this_clan_id == 2));
    assert!(!s.accepts_answer(&Answer::Record(None)));
    let (s, q) = ask(s.step(Answer::RecordInsert(Insertion::Refused)));
    assert!(matches!(q, Query::RecordByUser { round_id: 7, clan_id: 2 }));
    let (s, q) = ask(s.step(Answer::Record(None)));
    assert!(matches!(q, Query::LeagueById { id: 1 }));
    let (s, _) = ask(s.step(Answer::League(None)));
    let Flow::Done(ResMessage::Success(api)) = s.step(Answer::League(None)) else { panic!() };
    assert_eq!((api.time_round, api.this_clan.old_score, api.this_clan.new_score), (7, 9, 10));
    assert_eq!((api.other_clan.old_score, api.other_clan.new_score), (0, 0));
}

#[test]
fn reverse_flow_with_reporting_tag_only() {
    let param = ReverseParam { other_tag: None, ..reverse_param(Some(20240501)) };
    let (s, q) = rask(save_reverse(param));
    assert!(matches!(q, Query::UserByTag { tag, is_global: true } if tag == "#A"));
    let (s, q) = rask(s.step(Answer::User(Some(user(1, "#A", None, 11, 1)))));
    assert!(matches!(q, Query::RecordByUser { round_id: 20240501, clan_id: 1 }));
    let rec = Record { id: 3, round_id: 20240501, this_clan_id: 1, other_clan_id: 2, old_score: 10, new_score: 11, result: 1, create_time: DateTime::epoch() };
    let (s, q) = rask(s.step(Answer::Record(Some(rec))));
    assert!(matches!(q, Query::UserById { id: 2 }));
    let (s, q) = rask(s.step(Answer::User(Some(user(2, "#B", None, 19, 2)))));
    let Query::InsertReverse { reverse: mine } = q else { panic!() };
    assert_eq!((mine.this_clan_id, mine.this_new_score, mine.other_clan_id, mine.other_new_score), (1, 9, 2, 21));
    let (s, q) = rask(s.step(Answer::Reverse(Some(stored(mine, 50)))));
    assert!(matches!(q, Query::UpdateScore { id: 1, score: 9 }));
    let (s, q) = rask(s.step(Answer::User(None)));
    let Query::InsertReverse { reverse: theirs } = q else { panic!() };
    let (s, q) = rask(s.step(Answer::Reverse(Some(stored(theirs, 51)))));
    assert!(matches!(q, Query::UpdateScore { id: 2, score: 21 }));
    let Flow::Done(ResMessage::Success(api)) = s.step(Answer::User(None)) else { panic!() };
    assert_eq!((api.this_clan.id, api.this_clan.new_score, api.other_clan.id), (50, 9, 51));
}

#[test]
fn reverse_flow_with_opposing_tag_only() {
    let param = ReverseParam { this_tag: None, ..reverse_param(Some(20240501)) };
    let (s, q) = rask(save_reverse(param));
    assert!(matches!(q, Query::UserByTag { tag, is_global: true } if tag == "#B"));
    let (s, q) = rask(s.step(Answer::User(Some(user(2, "#B", None, 19, 2)))));
    assert!(matches!(q, Query::RecordByUser { round_id: 20240501, clan_id: 2 }));
    let rec = Record { id: 4, round_id: 20240501, this_clan_id: 2, other_clan_id: 1, old_score: 20, new_score: 19, result: -1, create_time: DateTime::epoch() };
    let (s, q) = rask(s.step(Answer::Record(Some(rec))));
    assert!(matches!(q, Query::UserById { id: 1 }));
    let (_, q) = rask(s.step(Answer::User(Some(user(1, "#A", None, 11, 1)))));
    let Query::InsertReverse { reverse: mine } = q else { panic!() };
    assert_eq!((mine.this_clan_id, mine.this_new_score, mine.other_clan_id, mine.other_new_score, mine.old_result), (1, 9, 2, 21, 1));
}

#[test]
fn reverse_flow_with_one_tag_needs_an_entry() {
    let (s, _) = rask(save_reverse(ReverseParam { other_tag: None, ..reverse_param(None) }));
    let (s, q) = rask(s.step(Answer::User(None)));
    assert!(matches!(q, Query::RecordByUser { round_id: 0, clan_id: 0 }));
    assert_eq!(rfail(s.step(Answer::Record(None))), Failure::NoRecordThisRound);
}

#[test]
fn reverse_flow_without_tags_is_refused() {
    assert_eq!(rfail(save_reverse(ReverseParam { this_tag: None, other_tag: None, ..reverse_param(None) })), Failure::MissingThisTag);
}
