use vstd::prelude::*;
use vstd::utf8::encode_utf8;

use crate::api::record::RecordParam;
use crate::api::{Answer, Failure, Flow, Query, ResMessage};
use crate::model::league::League;
use crate::model::user::User;
use crate::text::{lowercase, to_lowercase, trim_leading, trim_start_char};

verus! {

/// The league that a clan-lookup service reports a clan in.
#[derive(Debug, PartialEq, Eq, Structural, Clone, Copy)]
pub enum LeagueJsonUnion {
    O,
    BzLm,
    G,
    Other,
}

/// The league id of each reported league: 1, 2, 3, and 0 for any other.
pub open spec fn union_number(u: LeagueJsonUnion) -> i64 {
    match u {
        LeagueJsonUnion::O => 1,
        LeagueJsonUnion::BzLm => 2,
        LeagueJsonUnion::G => 3,
        LeagueJsonUnion::Other => 0,
    }
}

/// The name of each reported league, as its debug form writes it.
pub open spec fn union_name(u: LeagueJsonUnion) -> Seq<char> {
    match u {
        LeagueJsonUnion::O => "O"@,
        LeagueJsonUnion::BzLm => "BzLm"@,
        LeagueJsonUnion::G => "G"@,
        LeagueJsonUnion::Other => "Other"@,
    }
}

impl LeagueJsonUnion {
    /// The league id of the reported league.
    pub fn num(&self) -> (r: i64)
        ensures
            r == union_number(*self),
    {
        match self {
            LeagueJsonUnion::O => 1,
            LeagueJsonUnion::BzLm => 2,
            LeagueJsonUnion::G => 3,
            LeagueJsonUnion::Other => 0,
        }
    }

    /// The name of the reported league.
    pub fn debug_name(&self) -> (r: &'static str)
        ensures
            r@ == union_name(*self),
    {
        match self {
            LeagueJsonUnion::O => "O",
            LeagueJsonUnion::BzLm => "BzLm",
            LeagueJsonUnion::G => "G",
            LeagueJsonUnion::Other => "Other",
        }
    }
}

impl Default for LeagueJsonUnion {
    fn default() -> (r: LeagueJsonUnion)
        ensures
            r == LeagueJsonUnion::Other,
    {
        LeagueJsonUnion::Other
    }
}

/// What a clan-lookup service reports of a tag.
pub struct LeagueJson {
    pub tag: String,
    pub name: String,
    pub state: String,
    pub union: LeagueJsonUnion,
}

/// The texts and league of a report.
pub struct LeagueJsonView {
    pub tag: Seq<char>,
    pub name: Seq<char>,
    pub state: Seq<char>,
    pub union: LeagueJsonUnion,
}

impl View for LeagueJson {
    type V = LeagueJsonView;

    open spec fn view(&self) -> LeagueJsonView {
        LeagueJsonView { tag: self.tag@, name: self.name@, state: self.state@, union: self.union }
    }
}

/// The views of a list of reports.
pub open spec fn report_views(js: Seq<LeagueJson>) -> Seq<LeagueJsonView> {
    js.map_values(|l: LeagueJson| l@)
}

/// The report that stands for "nothing usable": empty texts, another league.
pub open spec fn blank_report() -> LeagueJsonView {
    LeagueJsonView {
        tag: Seq::empty(),
        name: Seq::empty(),
        state: Seq::empty(),
        union: LeagueJsonUnion::Other,
    }
}

/// The number of bytes of a text in UTF-8, as `str::len` reports it.
pub open spec fn byte_len(s: Seq<char>) -> usize {
    encode_utf8(s).len() as usize
}

/// A report is usable for the tag `t` (given without its leading '#'): it is about
/// `#t`, its state reads "ok" in any case, and its tag is at least three bytes long.
pub open spec fn usable(t: Seq<char>, l: LeagueJsonView) -> bool {
    &&& l.tag == seq!['#'] + t
    &&& lowercase(l.state) == "ok"@
    &&& byte_len(l.tag) >= 3
}

/// Reading the reports in order: the first usable one is kept, and a second usable one
/// is a conflict between the two leagues.
pub open spec fn scan_reports(
    t: Seq<char>,
    js: Seq<LeagueJsonView>,
    kept: Option<LeagueJsonView>,
) -> Result<Option<LeagueJsonView>, Failure>
    decreases js.len(),
{
    if js.len() == 0 {
        Ok(kept)
    } else if !usable(t, js[0]) {
        scan_reports(t, js.drop_first(), kept)
    } else {
        match kept {
            Some(k) => Err(Failure::DuplicateTag(k.union, js[0].union)),
            None => scan_reports(t, js.drop_first(), Some(js[0])),
        }
    }
}

/// A report with its tag written as '#' followed by the tag without leading '#'.
pub open spec fn normalized(l: LeagueJsonView) -> LeagueJsonView {
    LeagueJsonView { tag: seq!['#'] + trim_leading(l.tag, '#'), ..l }
}

/// The report that `check_state` settles on for `tag`: the single usable report, or the
/// blank report where none is usable, with its tag normalized; a conflict where two are.
pub open spec fn state_check(tag: Seq<char>, js: Seq<LeagueJsonView>) -> Result<
    LeagueJsonView,
    Failure,
> {
    match scan_reports(trim_leading(tag, '#'), js, None) {
        Err(f) => Err(f),
        Ok(Some(l)) => Ok(normalized(l)),
        Ok(None) => Ok(normalized(blank_report())),
    }
}

proof fn lemma_scan_none_usable(t: Seq<char>, js: Seq<LeagueJsonView>, kept: Option<LeagueJsonView>)
    requires
        forall|i: int| 0 <= i < js.len() ==> !usable(t, #[trigger] js[i]),
    ensures
        scan_reports(t, js, kept) == Ok::<Option<LeagueJsonView>, Failure>(kept),
    decreases js.len(),
{
    if js.len() > 0 {
        assert(!usable(t, js[0]));
        assert forall|i: int| 0 <= i < js.drop_first().len() implies !usable(
            t,
            #[trigger] js.drop_first()[i],
        ) by {
            assert(js.drop_first()[i] == js[i + 1]);
        }
        lemma_scan_none_usable(t, js.drop_first(), kept);
    }
}

proof fn lemma_scan_kept_conflicts(t: Seq<char>, js: Seq<LeagueJsonView>, k: LeagueJsonView, i: int)
    requires
        0 <= i < js.len(),
        usable(t, js[i]),
    ensures
        scan_reports(t, js, Some(k)) is Err,
    decreases js.len(),
{
    if !usable(t, js[0]) {
        assert(js.drop_first()[i - 1] == js[i]);
        lemma_scan_kept_conflicts(t, js.drop_first(), k, i - 1);
    }
}

proof fn lemma_scan_two_conflict(t: Seq<char>, js: Seq<LeagueJsonView>, i: int, j: int)
    requires
        0 <= i < j < js.len(),
        usable(t, js[i]),
        usable(t, js[j]),
    ensures
        scan_reports(t, js, None) is Err,
    decreases js.len(),
{
    assert(js.drop_first()[j - 1] == js[j]);
    if usable(t, js[0]) {
        lemma_scan_kept_conflicts(t, js.drop_first(), js[0], j - 1);
    } else {
        assert(js.drop_first()[i - 1] == js[i]);
        lemma_scan_two_conflict(t, js.drop_first(), i - 1, j - 1);
    }
}

proof fn lemma_scan_single(t: Seq<char>, js: Seq<LeagueJsonView>, i: int)
    requires
        0 <= i < js.len(),
        usable(t, js[i]),
        forall|j: int| 0 <= j < js.len() && j != i ==> !usable(t, #[trigger] js[j]),
    ensures
        scan_reports(t, js, None) == Ok::<Option<LeagueJsonView>, Failure>(Some(js[i])),
    decreases js.len(),
{
    let rest = js.drop_first();
    if i == 0 {
        assert forall|j: int| 0 <= j < rest.len() implies !usable(t, #[trigger] rest[j]) by {
            assert(rest[j] == js[j + 1]);
        }
        lemma_scan_none_usable(t, rest, Some(js[0]));
    } else {
        assert(!usable(t, js[0]));
        assert(rest[i - 1] == js[i]);
        assert forall|j: int| 0 <= j < rest.len() && j != i - 1 implies !usable(
            t,
            #[trigger] rest[j],
        ) by {
            assert(rest[j] == js[j + 1]);
        }
        lemma_scan_single(t, rest, i - 1);
    }
}

/// What `check_state` settles on, for the tag `tag` and the reports `js`: two usable
/// reports (see `usable`) are a conflict, and nothing else is; a single usable report
/// is the result, with its tag normalized; without one, the blank report with the tag
/// "#" is the result.
pub proof fn state_check_settles_on_the_single_usable_report(tag: Seq<char>, js: Seq<LeagueJsonView>)
    ensures
        state_check(tag, js) is Err <==> exists|i: int, j: int|
            0 <= i < j < js.len() && usable(trim_leading(tag, '#'), #[trigger] js[i]) && usable(
                trim_leading(tag, '#'),
                #[trigger] js[j],
            ),
        (forall|i: int| 0 <= i < js.len() ==> !usable(trim_leading(tag, '#'), #[trigger] js[i]))
            ==> state_check(tag, js) == Ok::<LeagueJsonView, Failure>(
            normalized(blank_report()),
        ),
        forall|i: int|
            0 <= i < js.len() && usable(trim_leading(tag, '#'), #[trigger] js[i]) && (forall|j: int|
                0 <= j < js.len() && j != i ==> !usable(trim_leading(tag, '#'), #[trigger] js[j]))
                ==> state_check(tag, js) == Ok::<LeagueJsonView, Failure>(normalized(js[i])),
{
    let t = trim_leading(tag, '#');
    assert forall|i: int|
        0 <= i < js.len() && usable(t, #[trigger] js[i]) && (forall|j: int|
            0 <= j < js.len() && j != i ==> !usable(t, #[trigger] js[j])) implies state_check(
        tag,
        js,
    ) == Ok::<LeagueJsonView, Failure>(normalized(js[i])) by {
        lemma_scan_single(t, js, i);
    }
    if exists|i: int, j: int|
        0 <= i < j < js.len() && usable(t, #[trigger] js[i]) && usable(t, #[trigger] js[j]) {
        let (i, j) = choose|i: int, j: int|
            0 <= i < j < js.len() && usable(t, #[trigger] js[i]) && usable(t, #[trigger] js[j]);
        lemma_scan_two_conflict(t, js, i, j);
    } else if exists|i: int| 0 <= i < js.len() && usable(t, #[trigger] js[i]) {
        let i = choose|i: int| 0 <= i < js.len() && usable(t, #[trigger] js[i]);
        assert forall|j: int| 0 <= j < js.len() && j != i implies !usable(t, #[trigger] js[j]) by {
            if usable(t, js[j]) {
                if i < j {
                    assert(0 <= i < j < js.len() && usable(t, js[i]) && usable(t, js[j]));
                } else {
                    assert(0 <= j < i < js.len() && usable(t, js[j]) && usable(t, js[i]));
                }
            }
        }
        lemma_scan_single(t, js, i);
    } else {
        lemma_scan_none_usable(t, js, None);
    }
    if forall|i: int| 0 <= i < js.len() ==> !usable(t, #[trigger] js[i]) {
        lemma_scan_none_usable(t, js, None);
    }
}

/// An exact copy of a report.
fn copy_report(l: &LeagueJson) -> (r: LeagueJson)
    ensures
        r == *l,
{
    LeagueJson { tag: l.tag.clone(), name: l.name.clone(), state: l.state.clone(), union: l.union }
}

proof fn lemma_scan_step(t: Seq<char>, js: Seq<LeagueJsonView>, i: int, kept: Option<LeagueJsonView>)
    requires
        0 <= i < js.len(),
    ensures
        js.skip(i).drop_first() == js.skip(i + 1),
        js.skip(i)[0] == js[i],
        js.skip(i).len() > 0,
        scan_reports(t, js.skip(i), kept) == (if !usable(t, js[i]) {
            scan_reports(t, js.skip(i + 1), kept)
        } else {
            match kept {
                Some(k) => Err(Failure::DuplicateTag(k.union, js[i].union)),
                None => scan_reports(t, js.skip(i + 1), Some(js[i])),
            }
        }),
{
    assert(js.skip(i).drop_first() =~= js.skip(i + 1));
}

/// Settles which league holds `tag` from the reports of the lookup services
/// (see `state_check`).
pub fn check_state(tag: &str, league_jsons: Vec<LeagueJson>) -> (r: ResMessage<LeagueJson, Failure>)
    ensures
        match r {
            ResMessage::Success(l) => state_check(tag@, report_views(league_jsons@)) == Ok::<
                LeagueJsonView,
                Failure,
            >(l@),
            ResMessage::Failed(f) => state_check(tag@, report_views(league_jsons@)) == Err::<
                LeagueJsonView,
                Failure,
            >(f),
        },
{
    let trimmed = trim_start_char(tag, '#');
    let ghost t = trimmed@;
    let ghost js = report_views(league_jsons@);
    let mut wanted = String::from_str("#");
    wanted.append(trimmed);
    let ok = String::from_str("ok");
    proof {
        reveal_strlit("#");
        reveal_strlit("ok");
        assert(wanted@ =~= seq!['#'] + t);
        assert(js.skip(0) =~= js);
    }
    let mut league = LeagueJson {
        tag: String::new(),
        name: String::new(),
        state: String::new(),
        union: LeagueJsonUnion::Other,
    };
    let ghost mut kept: Option<LeagueJsonView> = None;
    let n = league_jsons.len();
    for i in 0..n
        invariant
            n == league_jsons.len(),
            js == report_views(league_jsons@),
            t == trim_leading(tag@, '#'),
            wanted@ == seq!['#'] + t,
            ok@ == "ok"@,
            scan_reports(t, js.skip(i as int), kept) == scan_reports(t, js, None),
            kept matches Some(k) ==> league@ == k && usable(t, k),
            kept is None ==> league@ == blank_report(),
    {
        let lea = &league_jsons[i];
        proof {
            lemma_scan_step(t, js, i as int, kept);
            assert(js[i as int] == lea@);
        }
        let ghost prev = kept;
        let lowered = to_lowercase(lea.state.as_str());
        if lea.tag == wanted && lowered == ok && lea.tag.as_str().len() >= 3 {
            assert(usable(t, lea@));
            if lea.tag == league.tag {
                proof {
                    if kept is None {
                        assert(lea.tag@.len() > 0);
                        assert(false);
                    }
                }
                return ResMessage::Failed(Failure::DuplicateTag(league.union, lea.union));
            }
            proof {
                if kept is Some {
                    assert(false);
                }
            }
            league = copy_report(lea);
            proof {
                kept = Some(lea@);
            }
        } else {
            assert(!usable(t, lea@));
        }
        assert(scan_reports(t, js.skip(i + 1), kept) == scan_reports(t, js.skip(i as int), prev));
    }
    proof {
        assert(js.skip(n as int) =~= Seq::<LeagueJsonView>::empty());
        assert(scan_reports(t, js, None) == Ok::<Option<LeagueJsonView>, Failure>(kept));
    }
    let ghost before = league@;
    let mut normal = String::from_str("#");
    normal.append(trim_start_char(league.tag.as_str(), '#'));
    league.tag = normal;
    proof {
        reveal_strlit("#");
        assert(league.tag@ =~= seq!['#'] + trim_leading(before.tag, '#'));
        assert(league@ == normalized(before));
        assert(before == match kept {
            Some(k) => k,
            None => blank_report(),
        });
    }
    ResMessage::Success(league)
}

/// The addresses of the lookup services, asked in this order, for a tag given without '#'.
pub open spec fn league_json_addresses(tag: Seq<char>) -> Seq<Seq<char>> {
    seq!["http://cocbzlm.com:8422/tag/"@ + tag, "http://www.coc-hs.cn/tag/"@ + tag]
}

/// The addresses at which the lookup services are asked about `tag`.
pub fn league_json_urls(tag: &str) -> (r: Vec<String>)
    ensures
        r@.map_values(|u: String| u@) == league_json_addresses(tag@),
{
    let mut bz_url = String::from_str("http://cocbzlm.com:8422/tag/");
    bz_url.append(tag);
    let mut gm_url = String::from_str("http://www.coc-hs.cn/tag/");
    gm_url.append(tag);
    let mut urls: Vec<String> = Vec::new();
    urls.push(bz_url);
    urls.push(gm_url);
    assert(urls@.map_values(|u: String| u@) =~= league_json_addresses(tag@));
    urls
}

/// What a clan lookup works with: the reporting league, both tags, the reporting clan's
/// name, and the server.
pub struct UsersQuery {
    pub league: League,
    pub this_tag: String,
    pub this_name: Option<String>,
    pub other_tag: String,
    pub is_global: bool,
}

/// The name under which a clan is registered: the given name, or "New Clan".
pub open spec fn registered_name(name: Option<String>) -> Seq<char> {
    match name {
        Some(n) => n@,
        None => "New Clan"@,
    }
}

/// The stages of finding (or registering) both clans of a reported match.
pub enum UsersFlow {
    /// Looking up the reporting clan.
    AwaitThis { q: UsersQuery },
    /// Registering the reporting clan, which was not found.
    AwaitThisInsert { q: UsersQuery },
    /// Looking up the opposing clan.
    AwaitOther { q: UsersQuery, this: User },
    /// Asking the lookup services about the opposing clan, which was not found.
    AwaitJsons { q: UsersQuery, this: User },
    /// Registering the opposing clan.
    AwaitOtherInsert { q: UsersQuery, this: User },
}

/// The result of a clan lookup: both clans, or why the match is refused.
pub type UsersOutcome = ResMessage<(User, User), Failure>;

/// The first step of looking up the clans of `param` for `league`: a tag that is
/// missing refuses the request; else the reporting clan is looked up.
pub open spec fn users_start(param: RecordParam, league: League, r: Flow<UsersFlow, UsersOutcome>) -> bool {
    match (param.this_tag, param.other_tag) {
        (None, _) => r == Flow::<UsersFlow, UsersOutcome>::Done(ResMessage::Failed(Failure::MissingThisTag)),
        (Some(_), None) => r == Flow::<UsersFlow, UsersOutcome>::Done(
            ResMessage::Failed(Failure::MissingOtherTag),
        ),
        (Some(t), Some(o)) => {
            let q = UsersQuery {
                league,
                this_tag: t,
                this_name: param.this_name,
                other_tag: o,
                is_global: param.is_global.unwrap_or(false),
            };
            r == Flow::<UsersFlow, UsersOutcome>::Ask(
                UsersFlow::AwaitThis { q },
                Query::UserByTag { tag: t, is_global: q.is_global },
            )
        },
    }
}

/// Starts looking up the clans of a reported match (see `users_start`).
pub fn get_users(result_param: RecordParam, league: League) -> (r: Flow<UsersFlow, UsersOutcome>)
    ensures
        users_start(result_param, league, r),
{
    let RecordParam { this_tag, this_name, other_tag, other_name: _, is_global, api_key: _ } =
        result_param;
    let this_tag = match this_tag {
        Some(t) => t,
        None => {
            return Flow::Done(ResMessage::Failed(Failure::MissingThisTag));
        },
    };
    let other_tag = match other_tag {
        Some(t) => t,
        None => {
            return Flow::Done(ResMessage::Failed(Failure::MissingOtherTag));
        },
    };
    let is_global = match is_global {
        Some(g) => g,
        None => false,
    };
    let tag = this_tag.clone();
    let q = UsersQuery { league, this_tag, this_name, other_tag, is_global };
    Flow::Ask(UsersFlow::AwaitThis { q }, Query::UserByTag { tag, is_global })
}

impl UsersFlow {
    /// The answer kind that each stage waits for: a clan, or the reports of the services.
    pub open spec fn accepts(self, a: Answer) -> bool {
        match self {
            UsersFlow::AwaitJsons { .. } => a is LeagueJsons,
            _ => a is User,
        }
    }

    /// One step of the lookup:
    /// - a reporting clan that is found is kept, one that is not is registered under the
    ///   reporting league with its given name or "New Clan" (the stored clan, or the
    ///   blank clan where storing failed, is kept);
    ///   then the opposing clan is looked up;
    /// - an opposing clan that is found completes the lookup; one that is not is looked up
    ///   at the services by its tag without '#';
    /// - the services' reports are settled by `state_check`: a conflict refuses the
    ///   match, as does a report in the reporting league (`SameLeague`) or one whose tag
    ///   is shorter than three bytes (`MatchFailed`); else the clan is registered with the
    ///   reported tag, name and league, and the stored clan (or the blank clan) completes it.
    pub open spec fn steps_to(self, a: Answer, r: Flow<UsersFlow, UsersOutcome>) -> bool {
        match self {
            UsersFlow::AwaitThis { q } => match a {
                Answer::User(Some(u)) => r == Flow::<UsersFlow, UsersOutcome>::Ask(
                    UsersFlow::AwaitOther { q, this: u },
                    Query::UserByTag { tag: q.other_tag, is_global: q.is_global },
                ),
                _ => r matches Flow::Ask(
                    UsersFlow::AwaitThisInsert { q: q2 },
                    Query::InsertUser { tag, name, league_id, is_global },
                ) && q2 == q && tag == q.this_tag && name@ == registered_name(q.this_name)
                    && league_id == q.league.id && is_global == q.is_global,
            },
            UsersFlow::AwaitThisInsert { q } => match a {
                Answer::User(found) => r matches Flow::Ask(
                    UsersFlow::AwaitOther { q: q2, this },
                    Query::UserByTag { tag, is_global },
                ) && q2 == q && tag == q.other_tag && is_global == q.is_global && (match found {
                    Some(u) => this == u,
                    None => this.is_blank(),
                }),
                _ => false,
            },
            UsersFlow::AwaitOther { q, this } => match a {
                Answer::User(Some(u)) => r == Flow::<UsersFlow, UsersOutcome>::Done(
                    ResMessage::Success((this, u)),
                ),
                _ => r matches Flow::Ask(UsersFlow::AwaitJsons { q: q2, this: t2 }, Query::LeagueJsons { urls })
                    && q2 == q && t2 == this && urls@.map_values(|u: String| u@)
                    == league_json_addresses(trim_leading(q.other_tag@, '#')),
            },
            UsersFlow::AwaitJsons { q, this } => match a {
                Answer::LeagueJsons(js) => match state_check(q.other_tag@, report_views(js@)) {
                    Err(f) => r == Flow::<UsersFlow, UsersOutcome>::Done(ResMessage::Failed(f)),
                    Ok(re) => if union_number(re.union) == q.league.id {
                        r == Flow::<UsersFlow, UsersOutcome>::Done(
                            ResMessage::Failed(Failure::SameLeague),
                        )
                    } else if byte_len(re.tag) < 3 {
                        r == Flow::<UsersFlow, UsersOutcome>::Done(
                            ResMessage::Failed(Failure::MatchFailed),
                        )
                    } else {
                        r matches Flow::Ask(
                            UsersFlow::AwaitOtherInsert { q: q2, this: t2 },
                            Query::InsertUser { tag, name, league_id, is_global },
                        ) && q2 == q && t2 == this && tag@ == re.tag && name@ == re.name
                            && league_id == union_number(re.union) && is_global == q.is_global
                    },
                },
                _ => false,
            },
            UsersFlow::AwaitOtherInsert { q, this } => match a {
                Answer::User(found) => r matches Flow::Done(ResMessage::Success((t2, other)))
                    && t2 == this && (match found {
                    Some(u) => other == u,
                    None => other.is_blank(),
                }),
                _ => false,
            },
        }
    }

    /// Whether the stage waits for this kind of answer.
    pub fn accepts_answer(&self, a: &Answer) -> (b: bool)
        ensures
            b == self.accepts(*a),
    {
        match self {
            UsersFlow::AwaitJsons { .. } => matches!(a, Answer::LeagueJsons(_)),
            _ => matches!(a, Answer::User(_)),
        }
    }

    /// Takes the answer to the stage's query and goes on (see `steps_to`).
    pub fn step(self, a: Answer) -> (r: Flow<UsersFlow, UsersOutcome>)
        requires
            self.accepts(a),
        ensures
            self.steps_to(a, r),
    {
        match self {
            UsersFlow::AwaitThis { q } => match a {
                Answer::User(Some(u)) => {
                    let tag = q.other_tag.clone();
                    let is_global = q.is_global;
                    Flow::Ask(UsersFlow::AwaitOther { q, this: u }, Query::UserByTag { tag, is_global })
                },
                _ => {
                    let tag = q.this_tag.clone();
                    let name = match &q.this_name {
                        Some(n) => n.clone(),
                        None => String::from_str("New Clan"),
                    };
                    let league_id = q.league.id;
                    let is_global = q.is_global;
                    Flow::Ask(
                        UsersFlow::AwaitThisInsert { q },
                        Query::InsertUser { tag, name, league_id, is_global },
                    )
                },
            },
            UsersFlow::AwaitThisInsert { q } => match a {
                Answer::User(found) => {
                    let this = User::or_blank(found);
                    let tag = q.other_tag.clone();
                    let is_global = q.is_global;
                    Flow::Ask(UsersFlow::AwaitOther { q, this }, Query::UserByTag { tag, is_global })
                },
                _ => {
                    proof {
                        assert(false);
                    }
                    Flow::Done(ResMessage::Failed(Failure::MatchFailed))
                },
            },
            UsersFlow::AwaitOther { q, this } => match a {
                Answer::User(Some(u)) => Flow::Done(ResMessage::Success((this, u))),
                _ => {
                    let urls = league_json_urls(trim_start_char(q.other_tag.as_str(), '#'));
                    Flow::Ask(UsersFlow::AwaitJsons { q, this }, Query::LeagueJsons { urls })
                },
            },
            UsersFlow::AwaitJsons { q, this } => match a {
                Answer::LeagueJsons(js) => {
                    match check_state(q.other_tag.as_str(), js) {
                        ResMessage::Failed(f) => Flow::Done(ResMessage::Failed(f)),
                        ResMessage::Success(re) => {
                            let league_id = re.union.num();
                            if league_id == q.league.id {
                                return Flow::Done(ResMessage::Failed(Failure::SameLeague));
                            }
                            if re.tag.as_str().len() < 3 {
                                return Flow::Done(ResMessage::Failed(Failure::MatchFailed));
                            }
                            let is_global = q.is_global;
                            Flow::Ask(
                                UsersFlow::AwaitOtherInsert { q, this },
                                Query::InsertUser {
                                    tag: re.tag,
                                    name: re.name,
                                    league_id,
                                    is_global,
                                },
                            )
                        },
                    }
                },
                _ => {
                    proof {
                        assert(false);
                    }
                    Flow::Done(ResMessage::Failed(Failure::MatchFailed))
                },
            },
            UsersFlow::AwaitOtherInsert { q, this } => match a {
                Answer::User(found) => Flow::Done(ResMessage::Success((this, User::or_blank(found)))),
                _ => {
                    proof {
                        assert(false);
                    }
                    Flow::Done(ResMessage::Failed(Failure::MatchFailed))
                },
            },
        }
    }
}

} // verus!

verus! {

/// A clan registered from the lookup services' reports is never put in the reporting
/// league, and its tag is at least three bytes long.
pub proof fn registered_opponent_is_outside_the_reporting_league(
    q: UsersQuery,
    this: User,
    a: Answer,
    r: Flow<UsersFlow, UsersOutcome>,
)
    requires
        (UsersFlow::AwaitJsons { q, this }).steps_to(a, r),
    ensures
        r matches Flow::Ask(_, Query::InsertUser { tag, league_id, .. }) ==> league_id != q.league.id
            && byte_len(tag@) >= 3,
{
}

/// The clan lookup never changes a score nor stores a match entry.
pub proof fn users_lookup_only_reads_and_registers(s: UsersFlow, a: Answer, r: Flow<UsersFlow, UsersOutcome>)
    requires
        s.steps_to(a, r),
    ensures
        r matches Flow::Ask(_, q) ==> (q is UserByTag || q is InsertUser || q is LeagueJsons),
{
}

} // verus!

verus! {

/// The server that a clan lookup works in.
pub open spec fn lookup_server(s: UsersFlow) -> bool {
    match s {
        UsersFlow::AwaitThis { q } => q.is_global,
        UsersFlow::AwaitThisInsert { q } => q.is_global,
        UsersFlow::AwaitOther { q, .. } => q.is_global,
        UsersFlow::AwaitJsons { q, .. } => q.is_global,
        UsersFlow::AwaitOtherInsert { q, .. } => q.is_global,
    }
}

/// A report's clans are looked up in the server the report names (the national one,
/// `false`, only where it names none): the first query is the reporting clan's tag in
/// that server, and the lookup works in that server.
pub proof fn users_lookup_starts_in_the_requested_server(
    param: RecordParam,
    league: League,
    r: Flow<UsersFlow, UsersOutcome>,
)
    requires
        users_start(param, league, r),
        param.this_tag is Some,
        param.other_tag is Some,
    ensures
        r matches Flow::Ask(s, Query::UserByTag { tag, is_global }) && tag == param.this_tag->0
            && lookup_server(s) == is_global && (param.is_global matches Some(g) ==> is_global == g)
            && (param.is_global is None ==> !is_global),
{
}

/// Every clan lookup and registration of a report happens in the server the lookup
/// works in, and the lookup stays in that server from stage to stage.
pub proof fn users_lookup_keeps_the_server(s: UsersFlow, a: Answer, r: Flow<UsersFlow, UsersOutcome>)
    requires
        s.steps_to(a, r),
    ensures
        r matches Flow::Ask(s2, q) ==> lookup_server(s2) == lookup_server(s) && (q matches Query::UserByTag {
            is_global,
            ..
        } ==> is_global == lookup_server(s)) && (q matches Query::InsertUser { is_global, .. }
            ==> is_global == lookup_server(s)),
{
}

} // verus!
