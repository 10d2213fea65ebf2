//! A compliance check run over the whole pack: which pack covers the
//! company, the findings of every rule that applies to the subject, the
//! overall label (never "compliant"), and the rule ids a model summary may
//! cite.
use vstd::prelude::*;

use crate::calendar::{MAX_YEAR, MIN_YEAR};
use crate::checks::{check_rule, checkable, day_of, made, rule_outcome, states, today_ok, Facts};
use crate::compliance::{
    overall, overall_spec, pack_docs, receipts_since, retrieval, retrieve, rule_score, rule_text_spec, scores_fit,
    scores_fit_u32, tag_text, tokens, tokens_spec,
    ComplianceFinding, FindingStatus, RuleHit, DAY_SECONDS,
};
use crate::compliance_pack::{is_singapore_pack, pack_for, packs, CheckKind, Rule, RulePack};
use crate::crew::Rejection;
use crate::text::{
    ascii_alnum, chars_of, eq_ignore_ascii_case, has_no_control_but, is_ascii_alnum, no_control_but,
    owned, push_str, slice, split_by, split_pieces, starts_with, starts_with_str, string_of,
    string_views, trim, trimmed, views,
};
use crate::types::{Document, Venture, Workspace, WorkspaceError};

verus! {

/// The rules of a pack that give a finding on these facts, each with what
/// it finds, in pack order.
pub open spec fn pack_outcomes(rules: Seq<Rule>, f: Facts, zh: bool) -> Seq<
    (Rule, (FindingStatus, Seq<char>, Seq<Seq<char>>)),
>
    decreases rules.len(),
{
    if rules.len() == 0 {
        Seq::empty()
    } else {
        let before = pack_outcomes(rules.drop_last(), f, zh);
        match rule_outcome(rules.last(), f, zh) {
            Some(o) => before.push((rules.last(), o)),
            None => before,
        }
    }
}

/// The findings state the outcomes, one for one.
pub open spec fn states_all(
    fs: Seq<ComplianceFinding>,
    os: Seq<(Rule, (FindingStatus, Seq<char>, Seq<Seq<char>>))>,
    zh: bool,
) -> bool {
    &&& fs.len() == os.len()
    &&& forall|i: int| 0 <= i < fs.len() ==> made(#[trigger] fs[i], os[i].0, os[i].1, zh)
}

/// The finding that says no pack covers the company's jurisdiction.
pub open spec fn is_coverage_finding(f: ComplianceFinding, jurisdiction: Seq<char>, zh: bool) -> bool {
    &&& f.rule_id@ == "COVERAGE"@
    &&& f.category@ == "coverage"@
    &&& f.basis@ == "demo_rule"@
    &&& f.title@ == (if zh {
        "该辖区没有规则包"@
    } else {
        "No rule pack for this jurisdiction"@
    })
    &&& f.status == FindingStatus::Unknown
    &&& f.detail@ == (if zh {
        "本产品目前只有新加坡的演示规则包;"@ + jurisdiction + " 未覆盖,不能得出任何结论。"@
    } else {
        "Only a Singapore demo pack exists; "@ + jurisdiction
            + " is not covered, so nothing can be concluded."@
    })
    &&& string_views(f.facts_used@) == seq!["venture.jurisdiction"@]
    &&& f.source_authority@ == "Sovereign Founder OS"@
    &&& f.source_title@ == "Coverage (demo rule)"@
    &&& f.source_url@.len() == 0
    &&& f.escalation@ == (if zh {
        "请在该辖区寻求专业意见。"@
    } else {
        "Get professional advice in that jurisdiction."@
    })
}

/// `base`, then each of `extra` that is not already there, in order.
pub open spec fn merged(base: Seq<Seq<char>>, extra: Seq<Seq<char>>) -> Seq<Seq<char>>
    decreases extra.len(),
{
    if extra.len() == 0 {
        base
    } else {
        let m = merged(base, extra.drop_last());
        if m.contains(extra.last()) {
            m
        } else {
            m.push(extra.last())
        }
    }
}

pub open spec fn finding_ids(fs: Seq<ComplianceFinding>) -> Seq<Seq<char>> {
    fs.map_values(|f: ComplianceFinding| f.rule_id@)
}

pub open spec fn hit_ids(hs: Seq<RuleHit>) -> Seq<Seq<char>> {
    hs.map_values(|h: RuleHit| h.rule_id@)
}

/// The text searched for rules a summary may cite: the document's title,
/// or the company's service and jurisdiction.
pub open spec fn subject_query(v: Venture, document: Option<&Document>) -> Seq<char> {
    match document {
        Some(d) => d.title@,
        None => v.service@ + " "@ + v.jurisdiction@,
    }
}

/// How many rules the keyword search hands on to a model summary.
pub const SUMMARY_HITS: usize = 5;

/// What a compliance check run concludes before anything is stored.
pub struct Assessment {
    /// `covered`, `unknown_jurisdiction`, or `not_covered`.
    pub coverage: &'static str,
    pub pack_id: String,
    pub pack_version: String,
    pub review_status: String,
    pub findings: Vec<ComplianceFinding>,
    /// `attention`, `needs_review`, `clear_within_pack`, `not_covered`, or
    /// `unknown`.
    pub overall: &'static str,
    /// The rule ids a model summary may cite.
    pub retrieved_rule_ids: Vec<String>,
}

/// The assessment states the run over the facts `f`: by the company's
/// jurisdiction, the pack that covers it and its findings, or the finding
/// that the jurisdiction is missing, or that no pack covers it.
pub open spec fn assessed(a: Assessment, f: Facts, zh: bool) -> bool {
    let j = f.venture.jurisdiction@;
    if j.len() == 0 {
        &&& a.coverage@ == "unknown_jurisdiction"@
        &&& a.pack_id@.len() == 0 && a.pack_version@.len() == 0 && a.review_status@.len() == 0
        &&& exists|p: RulePack|
            is_singapore_pack(p) && states_all(
                a.findings@,
                pack_outcomes(seq![p.rules@[0]], f, zh),
                zh,
            )
        &&& a.overall@ == "unknown"@
        &&& string_views(a.retrieved_rule_ids@) == finding_ids(a.findings@)
    } else if eq_ignore_ascii_case(j, "SG"@) {
        &&& a.coverage@ == "covered"@
        &&& exists|p: RulePack|
            {
                &&& is_singapore_pack(p)
                &&& a.pack_id@ == p.id@
                &&& a.pack_version@ == p.version@
                &&& a.review_status@ == p.review_status@
                &&& states_all(a.findings@, pack_outcomes(p.rules@, f, zh), zh)
                &&& exists|hits: Seq<RuleHit>|
                    {
                        &&& retrieval(
                            p,
                            tokens_spec(subject_query(*f.venture, f.document)),
                            SUMMARY_HITS as int,
                            zh,
                            hits,
                        )
                        &&& string_views(a.retrieved_rule_ids@) == merged(
                            finding_ids(a.findings@),
                            hit_ids(hits),
                        )
                    }
            }
        &&& a.overall@ == overall_spec(a.findings@)
    } else {
        &&& a.coverage@ == "not_covered"@
        &&& a.pack_id@.len() == 0 && a.pack_version@.len() == 0 && a.review_status@.len() == 0
        &&& a.findings@.len() == 1
        &&& is_coverage_finding(a.findings@[0], j, zh)
        &&& a.overall@ == "not_covered"@
        &&& string_views(a.retrieved_rule_ids@) == finding_ids(a.findings@)
    }
}


/// The findings of every rule of the pack that applies to the subject.
fn pack_findings(pack: &RulePack, facts: &Facts, zh: bool) -> (r: Vec<ComplianceFinding>)
    requires
        forall|i: int| 0 <= i < pack.rules@.len() ==> checkable(#[trigger] pack.rules@[i], *facts),
    ensures
        states_all(r@, pack_outcomes(pack.rules@, *facts, zh), zh),
{
    let mut out: Vec<ComplianceFinding> = Vec::new();
    let mut i: usize = 0;
    while i < pack.rules.len()
        invariant
            i <= pack.rules@.len(),
            forall|k: int| 0 <= k < pack.rules@.len() ==> checkable(#[trigger] pack.rules@[k], *facts),
            states_all(out@, pack_outcomes(pack.rules@.take(i as int), *facts, zh), zh),
        decreases pack.rules@.len() - i,
    {
        let ghost rules = pack.rules@;
        assert(rules.take(i + 1).drop_last() =~= rules.take(i as int));
        assert(rules.take(i + 1).last() == rules[i as int]);
        let r = check_rule(&pack.rules[i], facts, zh);
        match r {
            Some(x) => {
                out.push(x);
            },
            None => {},
        }
        i += 1;
    }
    assert(pack.rules@.take(i as int) =~= pack.rules@);
    out
}

fn coverage_finding(jurisdiction: &str, zh: bool) -> (f: ComplianceFinding)
    ensures
        is_coverage_finding(f, jurisdiction@, zh),
{
    let detail = if zh {
        let mut d = owned("本产品目前只有新加坡的演示规则包;");
        push_str(&mut d, jurisdiction);
        push_str(&mut d, " 未覆盖,不能得出任何结论。");
        d
    } else {
        let mut d = owned("Only a Singapore demo pack exists; ");
        push_str(&mut d, jurisdiction);
        push_str(&mut d, " is not covered, so nothing can be concluded.");
        d
    };
    let mut used: Vec<String> = Vec::new();
    used.push(owned("venture.jurisdiction"));
    assert(string_views(used@) =~= seq!["venture.jurisdiction"@]);
    ComplianceFinding {
        rule_id: owned("COVERAGE"),
        category: owned("coverage"),
        basis: owned("demo_rule"),
        title: if zh {
            owned("该辖区没有规则包")
        } else {
            owned("No rule pack for this jurisdiction")
        },
        status: FindingStatus::Unknown,
        detail,
        facts_used: used,
        source_authority: owned("Sovereign Founder OS"),
        source_title: owned("Coverage (demo rule)"),
        source_url: String::new(),
        escalation: if zh {
            owned("请在该辖区寻求专业意见。")
        } else {
            owned("Get professional advice in that jurisdiction.")
        },
    }
}

fn ids_of(fs: &Vec<ComplianceFinding>) -> (r: Vec<String>)
    ensures
        string_views(r@) == finding_ids(fs@),
{
    let mut r: Vec<String> = Vec::new();
    let mut i: usize = 0;
    while i < fs.len()
        invariant
            i <= fs@.len(),
            string_views(r@) == finding_ids(fs@.take(i as int)),
        decreases fs@.len() - i,
    {
        let ghost before = string_views(r@);
        r.push(fs[i].rule_id.clone());
        assert(string_views(r@) =~= before.push(fs@[i as int].rule_id@));
        assert(finding_ids(fs@.take(i + 1)) =~= finding_ids(fs@.take(i as int)).push(
            fs@[i as int].rule_id@,
        ));
        i += 1;
    }
    assert(fs@.take(i as int) =~= fs@);
    r
}

/// Whether `ids` holds `id`.
fn has_id(ids: &Vec<String>, id: &String) -> (r: bool)
    ensures
        r == string_views(ids@).contains(id@),
{
    let mut i: usize = 0;
    while i < ids.len()
        invariant
            i <= ids@.len(),
            forall|k: int| 0 <= k < i ==> (#[trigger] string_views(ids@)[k]) != id@,
        decreases ids@.len() - i,
    {
        if ids[i] == *id {
            assert(string_views(ids@)[i as int] == id@);
            return true;
        }
        i += 1;
    }
    false
}

/// Appends the ids of the hits that are not there yet.
fn merge_hits(ids: &mut Vec<String>, hits: &Vec<RuleHit>)
    ensures
        string_views(final(ids)@) == merged(string_views(old(ids)@), hit_ids(hits@)),
{
    let ghost base = string_views(ids@);
    let mut i: usize = 0;
    while i < hits.len()
        invariant
            i <= hits@.len(),
            string_views(ids@) == merged(base, hit_ids(hits@.take(i as int))),
        decreases hits@.len() - i,
    {
        assert(hit_ids(hits@.take(i + 1)).drop_last() =~= hit_ids(hits@.take(i as int)));
        assert(hit_ids(hits@.take(i + 1)).last() == hits@[i as int].rule_id@);
        if !has_id(ids, &hits[i].rule_id) {
            let ghost before = string_views(ids@);
            ids.push(hits[i].rule_id.clone());
            assert(string_views(ids@) =~= before.push(hits@[i as int].rule_id@));
        }
        i += 1;
    }
    assert(hits@.take(i as int) =~= hits@);
}

/// The facts a run at `now_unix` reads.
pub open spec fn run_facts<'a>(
    workspace: &'a Workspace,
    venture: &'a Venture,
    now_unix: i64,
    document: Option<&'a Document>,
) -> Facts<'a> {
    Facts { workspace, venture, now_unix, today: day_of(now_unix), document }
}

/// A run the library declines: the calendar day is too close to the end
/// of `chrono`'s range for the deadline arithmetic, or the search text has
/// so many terms that a rule's score could pass `u32`.
pub open spec fn refused(venture: Venture, now_unix: i64, document: Option<&Document>, zh: bool) -> bool {
    eq_ignore_ascii_case(venture.jurisdiction@, "SG"@) && ({
        ||| (document is None && venture.incorporated_at is Some && !today_ok(day_of(now_unix)))
        ||| !sg_scores_fit(tokens_spec(subject_query(venture, document)), zh)
    })
}

/// Every rule of the Singapore pack scores within `u32` for the query.
pub open spec fn sg_scores_fit(q: Seq<Seq<char>>, zh: bool) -> bool {
    forall|p: RulePack| #[trigger] is_singapore_pack(p) ==> scores_fit_u32(p, q, zh)
}

proof fn lemma_tag_text_by_views(a: Seq<&'static str>, b: Seq<&'static str>)
    requires
        a.map_values(|t: &str| t@) == b.map_values(|t: &str| t@),
    ensures
        tag_text(a) == tag_text(b),
    decreases a.len(),
{
    assert(a.len() == a.map_values(|t: &str| t@).len());
    assert(b.len() == b.map_values(|t: &str| t@).len());
    if a.len() > 0 {
        assert(a.drop_last().map_values(|t: &str| t@) =~= a.map_values(|t: &str| t@).drop_last());
        assert(b.drop_last().map_values(|t: &str| t@) =~= b.map_values(|t: &str| t@).drop_last());
        lemma_tag_text_by_views(a.drop_last(), b.drop_last());
        assert(a.map_values(|t: &str| t@)[a.len() - 1] == b.map_values(|t: &str| t@)[a.len() - 1]);
    }
}

/// Two values that both are the Singapore pack score every query alike.
proof fn lemma_sg_packs_score_alike(p1: RulePack, p2: RulePack, q: Seq<Seq<char>>, zh: bool)
    requires
        is_singapore_pack(p1),
        is_singapore_pack(p2),
    ensures
        scores_fit_u32(p1, q, zh) == scores_fit_u32(p2, q, zh),
{
    assert forall|i: int| 0 <= i < 13 implies rule_text_spec(p1.rules@[i], zh) == rule_text_spec(
        p2.rules@[i],
        zh,
    ) by {
        lemma_tag_text_by_views(p1.rules@[i].tags@, p2.rules@[i].tags@);
    }
    assert(pack_docs(p1, zh) =~= pack_docs(p2, zh));
    assert forall|x: int| 0 <= x < 13 implies rule_score(p1, q, zh, x) == rule_score(p2, q, zh, x) by {}
}

/// The query text for the subject.
fn subject_text(venture: &Venture, document: Option<&Document>) -> (r: String)
    ensures
        r@ == subject_query(*venture, document),
{
    match document {
        Some(d) => d.title.clone(),
        None => {
            let mut q = venture.service.clone();
            push_str(&mut q, " ");
            push_str(&mut q, venture.jurisdiction.as_str());
            q
        },
    }
}

/// How many compliance reports a workspace keeps.
pub const MAX_COMPLIANCE_REPORTS: usize = 500;

/// The company profile a compliance check runs on; a workspace without one
/// is refused until it is set up.
pub fn checked_profile(workspace: &Workspace) -> (r: Result<&Venture, WorkspaceError>)
    ensures
        match workspace.venture {
            Some(v) => r matches Ok(p) && *p == v,
            None => r matches Err(WorkspaceError::Invalid(m)) && m@ == "set up the company profile first"@,
        },
{
    match &workspace.venture {
        Some(v) => Ok(v),
        None => Err(WorkspaceError::Invalid(owned("set up the company profile first"))),
    }
}

/// Keeps a new report after the earlier ones; once the limit is reached the
/// oldest one goes.
pub fn keep_report<T>(reports: &mut Vec<T>, report: T)
    ensures
        final(reports)@ == (if old(reports)@.len() >= MAX_COMPLIANCE_REPORTS {
            old(reports)@.drop_first()
        } else {
            old(reports)@
        }).push(report),
{
    if reports.len() >= MAX_COMPLIANCE_REPORTS {
        reports.remove(0);
    }
    reports.push(report);
}

/// Runs the company's pack over the facts of `now_unix`: the deterministic
/// part of a compliance check.
pub fn assess(
    workspace: &Workspace,
    venture: &Venture,
    now_unix: i64,
    document: Option<&Document>,
    zh: bool,
) -> (r: Option<Assessment>)
    requires
        now_unix >= i64::MIN + 365 * DAY_SECONDS,
        receipts_since(workspace.payments@, now_unix - 365 * DAY_SECONDS) <= u64::MAX,
    ensures
        r is None <==> refused(*venture, now_unix, document, zh),
        r matches Some(a) ==> assessed(a, run_facts(workspace, venture, now_unix, document), zh),
{
    let facts = Facts::new(workspace, venture, now_unix, document);
    let ghost f = run_facts(workspace, venture, now_unix, document);
    assert(facts == f);
    if venture.jurisdiction.as_str().is_empty() {
        let all = packs();
        let pack = &all[0];
        let rule = &pack.rules[0];
        assert(rule.check == CheckKind::JurisdictionKnown);
        let mut findings: Vec<ComplianceFinding> = Vec::new();
        let found = check_rule(rule, &facts, zh);
        match found {
            Some(x) => findings.push(x),
            None => {},
        }
        proof {
            let rules = seq![pack.rules@[0]];
            assert(rules.drop_last() =~= Seq::<Rule>::empty());
            assert(pack_outcomes(Seq::<Rule>::empty(), f, zh) =~= Seq::empty());
            assert(rules.last() == *rule);
            assert(states_all(findings@, pack_outcomes(rules, f, zh), zh));
            reveal_strlit("SG");
            assert(!eq_ignore_ascii_case(venture.jurisdiction@, "SG"@));
        }
        let ids = ids_of(&findings);
        return Some(
            Assessment {
                coverage: "unknown_jurisdiction",
                pack_id: String::new(),
                pack_version: String::new(),
                review_status: String::new(),
                findings,
                overall: "unknown",
                retrieved_rule_ids: ids,
            },
        );
    }
    match pack_for(venture.jurisdiction.as_str()) {
        None => {
            let mut findings: Vec<ComplianceFinding> = Vec::new();
            findings.push(coverage_finding(venture.jurisdiction.as_str(), zh));
            let ids = ids_of(&findings);
            Some(
                Assessment {
                    coverage: "not_covered",
                    pack_id: String::new(),
                    pack_version: String::new(),
                    review_status: String::new(),
                    findings,
                    overall: "not_covered",
                    retrieved_rule_ids: ids,
                },
            )
        },
        Some(pack) => {
            if document.is_none() && venture.incorporated_at.is_some() {
                if !(MIN_YEAR < facts.today.year && facts.today.year < MAX_YEAR - 2) {
                    return None;
                }
            }
            let query = subject_text(venture, document);
            if !scores_fit(&pack, query.as_str(), zh) {
                return None;
            }
            proof {
                assert forall|p: RulePack| #[trigger] is_singapore_pack(p) implies scores_fit_u32(
                    p,
                    tokens_spec(query@),
                    zh,
                ) by {
                    lemma_sg_packs_score_alike(pack, p, tokens_spec(query@), zh);
                }
            }
            assert(forall|i: int|
                0 <= i < pack.rules@.len() ==> checkable(#[trigger] pack.rules@[i], f));
            let findings = pack_findings(&pack, &facts, zh);
            let mut ids = ids_of(&findings);
            let hits = retrieve(&pack, query.as_str(), SUMMARY_HITS, zh);
            merge_hits(&mut ids, &hits);
            let label = overall(&findings);
            Some(
                Assessment {
                    coverage: "covered",
                    pack_id: owned(pack.id),
                    pack_version: owned(pack.version),
                    review_status: owned(pack.review_status),
                    findings,
                    overall: label,
                    retrieved_rule_ids: ids,
                },
            )
        },
    }
}


// ---------------------------------------------------------------------------
// A model's summary of the findings
// ---------------------------------------------------------------------------

/// The index of the first `c` in `s`, or -1.
pub open spec fn first_of(s: Seq<char>, c: char) -> int
    decreases s.len(),
{
    if s.len() == 0 {
        -1
    } else {
        let p = first_of(s.drop_last(), c);
        if p >= 0 {
            p
        } else if s.last() == c {
            s.len() - 1
        } else {
            -1
        }
    }
}

/// The index of the last `c` in `s`, or -1.
pub open spec fn last_of(s: Seq<char>, c: char) -> int
    decreases s.len(),
{
    if s.len() == 0 {
        -1
    } else if s.last() == c {
        s.len() - 1
    } else {
        last_of(s.drop_last(), c)
    }
}

proof fn lemma_index_bounds(s: Seq<char>, c: char)
    ensures
        -1 <= first_of(s, c) < s.len(),
        -1 <= last_of(s, c) < s.len(),
    decreases s.len(),
{
    if s.len() > 0 {
        lemma_index_bounds(s.drop_last(), c);
    }
}

/// The part of a model's answer that can hold a JSON object: from its
/// first `{` to its last `}`.
pub fn json_object_span(text: &str) -> (r: Result<String, Rejection>)
    ensures
        match r {
            Ok(t) => {
                &&& 0 <= first_of(text@, '{') < last_of(text@, '}')
                &&& t@ == text@.subrange(first_of(text@, '{'), last_of(text@, '}') + 1)
            },
            Err(e) => e == Rejection::NotJson && !(0 <= first_of(text@, '{') < last_of(
                text@,
                '}',
            )),
        },
{
    let v = chars_of(text);
    let mut start: Option<usize> = None;
    let mut end: Option<usize> = None;
    let mut i: usize = 0;
    while i < v.len()
        invariant
            i <= v@.len(),
            v@ == text@,
            match start {
                Some(k) => k == first_of(v@.take(i as int), '{') && k < i,
                None => first_of(v@.take(i as int), '{') == -1,
            },
            match end {
                Some(k) => k == last_of(v@.take(i as int), '}') && k < i,
                None => last_of(v@.take(i as int), '}') == -1,
            },
        decreases v@.len() - i,
    {
        assert(v@.take(i + 1).drop_last() =~= v@.take(i as int));
        assert(v@.take(i + 1).last() == v@[i as int]);
        if start.is_none() && v[i] == '{' {
            start = Some(i);
        }
        if v[i] == '}' {
            end = Some(i);
        }
        i += 1;
    }
    assert(v@.take(i as int) =~= v@);
    match (start, end) {
        (Some(a), Some(b)) => {
            if b <= a {
                return Err(Rejection::NotJson);
            }
            let span = slice(&v, a, b + 1);
            Ok(string_of(&span))
        },
        _ => Err(Rejection::NotJson),
    }
}

/// What a JSON parser reported, by kind.
#[derive(Debug, Clone, Copy, PartialEq, Eq, Structural)]
pub enum JsonFault {
    /// The text is not JSON.
    Syntax,
    /// The reader failed.
    Io,
    /// The text stopped part-way.
    Eof,
    /// Valid JSON of the wrong shape.
    Data,
}

/// The rejection a parse failure gives.
pub open spec fn fault_rejection(f: JsonFault) -> Rejection {
    match f {
        JsonFault::Eof => Rejection::Truncated,
        JsonFault::Data => Rejection::WrongShape,
        _ => Rejection::NotJson,
    }
}

pub fn parse_rejection(f: JsonFault) -> (r: Rejection)
    ensures
        r == fault_rejection(f),
{
    match f {
        JsonFault::Eof => Rejection::Truncated,
        JsonFault::Data => Rejection::WrongShape,
        _ => Rejection::NotJson,
    }
}

/// The longest summary kept, in characters.
pub const MAX_SUMMARY_CHARS: usize = 2000;

/// A character that ends a word when rule ids are looked for.
pub open spec fn id_break(c: char) -> bool {
    !(is_ascii_alnum(c) || c == '-')
}

fn id_break_exec(c: char) -> (r: bool)
    ensures
        r == id_break(c),
{
    !(ascii_alnum(c) || c == '-')
}

/// The words of `s`, split where a rule id cannot continue.
pub open spec fn id_words(s: Seq<char>) -> Seq<Seq<char>> {
    split_by(s, |c: char| id_break(c))
}

/// Some word of `s` that looks like a Singapore rule id is not allowed.
pub open spec fn cites_unlisted(s: Seq<char>, allowed: Seq<Seq<char>>) -> bool {
    let words = id_words(s);
    exists|i: int|
        0 <= i < words.len() && starts_with(#[trigger] words[i], "SG-"@) && !allowed.contains(words[i])
}

/// Why a summary is refused, if it is: nothing left once trimmed, too
/// long, a control character other than a line break, or a cited rule id
/// that was not retrieved.
pub open spec fn summary_fault(raw: Seq<char>, allowed: Seq<Seq<char>>) -> Option<Rejection> {
    let s = trimmed(raw);
    if s.len() == 0 || s.len() > MAX_SUMMARY_CHARS || !no_control_but(s, true, false) {
        Some(Rejection::Field("summary"))
    } else if cites_unlisted(s, allowed) {
        Some(Rejection::Field("citation"))
    } else {
        None
    }
}

/// Keeps a model's summary only when it is usable and every rule id it
/// names was retrieved or checked: a summary citing a rule the founder
/// cannot open is a fabricated citation, and is reported as one.
pub fn check_summary(raw: &str, allowed: &Vec<String>) -> (r: Result<String, Rejection>)
    ensures
        match summary_fault(raw@, string_views(allowed@)) {
            Some(e) => r == Err::<String, Rejection>(e),
            None => r matches Ok(t) && t@ == trimmed(raw@),
        },
{
    let v = chars_of(raw);
    let s = trim(&v);
    if s.len() == 0 || s.len() > MAX_SUMMARY_CHARS || !has_no_control_but(&s, true, false) {
        return Err(Rejection::Field("summary"));
    }
    let words = split_pieces(&s, id_break_exec, Ghost(|c: char| id_break(c)));
    let ghost ws = id_words(s@);
    assert(views(words@) =~= ws);
    let ghost al = string_views(allowed@);
    let mut i: usize = 0;
    while i < words.len()
        invariant
            i <= words@.len(),
            views(words@) == ws,
            ws == id_words(s@),
            s@ == trimmed(raw@),
            0 < s@.len() <= MAX_SUMMARY_CHARS,
            no_control_but(s@, true, false),
            al == string_views(allowed@),
            forall|k: int| 0 <= k < i ==> !(starts_with(#[trigger] ws[k], "SG-"@) && !al.contains(ws[k])),
        decreases words@.len() - i,
    {
        assert(words@[i as int]@ == ws[i as int]);
        if starts_with_str(&words[i], "SG-") {
            let w = string_of(&words[i]);
            if !has_id(allowed, &w) {
                assert(starts_with(ws[i as int], "SG-"@) && !al.contains(ws[i as int]));
                assert(cites_unlisted(s@, al));
                assert(s@ == trimmed(raw@));
                return Err(Rejection::Field("citation"));
            }
        }
        i += 1;
    }
    Ok(string_of(&s))
}

/// Keyword search over every pack, for the compliance page: up to eight
/// hits per pack. Nothing comes back for a query under which a rule's score
/// would pass `u32`.
pub fn search_rules(query: &str, lang: &str) -> (r: Vec<RuleHit>)
    ensures
        exists|p: RulePack|
            #[trigger] is_singapore_pack(p) && (scores_fit_u32(p, tokens_spec(query@), starts_with(lang@, "zh"@))
                ==> retrieval(p, tokens_spec(query@), 8, starts_with(lang@, "zh"@), r@)) && (!scores_fit_u32(
                p,
                tokens_spec(query@),
                starts_with(lang@, "zh"@),
            ) ==> r@.len() == 0),
{
    let l = chars_of(lang);
    let zh = starts_with_str(&l, "zh");
    let all = packs();
    let pack = &all[0];
    if !scores_fit(pack, query, zh) {
        return Vec::new();
    }
    retrieve(pack, query, 8, zh)
}

} // verus!
