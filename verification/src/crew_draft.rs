//! The drafts an employee writes from stored facts alone, when no model
//! answers or a model's answer fails validation: bounded, labelled as
//! templates wherever they are shown, and an honest "needs input" where the
//! facts are missing, never invented content.
use vstd::prelude::*;

use crate::checks::{concat3, decimal_text, joined, join, mentions_any, mentions_marker, opt, pick, pick_str};
use crate::compliance::str_views;
use crate::crew::{
    amount_line, amount_line_spec, budget_midpoint_cents, budget_midpoint_spec, split_sentences,
    split_sentences_spec, PlannedTask, ReviewFinding, RoleId, MAX_LIST_ITEMS,
};
use crate::erp::{CustomerStage, ProjectStatus};
use crate::text::{
    chars_of, contains_str, decimal, has_sub, lower_chars, lowercase_of, matches_at, owned, push_decimal,
    push_str, push_two_digits, two_digits,
    string_of, string_views, trim, trimmed,
};
use crate::types::{DocumentKind, DocumentStatus, WorkspaceError};

verus! {

/// What an employee may know of a customer.
#[derive(Debug, Clone)]
pub struct CustomerFacts {
    pub id: u128,
    pub name: String,
    pub stage: CustomerStage,
    pub notes: String,
    pub discovery_notes: String,
    pub has_offer: bool,
}

/// What an employee may know of a document.
#[derive(Debug, Clone)]
pub struct DocumentFacts {
    pub id: u128,
    pub kind: DocumentKind,
    pub title: String,
    pub body: String,
    pub amount_cents: Option<u64>,
    pub status: DocumentStatus,
    pub revision: u32,
    pub accepted: bool,
}

/// What an employee may know of a project.
#[derive(Debug, Clone)]
pub struct ProjectFacts {
    pub id: u128,
    pub name: String,
    pub status: ProjectStatus,
    pub budget_cents: Option<u64>,
    pub tasks_total: usize,
    pub tasks_open: usize,
    pub offer_amount_cents: Option<u64>,
}

/// Only the facts a role is allowed to see, for one run.
#[derive(Debug, Clone)]
pub struct RoleInput {
    pub role: RoleId,
    /// `zh` or `en`.
    pub lang: String,
    pub venture_name: String,
    pub service: String,
    pub currency: String,
    pub gst_registered: bool,
    pub customer: Option<CustomerFacts>,
    pub document: Option<DocumentFacts>,
    pub project: Option<ProjectFacts>,
    /// Which stored facts the run read (field paths, never values).
    pub evidence: Vec<String>,
}

/// The exact, fully specified change an approval applies. Nothing is
/// re-derived at approval time: what the founder read is what happens.
#[derive(Debug, Clone)]
pub enum ProposedChange {
    /// Appends a dated, structured discovery summary to the customer's notes.
    DiscoverySummary {
        customer_id: u128,
        problems: Vec<String>,
        constraints: Vec<String>,
        budget: String,
        open_questions: Vec<String>,
        assumptions: Vec<String>,
    },
    /// Creates a draft offer; the founder edits and sends it as usual.
    OfferDraft {
        customer_id: u128,
        title: String,
        body: String,
        amount_cents: Option<u64>,
        assumptions: Vec<String>,
    },
    /// Creates a project (unless `project_id` names an existing one) and its tasks.
    DeliveryPlan {
        customer_id: u128,
        offer_id: Option<u128>,
        project_id: Option<u128>,
        project_name: String,
        tasks: Vec<PlannedTask>,
        acceptance_criteria: Vec<String>,
    },
    /// Creates a draft invoice linked to a project.
    InvoiceDraft {
        customer_id: u128,
        project_id: Option<u128>,
        title: String,
        body: String,
        amount_cents: u64,
        due_in_days: u32,
    },
    /// Records review findings against a document; approving acknowledges
    /// them (no business state changes).
    ReviewFindings { document_id: u128, findings: Vec<ReviewFinding> },
    /// Records a compliance check report; approving acknowledges it.
    ComplianceReport { report_id: u128 },
}

pub open spec fn change_kind(c: ProposedChange) -> Seq<char> {
    match c {
        ProposedChange::DiscoverySummary { .. } => "discovery_summary"@,
        ProposedChange::OfferDraft { .. } => "offer_draft"@,
        ProposedChange::DeliveryPlan { .. } => "delivery_plan"@,
        ProposedChange::InvoiceDraft { .. } => "invoice_draft"@,
        ProposedChange::ReviewFindings { .. } => "review_findings"@,
        ProposedChange::ComplianceReport { .. } => "compliance_report"@,
    }
}

impl ProposedChange {
    /// The stable name of the change's kind.
    pub fn kind(&self) -> (r: &'static str)
        ensures
            r@ == change_kind(*self),
    {
        match self {
            ProposedChange::DiscoverySummary { .. } => "discovery_summary",
            ProposedChange::OfferDraft { .. } => "offer_draft",
            ProposedChange::DeliveryPlan { .. } => "delivery_plan",
            ProposedChange::InvoiceDraft { .. } => "invoice_draft",
            ProposedChange::ReviewFindings { .. } => "review_findings",
            ProposedChange::ComplianceReport { .. } => "compliance_report",
        }
    }
}

/// The pieces, one after another.
pub open spec fn cat(parts: Seq<Seq<char>>) -> Seq<char>
    decreases parts.len(),
{
    if parts.len() == 0 {
        Seq::empty()
    } else {
        cat(parts.drop_last()) + parts.last()
    }
}

pub fn cat_strs(parts: &[&str]) -> (r: String)
    ensures
        r@ == cat(str_views(parts@)),
{
    let mut out = String::new();
    let mut i: usize = 0;
    while i < parts.len()
        invariant
            i <= parts@.len(),
            out@ == cat(str_views(parts@).take(i as int)),
        decreases parts@.len() - i,
    {
        assert(str_views(parts@).take(i + 1).drop_last() =~= str_views(parts@).take(i as int));
        push_str(&mut out, parts[i]);
        i += 1;
    }
    assert(str_views(parts@).take(i as int) =~= str_views(parts@));
    out
}

/// At most the first `n` items.
pub open spec fn cap<T>(s: Seq<T>, n: int) -> Seq<T> {
    if s.len() > n {
        s.take(n)
    } else {
        s
    }
}

pub fn invalid(message: &str) -> (e: WorkspaceError)
    ensures
        e matches WorkspaceError::Invalid(m) && m@ == message@,
{
    WorkspaceError::Invalid(owned(message))
}

// ---------------------------------------------------------------------------
// Requirements analyst
// ---------------------------------------------------------------------------

/// A sentence that talks about money.
pub open spec fn budget_sentence(lower: Seq<char>) -> bool {
    has_sub(lower, "budget"@) || has_sub(lower, "预算"@) || has_sub(lower, "sgd"@) || has_sub(lower, "usd"@)
        || has_sub(lower, "$"@)
}

/// Words that mark a constraint.
pub open spec fn constraint_markers() -> Seq<Seq<char>> {
    seq!["must"@, "need"@, "approv"@, "deadline"@, "by "@, "constraint"@, "cannot"@, "only"@, "必须"@, "需要"@, "审批"@, "截止"@, "限制"@, "不能"@]
}

/// 2 for a budget line, 1 for a constraint, 0 for a problem.
pub open spec fn sentence_class(s: Seq<char>) -> int {
    let lower = lowercase_of(s);
    if budget_sentence(lower) {
        2
    } else if mentions_any(lower, constraint_markers()) {
        1
    } else {
        0
    }
}

/// The sentences of class `k`, in order.
pub open spec fn of_class(ss: Seq<Seq<char>>, k: int) -> Seq<Seq<char>>
    decreases ss.len(),
{
    if ss.len() == 0 {
        Seq::empty()
    } else {
        of_class(ss.drop_last(), k) + opt(sentence_class(ss.last()) == k, ss.last())
    }
}

/// The sentences the analyst reads: those of the discovery notes, then of
/// the notes, up to twice the list cap.
pub open spec fn analyst_sentences(c: CustomerFacts) -> Seq<Seq<char>> {
    cap(split_sentences_spec(c.discovery_notes@ + "\n"@ + c.notes@), 2 * MAX_LIST_ITEMS as int)
}

pub open spec fn analyst_budget(ss: Seq<Seq<char>>, zh: bool) -> Seq<char> {
    if of_class(ss, 2).len() == 0 {
        pick(zh, "not stated"@, "未说明"@)
    } else {
        joined(of_class(ss, 2), " "@)
    }
}

pub open spec fn analyst_questions(problems: Seq<Seq<char>>, zh: bool) -> Seq<Seq<char>> {
    opt(problems.len() == 0, pick(zh, "Capture discovery notes first; there is nothing to analyse yet."@, "先记录客户的需求笔记,再让分析员整理。"@)) + if zh {
        seq!["谁最终批准预算和签约?"@, "90 天内怎样算成功?"@, "涉及哪些系统、数据和相关人员?"@]
    } else {
        seq!["Who signs off the budget and the engagement?"@, "What does success look like in 90 days?"@, "Which systems, data, and people are involved?"@]
    }
}

pub open spec fn analyst_assumption(zh: bool) -> Seq<char> {
    pick(zh, "Problems and constraints are split mechanically from your notes and are not customer-confirmed."@, "以上问题和约束来自笔记原文的机械拆分,尚未经客户确认。"@)
}

pub open spec fn analyst_summary(name: Seq<char>, problems: nat, constraints: nat, budget: Seq<char>, zh: bool) -> Seq<char> {
    if zh {
        "从 "@ + name + " 的笔记里整理出 "@ + decimal(problems) + " 个问题、"@ + decimal(constraints) + " 条约束,预算:"@ + budget + "。这是模板整理,不是模型分析。"@
    } else {
        "Sorted "@ + name + "'s notes into "@ + decimal(problems) + " problem(s) and "@ + decimal(constraints) + " constraint(s); budget: "@ + budget + ". Template analysis, not a model's."@
    }
}

/// The analyst's draft: the notes split into sentences, each sorted as a
/// budget line, a constraint, or a problem.
pub open spec fn analyst_draft(c: CustomerFacts, zh: bool, change: ProposedChange, summary: Seq<char>) -> bool {
    let ss = analyst_sentences(c);
    let problems = cap(of_class(ss, 0), MAX_LIST_ITEMS as int);
    let constraints = cap(of_class(ss, 1), MAX_LIST_ITEMS as int);
    let budget = analyst_budget(ss, zh);
    &&& change matches ProposedChange::DiscoverySummary {
        customer_id,
        problems: p,
        constraints: k,
        budget: b,
        open_questions: q,
        assumptions: a,
    } && customer_id == c.id && string_views(p@) == problems && string_views(k@) == constraints
        && b@ == budget && string_views(q@) == analyst_questions(problems, zh) && string_views(a@)
        == seq![analyst_assumption(zh)]
    &&& summary == analyst_summary(c.name@, problems.len(), constraints.len(), budget, zh)
}

fn sentence_kind(s: &String) -> (r: u8)
    ensures
        r == sentence_class(s@),
{
    let lower = lower_chars(s.as_str());
    if contains_str(&lower, "budget") || contains_str(&lower, "预算") || contains_str(&lower, "sgd")
        || contains_str(&lower, "usd") || contains_str(&lower, "$") {
        2
    } else {
        let markers: [&str; 14] = ["must", "need", "approv", "deadline", "by ", "constraint", "cannot", "only", "必须", "需要", "审批", "截止", "限制", "不能"];
        assert(str_views(markers@) =~= constraint_markers());
        if mentions_marker(&lower, &markers) {
            1
        } else {
            0
        }
    }
}

fn analyst(c: &CustomerFacts, zh: bool) -> (r: (ProposedChange, String))
    ensures
        analyst_draft(*c, zh, r.0, r.1@),
{
    let mut text = c.discovery_notes.clone();
    push_str(&mut text, "\n");
    push_str(&mut text, c.notes.as_str());
    let sentences = split_sentences(text.as_str());
    let ghost ss = analyst_sentences(*c);
    let n: usize = if sentences.len() > 2 * MAX_LIST_ITEMS {
        2 * MAX_LIST_ITEMS
    } else {
        sentences.len()
    };
    assert(string_views(sentences@).take(n as int) =~= ss);
    let mut problems: Vec<String> = Vec::new();
    let mut constraints: Vec<String> = Vec::new();
    let mut budget_lines: Vec<String> = Vec::new();
    let mut i: usize = 0;
    while i < n
        invariant
            i <= n <= sentences@.len(),
            ss == string_views(sentences@).take(n as int),
            string_views(problems@) == of_class(ss.take(i as int), 0),
            string_views(constraints@) == of_class(ss.take(i as int), 1),
            string_views(budget_lines@) == of_class(ss.take(i as int), 2),
        decreases n - i,
    {
        assert(ss.take(i + 1).drop_last() =~= ss.take(i as int));
        assert(ss.take(i + 1).last() == sentences@[i as int]@);
        let k = sentence_kind(&sentences[i]);
        let s = sentences[i].clone();
        let ghost p0 = string_views(problems@);
        let ghost c0 = string_views(constraints@);
        let ghost b0 = string_views(budget_lines@);
        if k == 2 {
            budget_lines.push(s);
            assert(string_views(budget_lines@) =~= b0.push(sentences@[i as int]@));
            assert(string_views(problems@) =~= p0 + opt(false, sentences@[i as int]@));
            assert(string_views(constraints@) =~= c0 + opt(false, sentences@[i as int]@));
        } else if k == 1 {
            constraints.push(s);
            assert(string_views(constraints@) =~= c0.push(sentences@[i as int]@));
            assert(string_views(problems@) =~= p0 + opt(false, sentences@[i as int]@));
            assert(string_views(budget_lines@) =~= b0 + opt(false, sentences@[i as int]@));
        } else {
            problems.push(s);
            assert(string_views(problems@) =~= p0.push(sentences@[i as int]@));
            assert(string_views(constraints@) =~= c0 + opt(false, sentences@[i as int]@));
            assert(string_views(budget_lines@) =~= b0 + opt(false, sentences@[i as int]@));
        }
        i += 1;
    }
    assert(ss.take(n as int) =~= ss);
    problems.truncate(MAX_LIST_ITEMS);
    constraints.truncate(MAX_LIST_ITEMS);
    assert(string_views(problems@) =~= cap(of_class(ss, 0), MAX_LIST_ITEMS as int));
    assert(string_views(constraints@) =~= cap(of_class(ss, 1), MAX_LIST_ITEMS as int));
    let budget = if budget_lines.len() == 0 {
        pick_str(zh, "not stated", "未说明")
    } else {
        join(&budget_lines, " ")
    };
    let mut questions: Vec<String> = Vec::new();
    if problems.len() == 0 {
        questions.push(pick_str(zh, "Capture discovery notes first; there is nothing to analyse yet.", "先记录客户的需求笔记,再让分析员整理。"));
    }
    if zh {
        questions.push(owned("谁最终批准预算和签约?"));
        questions.push(owned("90 天内怎样算成功?"));
        questions.push(owned("涉及哪些系统、数据和相关人员?"));
    } else {
        questions.push(owned("Who signs off the budget and the engagement?"));
        questions.push(owned("What does success look like in 90 days?"));
        questions.push(owned("Which systems, data, and people are involved?"));
    }
    assert(string_views(questions@) =~= analyst_questions(string_views(problems@), zh));
    let mut assumptions: Vec<String> = Vec::new();
    assumptions.push(pick_str(zh, "Problems and constraints are split mechanically from your notes and are not customer-confirmed.", "以上问题和约束来自笔记原文的机械拆分,尚未经客户确认。"));
    assert(string_views(assumptions@) =~= seq![analyst_assumption(zh)]);
    let pn = decimal_text(problems.len());
    let cn = decimal_text(constraints.len());
    let summary = if zh {
        let parts: [&str; 9] = ["从 ", c.name.as_str(), " 的笔记里整理出 ", pn.as_str(), " 个问题、", cn.as_str(), " 条约束,预算:", budget.as_str(), "。这是模板整理,不是模型分析。"];
        let ghost v = str_views(parts@);
        assert(cat(v) =~= analyst_summary(c.name@, problems@.len(), constraints@.len(), budget@, zh)) by {
            reveal_with_fuel(cat, 10);
        }
        cat_strs(&parts)
    } else {
        let parts: [&str; 9] = ["Sorted ", c.name.as_str(), "'s notes into ", pn.as_str(), " problem(s) and ", cn.as_str(), " constraint(s); budget: ", budget.as_str(), ". Template analysis, not a model's."];
        let ghost v = str_views(parts@);
        assert(cat(v) =~= analyst_summary(c.name@, problems@.len(), constraints@.len(), budget@, zh)) by {
            reveal_with_fuel(cat, 10);
        }
        cat_strs(&parts)
    };
    (
        ProposedChange::DiscoverySummary {
            customer_id: c.id,
            problems,
            constraints,
            budget,
            open_questions: questions,
            assumptions,
        },
        summary,
    )
}


// ---------------------------------------------------------------------------
// Proposal writer
// ---------------------------------------------------------------------------

/// The notes a proposal is written from: the discovery notes, or the plain
/// notes where there are none.
pub open spec fn proposal_context(c: CustomerFacts) -> Seq<char> {
    if trimmed(c.discovery_notes@).len() == 0 {
        c.notes@
    } else {
        c.discovery_notes@
    }
}

pub open spec fn shown_context(ctx: Seq<char>, zh: bool) -> Seq<char> {
    if trimmed(ctx).len() == 0 {
        pick(zh, "(no discovery notes recorded yet)"@, "(尚无需求记录)"@)
    } else {
        trimmed(ctx)
    }
}

pub open spec fn proposal_title(input: RoleInput, c: CustomerFacts, zh: bool) -> Seq<char> {
    if zh {
        "方案 — "@ + input.venture_name@ + " 为 "@ + c.name@ + " 提供"@ + input.service@
    } else {
        "Proposal — "@ + input.service@ + " for "@ + c.name@
    }
}

pub open spec fn proposal_body(input: RoleInput, shown: Seq<char>, al: Seq<char>, zh: bool) -> Seq<char> {
    if zh {
        "方案(草稿,由 AI 员工“报价助理”起草,发送前请审阅)\n\n背景\n"@ + shown + "\n\n范围\n- 评估现状并明确目标\n- 交付:"@ + input.service@ + "\n- 交付物与验收标准将在启动会确认\n\n交付物\n- 现状评估与改进建议\n- 实施计划与交接材料\n\n周期\n约 4 周,自启动会起算。\n\n费用\n"@ + al + "\n\n假设\n- 客户在 5 个工作日内提供所需资料\n- 范围以本方案为准,变更另议\n\n下一步\n30 分钟的范围确认会。"@
    } else {
        "PROPOSAL (DRAFT — prepared by the AI Proposal Writer; review before sending)\n\nContext\n"@ + shown + "\n\nScope\n- Assess the current situation and agree the goal\n- Deliver: "@ + input.service@ + "\n- Deliverables and acceptance criteria confirmed at kickoff\n\nDeliverables\n- Assessment and improvement recommendations\n- Implementation plan and handover material\n\nTimeline\nAbout 4 weeks from the kickoff call.\n\nInvestment\n"@ + al + "\n\nAssumptions\n- The customer provides the needed material within 5 working days\n- Scope is as written here; changes are agreed separately\n\nNext step\nA 30-minute scoping call."@
    }
}

pub open spec fn proposal_assumption(zh: bool) -> Seq<char> {
    pick(zh, "The amount is the midpoint of the budget range found in the notes; left open when no budget was stated."@, "金额取自笔记中的预算区间中点;没有预算时留空待确认。"@)
}

pub open spec fn proposal_summary(name: Seq<char>, al: Seq<char>, zh: bool) -> Seq<char> {
    if zh {
        "为 "@ + name + " 起草了一份方案草稿("@ + al + ")。模板起草,不是模型输出。"@
    } else {
        "Drafted a proposal for "@ + name + " ("@ + al + "). Template draft, not a model's."@
    }
}

/// The proposal writer's draft: a fixed outline around the customer's own
/// notes, priced at the midpoint of the budget the notes state, if any.
pub open spec fn proposal_draft(input: RoleInput, c: CustomerFacts, zh: bool, change: ProposedChange, summary: Seq<char>) -> bool {
    let ctx = proposal_context(c);
    let amount = budget_midpoint_spec(ctx);
    let al = amount_line_spec(amount, input.currency@, zh);
    &&& change matches ProposedChange::OfferDraft { customer_id, title, body, amount_cents, assumptions }
        && customer_id == c.id && title@ == proposal_title(input, c, zh) && body@ == proposal_body(
        input,
        shown_context(ctx, zh),
        al,
        zh,
    ) && amount_cents == amount && string_views(assumptions@) == seq![proposal_assumption(zh)]
    &&& summary == proposal_summary(c.name@, al, zh)
}

#[verifier::rlimit(40)]
fn proposal_writer(input: &RoleInput, c: &CustomerFacts, zh: bool) -> (r: (ProposedChange, String))
    ensures
        proposal_draft(*input, *c, zh, r.0, r.1@),
{
    let dn = chars_of(c.discovery_notes.as_str());
    let context = if trim(&dn).len() == 0 {
        c.notes.clone()
    } else {
        c.discovery_notes.clone()
    };
    let amount_cents = budget_midpoint_cents(context.as_str());
    let al = amount_line(amount_cents, input.currency.as_str(), zh);
    let cv = chars_of(context.as_str());
    let tv = trim(&cv);
    let shown = if tv.len() == 0 {
        pick_str(zh, "(no discovery notes recorded yet)", "(尚无需求记录)")
    } else {
        string_of(&tv)
    };
    let title = if zh {
        let parts: [&str; 7] = ["方案 — ", input.venture_name.as_str(), " 为 ", c.name.as_str(), " 提供", input.service.as_str(), ""];
        assert(cat(str_views(parts@)) =~= proposal_title(*input, *c, zh)) by {
            reveal_with_fuel(cat, 10);
            reveal_strlit("");
        }
        cat_strs(&parts)
    } else {
        let parts: [&str; 5] = ["Proposal — ", input.service.as_str(), " for ", c.name.as_str(), ""];
        assert(cat(str_views(parts@)) =~= proposal_title(*input, *c, zh)) by {
            reveal_with_fuel(cat, 10);
            reveal_strlit("");
        }
        cat_strs(&parts)
    };
    let body = if zh {
        let parts: [&str; 7] = ["方案(草稿,由 AI 员工“报价助理”起草,发送前请审阅)\n\n背景\n", shown.as_str(), "\n\n范围\n- 评估现状并明确目标\n- 交付:", input.service.as_str(), "\n- 交付物与验收标准将在启动会确认\n\n交付物\n- 现状评估与改进建议\n- 实施计划与交接材料\n\n周期\n约 4 周,自启动会起算。\n\n费用\n", al.as_str(), "\n\n假设\n- 客户在 5 个工作日内提供所需资料\n- 范围以本方案为准,变更另议\n\n下一步\n30 分钟的范围确认会。"];
        assert(cat(str_views(parts@)) =~= proposal_body(*input, shown@, al@, zh)) by {
            reveal_with_fuel(cat, 10);
        }
        cat_strs(&parts)
    } else {
        let parts: [&str; 7] = ["PROPOSAL (DRAFT — prepared by the AI Proposal Writer; review before sending)\n\nContext\n", shown.as_str(), "\n\nScope\n- Assess the current situation and agree the goal\n- Deliver: ", input.service.as_str(), "\n- Deliverables and acceptance criteria confirmed at kickoff\n\nDeliverables\n- Assessment and improvement recommendations\n- Implementation plan and handover material\n\nTimeline\nAbout 4 weeks from the kickoff call.\n\nInvestment\n", al.as_str(), "\n\nAssumptions\n- The customer provides the needed material within 5 working days\n- Scope is as written here; changes are agreed separately\n\nNext step\nA 30-minute scoping call."];
        assert(cat(str_views(parts@)) =~= proposal_body(*input, shown@, al@, zh)) by {
            reveal_with_fuel(cat, 10);
        }
        cat_strs(&parts)
    };
    let mut assumptions: Vec<String> = Vec::new();
    assumptions.push(pick_str(zh, "The amount is the midpoint of the budget range found in the notes; left open when no budget was stated.", "金额取自笔记中的预算区间中点;没有预算时留空待确认。"));
    assert(string_views(assumptions@) =~= seq![proposal_assumption(zh)]);
    let summary = if zh {
        let parts: [&str; 5] = ["为 ", c.name.as_str(), " 起草了一份方案草稿(", al.as_str(), ")。模板起草,不是模型输出。"];
        assert(cat(str_views(parts@)) =~= proposal_summary(c.name@, al@, zh)) by {
            reveal_with_fuel(cat, 10);
        }
        cat_strs(&parts)
    } else {
        let parts: [&str; 5] = ["Drafted a proposal for ", c.name.as_str(), " (", al.as_str(), "). Template draft, not a model's."];
        assert(cat(str_views(parts@)) =~= proposal_summary(c.name@, al@, zh)) by {
            reveal_with_fuel(cat, 10);
        }
        cat_strs(&parts)
    };
    (ProposedChange::OfferDraft { customer_id: c.id, title, body, amount_cents, assumptions }, summary)
}


// ---------------------------------------------------------------------------
// Delivery planner
// ---------------------------------------------------------------------------

/// `s` with every occurrence of `pat` removed, left to right.
pub open spec fn remove_all(s: Seq<char>, pat: Seq<char>) -> Seq<char>
    decreases s.len(),
{
    if s.len() == 0 {
        s
    } else if pat.len() > 0 && pat.len() <= s.len() && s.subrange(0, pat.len() as int) == pat {
        remove_all(s.subrange(pat.len() as int, s.len() as int), pat)
    } else {
        seq![s[0]] + remove_all(s.subrange(1, s.len() as int), pat)
    }
}

/// `str::replace(pat, "")`.
fn remove_text(s: &Vec<char>, pat: &str) -> (r: Vec<char>)
    ensures
        r@ == remove_all(s@, pat@),
{
    let p = chars_of(pat);
    let mut out: Vec<char> = Vec::new();
    let mut i: usize = 0;
    assert(s@.subrange(0, s@.len() as int) =~= s@);
    while i < s.len()
        invariant
            i <= s@.len(),
            p@ == pat@,
            out@ + remove_all(s@.subrange(i as int, s@.len() as int), p@) == remove_all(s@, p@),
        decreases s@.len() - i,
    {
        let ghost rest = s@.subrange(i as int, s@.len() as int);
        if p.len() > 0 && matches_at(s, &p, i) {
            assert(rest.subrange(0, p@.len() as int) =~= s@.subrange(i as int, i + p@.len()));
            assert(rest.subrange(p@.len() as int, rest.len() as int) =~= s@.subrange(
                i + p@.len(),
                s@.len() as int,
            ));
            i = i + p.len();
        } else {
            assert(!(p@.len() > 0 && p@.len() <= rest.len() && rest.subrange(0, p@.len() as int)
                == p@)) by {
                if p@.len() > 0 && p@.len() <= rest.len() && rest.subrange(0, p@.len() as int) == p@ {
                    assert(s@.subrange(i as int, i + p@.len()) =~= rest.subrange(0, p@.len() as int));
                }
            }
            assert(rest.subrange(1, rest.len() as int) =~= s@.subrange(i + 1, s@.len() as int));
            let ghost before = out@;
            out.push(s[i]);
            assert(out@ + remove_all(s@.subrange(i + 1, s@.len() as int), p@) =~= before + (seq![
                rest[0],
            ] + remove_all(rest.subrange(1, rest.len() as int), p@)));
            i = i + 1;
        }
    }
    assert(s@.subrange(i as int, s@.len() as int) =~= Seq::<char>::empty());
    assert(out@ + Seq::<char>::empty() =~= out@);
    out
}

pub open spec fn plan_project_name(input: RoleInput, c: CustomerFacts) -> Seq<char> {
    match input.document {
        Some(d) => remove_all(remove_all(d.title@, "Proposal — "@), "方案 — "@),
        None => input.service@ + " — "@ + c.name@,
    }
}

/// The template plan's task titles, in order.
pub open spec fn plan_titles(zh: bool) -> Seq<Seq<char>> {
    if zh {
        seq!["启动与范围确认会"@, "访谈与资料收集"@, "起草评估与建议"@, "与客户评审草稿"@, "最终交付与交接"@, "验收签字"@]
    } else {
        seq!["Kickoff and scoping call"@, "Discovery interviews"@, "Draft findings and recommendations"@, "Review draft with the customer"@, "Final delivery and handover"@, "Acceptance sign-off"@]
    }
}

/// Each template task's due day, counted from the start.
pub open spec fn plan_days() -> Seq<u32> {
    seq![3u32, 7u32, 14u32, 18u32, 25u32, 28u32]
}

pub open spec fn task_views(ts: Seq<PlannedTask>) -> Seq<(Seq<char>, u32)> {
    ts.map_values(|t: PlannedTask| (t.title@, t.due_in_days))
}

pub open spec fn plan_tasks(zh: bool) -> Seq<(Seq<char>, u32)> {
    Seq::new(6, |i: int| (plan_titles(zh)[i], plan_days()[i]))
}

pub open spec fn plan_criteria(zh: bool) -> Seq<Seq<char>> {
    if zh {
        seq!["客户书面确认交付物已收到"@, "建议清单中的每一项都有负责人和日期"@, "启动会确认的目标有可核对的结果"@]
    } else {
        seq!["The customer confirms receipt of the deliverables in writing"@, "Every recommendation has an owner and a date"@, "The goal agreed at kickoff has a checkable result"@]
    }
}

pub open spec fn plan_summary(name: Seq<char>, zh: bool) -> Seq<char> {
    if zh {
        "为 "@ + name + " 规划了 "@ + decimal(6nat) + " 个带日期的任务和 "@ + decimal(3nat) + " 条验收标准。模板计划,不是模型输出。"@
    } else {
        "Planned "@ + decimal(6nat) + " dated tasks and "@ + decimal(3nat) + " acceptance criteria for "@ + name + ". Template plan, not a model's."@
    }
}

/// The planner's draft: the fixed six-step plan and three acceptance
/// criteria, for the offer's project (or the service for this customer).
pub open spec fn plan_draft(input: RoleInput, c: CustomerFacts, zh: bool, change: ProposedChange, summary: Seq<char>) -> bool {
    let name = plan_project_name(input, c);
    &&& change matches ProposedChange::DeliveryPlan {
        customer_id,
        offer_id,
        project_id,
        project_name,
        tasks,
        acceptance_criteria,
    } && customer_id == c.id && offer_id == (match input.document {
        Some(d) => Some(d.id),
        None => None,
    }) && project_id == (match input.project {
        Some(p) => Some(p.id),
        None => None,
    }) && project_name@ == name && task_views(tasks@) == plan_tasks(zh) && string_views(
        acceptance_criteria@,
    ) == plan_criteria(zh)
    &&& summary == plan_summary(name, zh)
}

fn delivery_planner(input: &RoleInput, c: &CustomerFacts, zh: bool) -> (r: (ProposedChange, String))
    ensures
        plan_draft(*input, *c, zh, r.0, r.1@),
{
    let project_name = match &input.document {
        Some(d) => {
            let t = chars_of(d.title.as_str());
            let a = remove_text(&t, "Proposal — ");
            let b = remove_text(&a, "方案 — ");
            string_of(&b)
        },
        None => concat3(input.service.as_str(), " — ", c.name.as_str()),
    };
    let mut tasks: Vec<PlannedTask> = Vec::new();
    tasks.push(PlannedTask { title: pick_str(zh, "Kickoff and scoping call", "启动与范围确认会"), due_in_days: 3 });
    tasks.push(PlannedTask { title: pick_str(zh, "Discovery interviews", "访谈与资料收集"), due_in_days: 7 });
    tasks.push(PlannedTask { title: pick_str(zh, "Draft findings and recommendations", "起草评估与建议"), due_in_days: 14 });
    tasks.push(PlannedTask { title: pick_str(zh, "Review draft with the customer", "与客户评审草稿"), due_in_days: 18 });
    tasks.push(PlannedTask { title: pick_str(zh, "Final delivery and handover", "最终交付与交接"), due_in_days: 25 });
    tasks.push(PlannedTask { title: pick_str(zh, "Acceptance sign-off", "验收签字"), due_in_days: 28 });
    assert(task_views(tasks@) =~= plan_tasks(zh));
    let mut criteria: Vec<String> = Vec::new();
    if zh {
        criteria.push(owned("客户书面确认交付物已收到"));
        criteria.push(owned("建议清单中的每一项都有负责人和日期"));
        criteria.push(owned("启动会确认的目标有可核对的结果"));
    } else {
        criteria.push(owned("The customer confirms receipt of the deliverables in writing"));
        criteria.push(owned("Every recommendation has an owner and a date"));
        criteria.push(owned("The goal agreed at kickoff has a checkable result"));
    }
    assert(string_views(criteria@) =~= plan_criteria(zh));
    let tn = decimal_text(tasks.len());
    let cn = decimal_text(criteria.len());
    let summary = if zh {
        let parts: [&str; 7] = ["为 ", project_name.as_str(), " 规划了 ", tn.as_str(), " 个带日期的任务和 ", cn.as_str(), " 条验收标准。模板计划,不是模型输出。"];
        assert(cat(str_views(parts@)) =~= plan_summary(project_name@, zh)) by {
            reveal_with_fuel(cat, 10);
        }
        cat_strs(&parts)
    } else {
        let parts: [&str; 7] = ["Planned ", tn.as_str(), " dated tasks and ", cn.as_str(), " acceptance criteria for ", project_name.as_str(), ". Template plan, not a model's."];
        assert(cat(str_views(parts@)) =~= plan_summary(project_name@, zh)) by {
            reveal_with_fuel(cat, 10);
        }
        cat_strs(&parts)
    };
    let offer_id = match &input.document {
        Some(d) => Some(d.id),
        None => None,
    };
    let project_id = match &input.project {
        Some(p) => Some(p.id),
        None => None,
    };
    (
        ProposedChange::DeliveryPlan {
            customer_id: c.id,
            offer_id,
            project_id,
            project_name,
            tasks,
            acceptance_criteria: criteria,
        },
        summary,
    )
}

// ---------------------------------------------------------------------------
// Invoice clerk
// ---------------------------------------------------------------------------

/// The amount an invoice may carry: the offer's, else the project budget,
/// and only when it is more than zero.
pub open spec fn invoice_amount(p: ProjectFacts) -> Option<u64> {
    let base = match p.offer_amount_cents {
        Some(a) => Some(a),
        None => p.budget_cents,
    };
    match base {
        Some(a) => if a > 0 {
            Some(a)
        } else {
            None
        },
        None => None,
    }
}

pub open spec fn gst_line(registered: bool, zh: bool) -> Seq<char> {
    if registered {
        pick(zh, "GST-registered: GST applies per IRAS rules; tax is not computed in this draft."@, "本公司已注册 GST;GST 按 IRAS 规则适用,金额未含税计算。"@)
    } else {
        pick(zh, "Not GST-registered."@, "本公司未注册 GST。"@)
    }
}

pub open spec fn invoice_title(p: ProjectFacts, zh: bool) -> Seq<char> {
    if zh {
        "发票 — "@ + p.name@
    } else {
        "Invoice — "@ + p.name@
    }
}

pub open spec fn invoice_body(input: RoleInput, c: CustomerFacts, p: ProjectFacts, al: Seq<char>, zh: bool) -> Seq<char> {
    let g = gst_line(input.gst_registered, zh);
    if zh {
        "发票(草稿,由 AI 员工“账务助理”起草,开具前请审阅)\n\n开票方:"@ + input.venture_name@ + "\n客户:"@ + c.name@ + "\n\n项目:"@ + p.name@ + "\n交付内容:按已接受的方案范围完成交付\n\n金额:"@ + al + "\n付款期限:30 天\n"@ + g + "\n"@
    } else {
        "INVOICE (DRAFT — prepared by the AI Invoice Clerk; review before issuing)\n\nFrom: "@ + input.venture_name@ + "\nBill to: "@ + c.name@ + "\n\nProject: "@ + p.name@ + "\nDelivered: the scope of the accepted proposal\n\nAmount: "@ + al + "\nPayment terms: 30 days\n"@ + g + "\n"@
    }
}

pub open spec fn invoice_summary(p: ProjectFacts, al: Seq<char>, zh: bool) -> Seq<char> {
    if zh {
        "为 "@ + p.name@ + " 起草发票 "@ + al + "。模板起草,不是模型输出。"@
    } else {
        "Drafted an invoice for "@ + p.name@ + " ("@ + al + "). Template draft, not a model's."@
    }
}

/// The clerk's draft: an invoice for the project's amount, due in 30 days.
pub open spec fn invoice_draft(
    input: RoleInput,
    c: CustomerFacts,
    p: ProjectFacts,
    amount: u64,
    zh: bool,
    change: ProposedChange,
    summary: Seq<char>,
) -> bool {
    let al = amount_line_spec(Some(amount), input.currency@, zh);
    &&& change matches ProposedChange::InvoiceDraft {
        customer_id,
        project_id,
        title,
        body,
        amount_cents,
        due_in_days,
    } && customer_id == c.id && project_id == Some(p.id) && title@ == invoice_title(p, zh) && body@
        == invoice_body(input, c, p, al, zh) && amount_cents == amount && due_in_days == 30
    &&& summary == invoice_summary(p, al, zh)
}

fn invoice_clerk(input: &RoleInput, c: &CustomerFacts, p: &ProjectFacts, amount: u64, zh: bool) -> (r: (
    ProposedChange,
    String,
))
    ensures
        invoice_draft(*input, *c, *p, amount, zh, r.0, r.1@),
{
    let al = amount_line(Some(amount), input.currency.as_str(), zh);
    let g = if input.gst_registered {
        pick_str(zh, "GST-registered: GST applies per IRAS rules; tax is not computed in this draft.", "本公司已注册 GST;GST 按 IRAS 规则适用,金额未含税计算。")
    } else {
        pick_str(zh, "Not GST-registered.", "本公司未注册 GST。")
    };
    let title = if zh {
        concat3("发票 — ", p.name.as_str(), "")
    } else {
        concat3("Invoice — ", p.name.as_str(), "")
    };
    proof {
        reveal_strlit("");
    }
    let body = if zh {
        let parts: [&str; 11] = ["发票(草稿,由 AI 员工“账务助理”起草,开具前请审阅)\n\n开票方:", input.venture_name.as_str(), "\n客户:", c.name.as_str(), "\n\n项目:", p.name.as_str(), "\n交付内容:按已接受的方案范围完成交付\n\n金额:", al.as_str(), "\n付款期限:30 天\n", g.as_str(), "\n"];
        assert(cat(str_views(parts@)) =~= invoice_body(*input, *c, *p, al@, zh)) by {
            reveal_with_fuel(cat, 12);
        }
        cat_strs(&parts)
    } else {
        let parts: [&str; 11] = ["INVOICE (DRAFT — prepared by the AI Invoice Clerk; review before issuing)\n\nFrom: ", input.venture_name.as_str(), "\nBill to: ", c.name.as_str(), "\n\nProject: ", p.name.as_str(), "\nDelivered: the scope of the accepted proposal\n\nAmount: ", al.as_str(), "\nPayment terms: 30 days\n", g.as_str(), "\n"];
        assert(cat(str_views(parts@)) =~= invoice_body(*input, *c, *p, al@, zh)) by {
            reveal_with_fuel(cat, 12);
        }
        cat_strs(&parts)
    };
    let summary = if zh {
        let parts: [&str; 5] = ["为 ", p.name.as_str(), " 起草发票 ", al.as_str(), "。模板起草,不是模型输出。"];
        assert(cat(str_views(parts@)) =~= invoice_summary(*p, al@, zh)) by {
            reveal_with_fuel(cat, 10);
        }
        cat_strs(&parts)
    } else {
        let parts: [&str; 5] = ["Drafted an invoice for ", p.name.as_str(), " (", al.as_str(), "). Template draft, not a model's."];
        assert(cat(str_views(parts@)) =~= invoice_summary(*p, al@, zh)) by {
            reveal_with_fuel(cat, 10);
        }
        cat_strs(&parts)
    };
    (
        ProposedChange::InvoiceDraft {
            customer_id: c.id,
            project_id: Some(p.id),
            title,
            body,
            amount_cents: amount,
            due_in_days: 30,
        },
        summary,
    )
}


// ---------------------------------------------------------------------------
// Quality checker
// ---------------------------------------------------------------------------

/// `x` as a one-item list when `c` holds, else nothing.
pub open spec fn opt_item<T>(c: bool, x: T) -> Seq<T> {
    if c {
        seq![x]
    } else {
        Seq::empty()
    }
}

pub open spec fn review_views(fs: Seq<ReviewFinding>) -> Seq<(Seq<char>, Seq<char>)> {
    fs.map_values(|f: ReviewFinding| (f.kind@, f.detail@))
}

/// What the template check finds in a draft, as (kind, detail) pairs.
pub open spec fn review_spec(d: DocumentFacts, customer: Option<CustomerFacts>, zh: bool) -> Seq<
    (Seq<char>, Seq<char>),
> {
    let lower = lowercase_of(d.body@);
    let no_amount = match d.amount_cents {
        Some(a) => a == 0,
        None => true,
    };
    opt_item(d.kind == DocumentKind::Invoice && no_amount, ("gap"@, pick(zh, "The invoice has no amount."@, "发票没有金额。"@)))
        + opt_item(
        d.kind == DocumentKind::Offer && !(has_sub(lower, "scope"@) || has_sub(lower, "范围"@)),
        ("gap"@, pick(zh, "The proposal does not state a scope."@, "方案没有写明范围。"@)),
    ) + opt_item(
        d.kind == DocumentKind::Offer && !(has_sub(lower, "timeline"@) || has_sub(lower, "week"@)
            || has_sub(lower, "周期"@) || has_sub(lower, "周"@)),
        ("gap"@, pick(zh, "The proposal does not state a timeline."@, "方案没有写明周期。"@)),
    ) + opt_item(
        has_sub(lower, "to be confirmed"@) || has_sub(lower, "待确认"@) || has_sub(lower, "tbd"@)
            || has_sub(lower, "["@),
        ("placeholder"@, pick(zh, "The text still contains placeholders (\"to be confirmed\", \"TBD\", or brackets)."@, "文本仍有占位符(“待确认”、“TBD”或方括号)。"@)),
    ) + opt_item(trimmed(d.body@).len() < 120, ("gap"@, pick(zh, "The body is very short for a document a customer will read."@, "正文太短,客户可能看不明白。"@))) + opt_item(
        customer matches Some(c) && c.notes@.len() == 0 && c.discovery_notes@.len() == 0,
        ("risk"@, pick(zh, "There are no discovery notes for this customer, so the draft cannot be checked against what they said."@, "这位客户没有需求记录,无法核对草稿是否符合客户所说。"@)),
    )
}

pub open spec fn review_summary(d: DocumentFacts, n: nat, zh: bool) -> Seq<char> {
    if zh {
        "检查了“"@ + d.title@ + "”(第 "@ + decimal(d.revision as nat) + " 版):"@ + decimal(n) + " 条发现。模板检查,不是模型输出。"@
    } else {
        "Checked \""@ + d.title@ + "\" (revision "@ + decimal(d.revision as nat) + "): "@ + decimal(n) + " finding(s). Template check, not a model's."@
    }
}

/// The checker's draft: the findings of the fixed checks, in order.
pub open spec fn review_draft(input: RoleInput, d: DocumentFacts, zh: bool, change: ProposedChange, summary: Seq<char>) -> bool {
    let fs = review_spec(d, input.customer, zh);
    &&& change matches ProposedChange::ReviewFindings { document_id, findings } && document_id == d.id
        && review_views(findings@) == fs
    &&& summary == review_summary(d, fs.len(), zh)
}

fn push_finding(list: &mut Vec<ReviewFinding>, c: bool, kind: &str, detail: String)
    ensures
        review_views(final(list)@) == review_views(old(list)@) + opt_item(c, (kind@, detail@)),
{
    let ghost before = review_views(list@);
    if c {
        list.push(ReviewFinding { kind: owned(kind), detail });
        assert(review_views(list@) =~= before.push((kind@, detail@)));
    } else {
        assert(before + opt_item(c, (kind@, detail@)) =~= before);
    }
}

#[verifier::rlimit(40)]
fn review_findings(customer: &Option<CustomerFacts>, d: &DocumentFacts, zh: bool) -> (r: Vec<ReviewFinding>)
    ensures
        review_views(r@) == review_spec(*d, *customer, zh),
{
    let lower = lower_chars(d.body.as_str());
    let no_amount = match d.amount_cents {
        Some(a) => a == 0,
        None => true,
    };
    let mut findings: Vec<ReviewFinding> = Vec::new();
    push_finding(
        &mut findings,
        d.kind == DocumentKind::Invoice && no_amount,
        "gap",
        pick_str(zh, "The invoice has no amount.", "发票没有金额。"),
    );
    let scope = contains_str(&lower, "scope") || contains_str(&lower, "范围");
    push_finding(&mut findings, d.kind == DocumentKind::Offer && !scope, "gap", pick_str(zh, "The proposal does not state a scope.", "方案没有写明范围。"));
    let timeline = contains_str(&lower, "timeline") || contains_str(&lower, "week") || contains_str(
        &lower,
        "周期",
    ) || contains_str(&lower, "周");
    push_finding(&mut findings, d.kind == DocumentKind::Offer && !timeline, "gap", pick_str(zh, "The proposal does not state a timeline.", "方案没有写明周期。"));
    let placeholder = contains_str(&lower, "to be confirmed") || contains_str(&lower, "待确认")
        || contains_str(&lower, "tbd") || contains_str(&lower, "[");
    push_finding(&mut findings, placeholder, "placeholder", pick_str(zh, "The text still contains placeholders (\"to be confirmed\", \"TBD\", or brackets).", "文本仍有占位符(“待确认”、“TBD”或方括号)。"));
    let body = chars_of(d.body.as_str());
    let short = trim(&body).len() < 120;
    push_finding(&mut findings, short, "gap", pick_str(zh, "The body is very short for a document a customer will read.", "正文太短,客户可能看不明白。"));
    let no_notes = match customer {
        Some(c) => c.notes.as_str().is_empty() && c.discovery_notes.as_str().is_empty(),
        None => false,
    };
    push_finding(&mut findings, no_notes, "risk", pick_str(zh, "There are no discovery notes for this customer, so the draft cannot be checked against what they said.", "这位客户没有需求记录,无法核对草稿是否符合客户所说。"));
    findings
}

fn quality_checker(input: &RoleInput, d: &DocumentFacts, zh: bool) -> (r: (ProposedChange, String))
    ensures
        review_draft(*input, *d, zh, r.0, r.1@),
{
    let findings = review_findings(&input.customer, d, zh);
    let rev = decimal_text(d.revision as usize);
    let n = decimal_text(findings.len());
    let summary = if zh {
        let parts: [&str; 7] = ["检查了“", d.title.as_str(), "”(第 ", rev.as_str(), " 版):", n.as_str(), " 条发现。模板检查,不是模型输出。"];
        assert(cat(str_views(parts@)) =~= review_summary(*d, findings@.len(), zh)) by {
            reveal_with_fuel(cat, 10);
        }
        cat_strs(&parts)
    } else {
        let parts: [&str; 7] = ["Checked \"", d.title.as_str(), "\" (revision ", rev.as_str(), "): ", n.as_str(), " finding(s). Template check, not a model's."];
        assert(cat(str_views(parts@)) =~= review_summary(*d, findings@.len(), zh)) by {
            reveal_with_fuel(cat, 10);
        }
        cat_strs(&parts)
    };
    (ProposedChange::ReviewFindings { document_id: d.id, findings }, summary)
}

// ---------------------------------------------------------------------------
// Any role
// ---------------------------------------------------------------------------

pub open spec fn refused_with(r: Result<(ProposedChange, String), WorkspaceError>, m: Seq<char>) -> bool {
    r matches Err(WorkspaceError::Invalid(x)) && x@ == m
}

pub open spec fn gives(
    r: Result<(ProposedChange, String), WorkspaceError>,
    p: spec_fn(ProposedChange, Seq<char>) -> bool,
) -> bool {
    r matches Ok((change, summary)) && p(change, summary@)
}

/// The template draft for the role's input, or the prerequisite it lacks.
pub open spec fn drafted(input: RoleInput, r: Result<(ProposedChange, String), WorkspaceError>) -> bool {
    let zh = input.lang@ == "zh"@;
    match input.role {
        RoleId::Analyst => match input.customer {
            Some(c) => gives(r, |ch: ProposedChange, s: Seq<char>| analyst_draft(c, zh, ch, s)),
            None => refused_with(r, "choose a customer"@),
        },
        RoleId::ProposalWriter => match input.customer {
            Some(c) => gives(r, |ch: ProposedChange, s: Seq<char>| proposal_draft(input, c, zh, ch, s)),
            None => refused_with(r, "choose a customer"@),
        },
        RoleId::DeliveryPlanner => match input.customer {
            Some(c) => gives(r, |ch: ProposedChange, s: Seq<char>| plan_draft(input, c, zh, ch, s)),
            None => refused_with(r, "choose a customer"@),
        },
        RoleId::InvoiceClerk => match input.customer {
            None => refused_with(r, "choose a customer"@),
            Some(c) => match input.project {
                None => refused_with(r, "choose a finished project"@),
                Some(p) => match invoice_amount(p) {
                    None => refused_with(r, "the project has no offer amount or budget; set one before invoicing"@),
                    Some(a) => gives(
                        r,
                        |ch: ProposedChange, s: Seq<char>| invoice_draft(input, c, p, a, zh, ch, s),
                    ),
                },
            },
        },
        RoleId::QualityChecker => match input.document {
            Some(d) => gives(r, |ch: ProposedChange, s: Seq<char>| review_draft(input, d, zh, ch, s)),
            None => refused_with(r, "choose a draft"@),
        },
        RoleId::ComplianceChecker => refused_with(r, "the compliance checker runs from the Compliance page"@),
    }
}

/// The deterministic proposal for this input, plus the founder-facing
/// summary. Insufficient facts produce an honest "needs input" refusal,
/// never invented content.
pub fn deterministic_change(input: &RoleInput) -> (r: Result<(ProposedChange, String), WorkspaceError>)
    ensures
        drafted(*input, r),
{
    let zh = input.lang == owned("zh");
    match input.role {
        RoleId::Analyst => match &input.customer {
            Some(c) => Ok(analyst(c, zh)),
            None => Err(invalid("choose a customer")),
        },
        RoleId::ProposalWriter => match &input.customer {
            Some(c) => Ok(proposal_writer(input, c, zh)),
            None => Err(invalid("choose a customer")),
        },
        RoleId::DeliveryPlanner => match &input.customer {
            Some(c) => Ok(delivery_planner(input, c, zh)),
            None => Err(invalid("choose a customer")),
        },
        RoleId::InvoiceClerk => {
            let c = match &input.customer {
                Some(c) => c,
                None => {
                    return Err(invalid("choose a customer"));
                },
            };
            let p = match &input.project {
                Some(p) => p,
                None => {
                    return Err(invalid("choose a finished project"));
                },
            };
            let base = match p.offer_amount_cents {
                Some(a) => Some(a),
                None => p.budget_cents,
            };
            match base {
                Some(a) => if a > 0 {
                    Ok(invoice_clerk(input, c, p, a, zh))
                } else {
                    Err(invalid("the project has no offer amount or budget; set one before invoicing"))
                },
                None => Err(invalid("the project has no offer amount or budget; set one before invoicing")),
            }
        },
        RoleId::QualityChecker => match &input.document {
            Some(d) => Ok(quality_checker(input, d, zh)),
            None => Err(invalid("choose a draft")),
        },
        RoleId::ComplianceChecker => Err(invalid("the compliance checker runs from the Compliance page")),
    }
}


// ---------------------------------------------------------------------------
// Summaries of model-written changes
// ---------------------------------------------------------------------------

/// Cents as `units.cc`, without a currency.
pub open spec fn plain_amount(cents: u64) -> Seq<char> {
    decimal((cents / 100) as nat) + seq!['.'] + two_digits((cents % 100) as nat)
}

pub(crate) fn plain_amount_text(cents: u64) -> (r: String)
    ensures
        r@ == plain_amount(cents),
{
    let mut v: Vec<char> = Vec::new();
    push_decimal(&mut v, cents / 100);
    v.push('.');
    push_two_digits(&mut v, cents % 100);
    string_of(&v)
}

/// The founder-facing summary of a change a model produced.
pub open spec fn change_summary(c: ProposedChange, zh: bool) -> Seq<char> {
    match c {
        ProposedChange::DiscoverySummary { problems, constraints, budget, .. } => if zh {
            "模型整理出 "@ + decimal(problems@.len()) + " 个问题、"@ + decimal(constraints@.len()) + " 条约束,预算:"@ + budget@ + "。"@
        } else {
            "The model found "@ + decimal(problems@.len()) + " problem(s) and "@ + decimal(constraints@.len()) + " constraint(s); budget: "@ + budget@ + "."@
        },
        ProposedChange::OfferDraft { title, amount_cents, .. } => {
            let amount = match amount_cents {
                Some(cents) => plain_amount(cents),
                None => pick(zh, "amount open"@, "金额待定"@),
            };
            if zh {
                "模型起草了方案“"@ + title@ + "”("@ + amount + ")。"@
            } else {
                "The model drafted \""@ + title@ + "\" ("@ + amount + ")."@
            }
        },
        ProposedChange::DeliveryPlan { project_name, tasks, acceptance_criteria, .. } => if zh {
            "模型为 "@ + project_name@ + " 规划了 "@ + decimal(tasks@.len()) + " 个任务和 "@ + decimal(acceptance_criteria@.len()) + " 条验收标准。"@
        } else {
            "The model planned "@ + decimal(tasks@.len()) + " tasks and "@ + decimal(acceptance_criteria@.len()) + " acceptance criteria for "@ + project_name@ + "."@
        },
        ProposedChange::InvoiceDraft { title, amount_cents, due_in_days, .. } => if zh {
            "模型起草了发票“"@ + title@ + "”,金额 "@ + decimal((amount_cents / 100) as nat) + "."@ + two_digits((amount_cents % 100) as nat) + ","@ + decimal(due_in_days as nat) + " 天内到期。"@
        } else {
            "The model drafted \""@ + title@ + "\" for "@ + decimal((amount_cents / 100) as nat) + "."@ + two_digits((amount_cents % 100) as nat) + ", due in "@ + decimal(due_in_days as nat) + " days."@
        },
        ProposedChange::ReviewFindings { findings, .. } => if zh {
            "模型给出 "@ + decimal(findings@.len()) + " 条检查发现。"@
        } else {
            "The model reported "@ + decimal(findings@.len()) + " finding(s)."@
        },
        ProposedChange::ComplianceReport { .. } => pick(zh, "Compliance report."@, "合规检查报告。"@),
    }
}

fn two_digit_text(n: u64) -> (r: String)
    requires
        n < 100,
    ensures
        r@ == two_digits(n as nat),
{
    let mut v: Vec<char> = Vec::new();
    push_two_digits(&mut v, n);
    string_of(&v)
}

pub fn summarize_change(change: &ProposedChange, zh: bool) -> (r: String)
    ensures
        r@ == change_summary(*change, zh),
{
    proof {
        reveal_with_fuel(cat, 10);
        reveal_strlit("");
    }
    match change {
        ProposedChange::DiscoverySummary { problems, constraints, budget, .. } => {
            let p = decimal_text(problems.len());
            let c = decimal_text(constraints.len());
            if zh {
                cat_strs(&["模型整理出 ", p.as_str(), " 个问题、", c.as_str(), " 条约束,预算:", budget.as_str(), "。"])
            } else {
                cat_strs(&["The model found ", p.as_str(), " problem(s) and ", c.as_str(), " constraint(s); budget: ", budget.as_str(), "."])
            }
        },
        ProposedChange::OfferDraft { title, amount_cents, .. } => {
            let amount = match amount_cents {
                Some(cents) => plain_amount_text(*cents),
                None => pick_str(zh, "amount open", "金额待定"),
            };
            if zh {
                cat_strs(&["模型起草了方案“", title.as_str(), "”(", amount.as_str(), ")。"])
            } else {
                cat_strs(&["The model drafted \"", title.as_str(), "\" (", amount.as_str(), ")."])
            }
        },
        ProposedChange::DeliveryPlan { project_name, tasks, acceptance_criteria, .. } => {
            let t = decimal_text(tasks.len());
            let c = decimal_text(acceptance_criteria.len());
            if zh {
                cat_strs(&["模型为 ", project_name.as_str(), " 规划了 ", t.as_str(), " 个任务和 ", c.as_str(), " 条验收标准。"])
            } else {
                cat_strs(&["The model planned ", t.as_str(), " tasks and ", c.as_str(), " acceptance criteria for ", project_name.as_str(), "."])
            }
        },
        ProposedChange::InvoiceDraft { title, amount_cents, due_in_days, .. } => {
            let units = decimal_text_u64(*amount_cents / 100);
            let cents = two_digit_text(*amount_cents % 100);
            let days = decimal_text_u64(*due_in_days as u64);
            if zh {
                cat_strs(&["模型起草了发票“", title.as_str(), "”,金额 ", units.as_str(), ".", cents.as_str(), ",", days.as_str(), " 天内到期。"])
            } else {
                cat_strs(&["The model drafted \"", title.as_str(), "\" for ", units.as_str(), ".", cents.as_str(), ", due in ", days.as_str(), " days."])
            }
        },
        ProposedChange::ReviewFindings { findings, .. } => {
            let n = decimal_text(findings.len());
            if zh {
                cat_strs(&["模型给出 ", n.as_str(), " 条检查发现。"])
            } else {
                cat_strs(&["The model reported ", n.as_str(), " finding(s)."])
            }
        },
        ProposedChange::ComplianceReport { .. } => pick_str(zh, "Compliance report.", "合规检查报告。"),
    }
}

fn decimal_text_u64(n: u64) -> (r: String)
    ensures
        r@ == decimal(n as nat),
{
    let mut v: Vec<char> = Vec::new();
    push_decimal(&mut v, n);
    string_of(&v)
}

} // verus!
