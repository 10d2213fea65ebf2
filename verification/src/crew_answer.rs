//! A model's answer, once parsed, becomes the exact change the founder will
//! see only if every field is usable; anything else is refused with the
//! reason, and the template draft is used instead.
use vstd::prelude::*;

use crate::amounts::{amount_value, parse_amount_cents};
use crate::crew::{RoleCard, clean_item, clean_item_spec, clean_list, clean_long, clean_long_spec, PlannedTask, ReviewFinding, Rejection, RoleId, MAX_LIST_ITEMS};
use crate::crew_draft::{change_summary, summarize_change, review_views, task_views, CustomerFacts, DocumentFacts, ProjectFacts, ProposedChange, RoleInput};
use crate::report::first_of;
use crate::text::{ascii_lower, chars_of, owned, slice, starts_with, starts_with_str, string_of, string_views, trim, trimmed};

verus! {

/// The Requirements Analyst's answer.
#[derive(Debug, Clone)]
pub struct AnalystAnswer {
    pub problems: Vec<String>,
    pub constraints: Vec<String>,
    pub budget: String,
    pub open_questions: Vec<String>,
    pub assumptions: Vec<String>,
}

/// The Proposal Writer's answer.
#[derive(Debug, Clone)]
pub struct ProposalAnswer {
    pub title: String,
    pub body: String,
    pub amount: Option<String>,
    pub assumptions: Vec<String>,
}

#[derive(Debug, Clone)]
pub struct TaskAnswer {
    pub title: String,
    pub due_in_days: u32,
}

/// The Delivery Planner's answer.
#[derive(Debug, Clone)]
pub struct PlanAnswer {
    pub project_name: String,
    pub tasks: Vec<TaskAnswer>,
    pub acceptance_criteria: Vec<String>,
}

/// The Invoice Clerk's answer.
#[derive(Debug, Clone)]
pub struct InvoiceAnswer {
    pub title: String,
    pub body: String,
    pub amount: String,
    pub due_in_days: u32,
}

#[derive(Debug, Clone)]
pub struct FindingAnswer {
    pub kind: String,
    pub detail: String,
}

/// The Quality Checker's answer.
#[derive(Debug, Clone)]
pub struct ReviewAnswer {
    pub findings: Vec<FindingAnswer>,
}

/// A parsed answer, in the shape of the role that was asked.
#[derive(Debug, Clone)]
pub enum ModelAnswer {
    Analyst(AnalystAnswer),
    Proposal(ProposalAnswer),
    Plan(PlanAnswer),
    Invoice(InvoiceAnswer),
    Review(ReviewAnswer),
}

/// A model-written list: at most `MAX_LIST_ITEMS` items, each clean.
pub open spec fn clean_list_spec(items: Seq<Seq<char>>) -> Option<Seq<Seq<char>>> {
    if items.len() > MAX_LIST_ITEMS || exists|i: int| 0 <= i < items.len() && clean_item_spec(#[trigger] items[i]) is None {
        None
    } else {
        Some(items.map_values(|x: Seq<char>| clean_item_spec(x)->0))
    }
}

fn clean_strings(items: &Vec<String>) -> (r: Option<Vec<String>>)
    ensures
        match clean_list_spec(string_views(items@)) {
            Some(v) => r matches Some(x) && string_views(x@) == v,
            None => r is None,
        },
{
    let copied = copy_strings(items);
    let r = clean_list(copied);
    match r {
        Some(v) => {
            assert(string_views(v@) =~= string_views(items@).map_values(|x: Seq<char>| clean_item_spec(x)->0));
            Some(v)
        },
        None => {
            assert(clean_list_spec(string_views(items@)) is None) by {
                if items@.len() <= MAX_LIST_ITEMS {
                    let i = choose|i: int| 0 <= i < items@.len() && clean_item_spec((#[trigger] items@[i])@) is None;
                    assert(clean_item_spec(string_views(items@)[i]) is None);
                }
            }
            None
        },
    }
}

pub(crate) fn copy_strings(items: &Vec<String>) -> (r: Vec<String>)
    ensures
        r@ == items@,
{
    let mut out: Vec<String> = Vec::new();
    let mut i: usize = 0;
    while i < items.len()
        invariant
            i <= items@.len(),
            out@ == items@.take(i as int),
        decreases items@.len() - i,
    {
        out.push(items[i].clone());
        assert(out@ =~= items@.take(i + 1));
        i += 1;
    }
    assert(items@.take(i as int) =~= items@);
    out
}

/// The text from the first `{` on, where a JSON answer can start.
pub fn answer_start(text: &str) -> (r: Result<String, Rejection>)
    ensures
        first_of(text@, '{') < 0 ==> r == Err::<String, Rejection>(Rejection::NotJson),
        first_of(text@, '{') >= 0 ==> (r matches Ok(t) && t@ == text@.skip(first_of(text@, '{'))),
{
    let v = chars_of(text);
    let mut i: usize = 0;
    while i < v.len()
        invariant
            i <= v@.len(),
            v@ == text@,
            first_of(v@.take(i as int), '{') == -1,
        decreases v@.len() - i,
    {
        assert(v@.take(i + 1).drop_last() =~= v@.take(i as int));
        if v[i] == '{' {
            proof {
                lemma_first_prefix(v@, i + 1);
            }
            let rest = slice(&v, i, v.len());
            assert(rest@ =~= text@.skip(i as int));
            return Ok(string_of(&rest));
        }
        i += 1;
    }
    assert(v@.take(i as int) =~= v@);
    Err(Rejection::NotJson)
}

proof fn lemma_first_prefix(s: Seq<char>, k: int)
    requires
        0 <= k <= s.len(),
        first_of(s.take(k), '{') >= 0,
    ensures
        first_of(s, '{') == first_of(s.take(k), '{'),
    decreases s.len() - k,
{
    if k < s.len() {
        assert(s.take(k + 1).drop_last() =~= s.take(k));
        lemma_first_prefix(s, k + 1);
    } else {
        assert(s.take(k) =~= s);
    }
}

/// The budget a model gave, or "not stated" when it is not usable.
pub open spec fn budget_or_not_stated(b: Seq<char>) -> Seq<char> {
    match clean_item_spec(b) {
        Some(t) => t,
        None => "not stated"@,
    }
}

/// The answer becomes the change: the analyst's lists and budget.
pub open spec fn analyst_result(c: CustomerFacts, a: AnalystAnswer, r: Result<ProposedChange, Rejection>) -> bool {
    let ps = clean_list_spec(string_views(a.problems@));
    let cs = clean_list_spec(string_views(a.constraints@));
    let qs = clean_list_spec(string_views(a.open_questions@));
    let as_ = clean_list_spec(string_views(a.assumptions@));
    if ps is None {
        r == Err::<ProposedChange, Rejection>(Rejection::Field("problems"))
    } else if cs is None {
        r == Err::<ProposedChange, Rejection>(Rejection::Field("constraints"))
    } else if qs is None {
        r == Err::<ProposedChange, Rejection>(Rejection::Field("open_questions"))
    } else if as_ is None {
        r == Err::<ProposedChange, Rejection>(Rejection::Field("assumptions"))
    } else {
        r matches Ok(ProposedChange::DiscoverySummary { customer_id, problems, constraints, budget, open_questions, assumptions })
            && customer_id == c.id && string_views(problems@) == ps->0 && string_views(constraints@) == cs->0
            && budget@ == budget_or_not_stated(a.budget@) && string_views(open_questions@) == qs->0
            && string_views(assumptions@) == as_->0
    }
}

/// The amount a proposal states: none for a missing, empty, or `null`
/// amount; otherwise the cents the text reads as, when it does.
pub open spec fn proposal_amount(amount: Option<String>) -> Option<Option<u64>> {
    match amount {
        None => Some(None),
        Some(s) => {
            let t = trimmed(s@);
            if t.len() == 0 || t == "null"@ {
                Some(None)
            } else {
                match amount_value(t) {
                    Some(v) => if v <= u64::MAX {
                        Some(Some(v as u64))
                    } else {
                        None
                    },
                    None => None,
                }
            }
        },
    }
}

pub open spec fn proposal_result(c: CustomerFacts, a: ProposalAnswer, r: Result<ProposedChange, Rejection>) -> bool {
    let amount = proposal_amount(a.amount);
    let t = clean_item_spec(a.title@);
    let b = clean_long_spec(a.body@);
    let as_ = clean_list_spec(string_views(a.assumptions@));
    if amount is None {
        r == Err::<ProposedChange, Rejection>(Rejection::Field("amount"))
    } else if t is None {
        r == Err::<ProposedChange, Rejection>(Rejection::Field("title"))
    } else if b is None {
        r == Err::<ProposedChange, Rejection>(Rejection::Field("body"))
    } else if as_ is None {
        r == Err::<ProposedChange, Rejection>(Rejection::Field("assumptions"))
    } else {
        r matches Ok(ProposedChange::OfferDraft { customer_id, title, body, amount_cents, assumptions })
            && customer_id == c.id && title@ == t->0 && body@ == b->0 && amount_cents == amount->0
            && string_views(assumptions@) == as_->0
    }
}

pub open spec fn due_ok(days: u32) -> bool {
    1 <= days <= 365
}

/// The first task the plan cannot take, as the rejection it gives.
pub open spec fn task_fault(ts: Seq<TaskAnswer>) -> Option<Rejection>
    decreases ts.len(),
{
    if ts.len() == 0 {
        None
    } else {
        match task_fault(ts.drop_last()) {
            Some(e) => Some(e),
            None => if !due_ok(ts.last().due_in_days) {
                Some(Rejection::Field("due_in_days"))
            } else if clean_item_spec(ts.last().title@) is None {
                Some(Rejection::Field("task.title"))
            } else {
                None
            },
        }
    }
}

pub open spec fn cleaned_tasks(ts: Seq<TaskAnswer>) -> Seq<(Seq<char>, u32)> {
    ts.map_values(|t: TaskAnswer| (clean_item_spec(t.title@)->0, t.due_in_days))
}

pub open spec fn plan_result(input: RoleInput, c: CustomerFacts, a: PlanAnswer, r: Result<ProposedChange, Rejection>) -> bool {
    let name = clean_item_spec(a.project_name@);
    let crit = clean_list_spec(string_views(a.acceptance_criteria@));
    if a.tasks@.len() == 0 || a.tasks@.len() > MAX_LIST_ITEMS {
        r == Err::<ProposedChange, Rejection>(Rejection::ListSize("tasks"))
    } else if task_fault(a.tasks@) is Some {
        r == Err::<ProposedChange, Rejection>(task_fault(a.tasks@)->0)
    } else if name is None {
        r == Err::<ProposedChange, Rejection>(Rejection::Field("project_name"))
    } else if crit is None {
        r == Err::<ProposedChange, Rejection>(Rejection::Field("acceptance_criteria"))
    } else {
        r matches Ok(ProposedChange::DeliveryPlan { customer_id, offer_id, project_id, project_name, tasks, acceptance_criteria })
            && customer_id == c.id && offer_id == (match input.document {
            Some(d) => Some(d.id),
            None => None,
        }) && project_id == (match input.project {
            Some(p) => Some(p.id),
            None => None,
        }) && project_name@ == name->0 && task_views(tasks@) == cleaned_tasks(a.tasks@)
            && string_views(acceptance_criteria@) == crit->0
    }
}

pub open spec fn invoice_result(c: CustomerFacts, p: ProjectFacts, a: InvoiceAnswer, r: Result<ProposedChange, Rejection>) -> bool {
    let amount = amount_value(trimmed(a.amount@));
    let t = clean_item_spec(a.title@);
    let b = clean_long_spec(a.body@);
    if !(amount matches Some(v) && 0 < v <= u64::MAX) {
        r == Err::<ProposedChange, Rejection>(Rejection::Field("amount"))
    } else if !due_ok(a.due_in_days) {
        r == Err::<ProposedChange, Rejection>(Rejection::Field("due_in_days"))
    } else if t is None {
        r == Err::<ProposedChange, Rejection>(Rejection::Field("title"))
    } else if b is None {
        r == Err::<ProposedChange, Rejection>(Rejection::Field("body"))
    } else {
        r matches Ok(ProposedChange::InvoiceDraft { customer_id, project_id, title, body, amount_cents, due_in_days })
            && customer_id == c.id && project_id == Some(p.id) && title@ == t->0 && body@ == b->0
            && amount_cents == amount->0 && due_in_days == a.due_in_days
    }
}

/// The finding kinds a review may use.
pub open spec fn known_kind(k: Seq<char>) -> bool {
    k == "gap"@ || k == "contradiction"@ || k == "placeholder"@ || k == "risk"@
}

/// A kind as the review reads it: trimmed, ASCII lower case.
pub open spec fn kind_of(k: Seq<char>) -> Seq<char> {
    trimmed(k).map_values(|c: char| ascii_lower(c))
}

pub open spec fn finding_fault(fs: Seq<FindingAnswer>) -> Option<Rejection>
    decreases fs.len(),
{
    if fs.len() == 0 {
        None
    } else {
        match finding_fault(fs.drop_last()) {
            Some(e) => Some(e),
            None => if !known_kind(kind_of(fs.last().kind@)) {
                Some(Rejection::Field("finding.kind"))
            } else if clean_item_spec(fs.last().detail@) is None {
                Some(Rejection::Field("finding.detail"))
            } else {
                None
            },
        }
    }
}

pub open spec fn cleaned_findings(fs: Seq<FindingAnswer>) -> Seq<(Seq<char>, Seq<char>)> {
    fs.map_values(|f: FindingAnswer| (kind_of(f.kind@), clean_item_spec(f.detail@)->0))
}

pub open spec fn review_result(d: DocumentFacts, a: ReviewAnswer, r: Result<ProposedChange, Rejection>) -> bool {
    if a.findings@.len() > MAX_LIST_ITEMS {
        r == Err::<ProposedChange, Rejection>(Rejection::ListSize("findings"))
    } else if finding_fault(a.findings@) is Some {
        r == Err::<ProposedChange, Rejection>(finding_fault(a.findings@)->0)
    } else {
        r matches Ok(ProposedChange::ReviewFindings { document_id, findings }) && document_id == d.id
            && review_views(findings@) == cleaned_findings(a.findings@)
    }
}

/// What a parsed answer becomes for the role's input: the role's change, or
/// the first reason it is refused. The subject must have been loaded; an
/// answer in another role's shape has the wrong shape; the compliance
/// checker has no model path here.
pub open spec fn answer_result(input: RoleInput, answer: ModelAnswer, r: Result<ProposedChange, Rejection>) -> bool {
    match (input.role, answer) {
        (RoleId::ComplianceChecker, _) => r == Err::<ProposedChange, Rejection>(Rejection::NoModelPath),
        (RoleId::Analyst, ModelAnswer::Analyst(a)) => match input.customer {
            None => r == Err::<ProposedChange, Rejection>(Rejection::MissingSubject("customer")),
            Some(c) => analyst_result(c, a, r),
        },
        (RoleId::ProposalWriter, ModelAnswer::Proposal(a)) => match input.customer {
            None => r == Err::<ProposedChange, Rejection>(Rejection::MissingSubject("customer")),
            Some(c) => proposal_result(c, a, r),
        },
        (RoleId::DeliveryPlanner, ModelAnswer::Plan(a)) => match input.customer {
            None => r == Err::<ProposedChange, Rejection>(Rejection::MissingSubject("customer")),
            Some(c) => plan_result(input, c, a, r),
        },
        (RoleId::InvoiceClerk, ModelAnswer::Invoice(a)) => match input.customer {
            None => r == Err::<ProposedChange, Rejection>(Rejection::MissingSubject("customer")),
            Some(c) => match input.project {
                None => r == Err::<ProposedChange, Rejection>(Rejection::MissingSubject("project")),
                Some(p) => invoice_result(c, p, a, r),
            },
        },
        (RoleId::QualityChecker, ModelAnswer::Review(a)) => match input.document {
            None => r == Err::<ProposedChange, Rejection>(Rejection::MissingSubject("document")),
            Some(d) => review_result(d, a, r),
        },
        _ => r == Err::<ProposedChange, Rejection>(Rejection::WrongShape),
    }
}


fn analyst_change(c: &CustomerFacts, a: &AnalystAnswer) -> (r: Result<ProposedChange, Rejection>)
    ensures
        analyst_result(*c, *a, r),
{
    let problems = match clean_strings(&a.problems) {
        Some(v) => v,
        None => {
            return Err(Rejection::Field("problems"));
        },
    };
    let constraints = match clean_strings(&a.constraints) {
        Some(v) => v,
        None => {
            return Err(Rejection::Field("constraints"));
        },
    };
    let budget = match clean_item(a.budget.as_str()) {
        Some(b) => b,
        None => owned("not stated"),
    };
    let open_questions = match clean_strings(&a.open_questions) {
        Some(v) => v,
        None => {
            return Err(Rejection::Field("open_questions"));
        },
    };
    let assumptions = match clean_strings(&a.assumptions) {
        Some(v) => v,
        None => {
            return Err(Rejection::Field("assumptions"));
        },
    };
    Ok(ProposedChange::DiscoverySummary { customer_id: c.id, problems, constraints, budget, open_questions, assumptions })
}

fn is_null_word(t: &Vec<char>) -> (r: bool)
    ensures
        r == (t@ == "null"@),
{
    let n = string_of(t);
    n == owned("null")
}

fn proposal_change(c: &CustomerFacts, a: &ProposalAnswer) -> (r: Result<ProposedChange, Rejection>)
    ensures
        proposal_result(*c, *a, r),
{
    let amount_cents: Option<u64> = match &a.amount {
        None => None,
        Some(s) => {
            let t = trim(&chars_of(s.as_str()));
            if t.len() == 0 || is_null_word(&t) {
                None
            } else {
                let text = string_of(&t);
                proof {
                    lemma_trim_idempotent(s@);
                }
                match parse_amount_cents(text.as_str()) {
                    Ok(v) => Some(v),
                    Err(_) => {
                        return Err(Rejection::Field("amount"));
                    },
                }
            }
        },
    };
    let title = match clean_item(a.title.as_str()) {
        Some(t) => t,
        None => {
            return Err(Rejection::Field("title"));
        },
    };
    let body = match clean_long(a.body.as_str()) {
        Some(b) => b,
        None => {
            return Err(Rejection::Field("body"));
        },
    };
    let assumptions = match clean_strings(&a.assumptions) {
        Some(v) => v,
        None => {
            return Err(Rejection::Field("assumptions"));
        },
    };
    Ok(ProposedChange::OfferDraft { customer_id: c.id, title, body, amount_cents, assumptions })
}

/// Trimming trimmed text changes nothing.
pub proof fn lemma_trim_idempotent(s: Seq<char>)
    ensures
        trimmed(trimmed(s)) == trimmed(s),
{
    crate::text::lemma_trimmed_trimmed(s);
}

fn plan_change(input: &RoleInput, c: &CustomerFacts, a: &PlanAnswer) -> (r: Result<ProposedChange, Rejection>)
    ensures
        plan_result(*input, *c, *a, r),
{
    if a.tasks.len() == 0 || a.tasks.len() > MAX_LIST_ITEMS {
        return Err(Rejection::ListSize("tasks"));
    }
    let mut tasks: Vec<PlannedTask> = Vec::new();
    let mut i: usize = 0;
    while i < a.tasks.len()
        invariant
            i <= a.tasks@.len(),
            0 < a.tasks@.len() <= MAX_LIST_ITEMS,
            task_fault(a.tasks@.take(i as int)) is None,
            task_views(tasks@) == cleaned_tasks(a.tasks@.take(i as int)),
        decreases a.tasks@.len() - i,
    {
        let ghost ts = a.tasks@.take(i + 1);
        assert(ts.drop_last() =~= a.tasks@.take(i as int));
        assert(ts.last() == a.tasks@[i as int]);
        let t = &a.tasks[i];
        if !(1 <= t.due_in_days && t.due_in_days <= 365) {
            proof {
                lemma_task_fault_prefix(a.tasks@, i + 1);
            }
            return Err(Rejection::Field("due_in_days"));
        }
        let title = match clean_item(t.title.as_str()) {
            Some(x) => x,
            None => {
                proof {
                    lemma_task_fault_prefix(a.tasks@, i + 1);
                }
                return Err(Rejection::Field("task.title"));
            },
        };
        let ghost before = task_views(tasks@);
        tasks.push(PlannedTask { title, due_in_days: t.due_in_days });
        assert(task_views(tasks@) =~= before.push((clean_item_spec(t.title@)->0, t.due_in_days)));
        assert(cleaned_tasks(ts) =~= cleaned_tasks(a.tasks@.take(i as int)).push(
            (clean_item_spec(t.title@)->0, t.due_in_days),
        ));
        i += 1;
    }
    assert(a.tasks@.take(i as int) =~= a.tasks@);
    let project_name = match clean_item(a.project_name.as_str()) {
        Some(x) => x,
        None => {
            return Err(Rejection::Field("project_name"));
        },
    };
    let acceptance_criteria = match clean_strings(&a.acceptance_criteria) {
        Some(v) => v,
        None => {
            return Err(Rejection::Field("acceptance_criteria"));
        },
    };
    let offer_id = match &input.document {
        Some(d) => Some(d.id),
        None => None,
    };
    let project_id = match &input.project {
        Some(p) => Some(p.id),
        None => None,
    };
    Ok(ProposedChange::DeliveryPlan { customer_id: c.id, offer_id, project_id, project_name, tasks, acceptance_criteria })
}

proof fn lemma_task_fault_prefix(ts: Seq<TaskAnswer>, k: int)
    requires
        0 <= k <= ts.len(),
        task_fault(ts.take(k)) is Some,
    ensures
        task_fault(ts) == task_fault(ts.take(k)),
    decreases ts.len() - k,
{
    if k < ts.len() {
        assert(ts.take(k + 1).drop_last() =~= ts.take(k));
        lemma_task_fault_prefix(ts, k + 1);
    } else {
        assert(ts.take(k) =~= ts);
    }
}

proof fn lemma_finding_fault_prefix(fs: Seq<FindingAnswer>, k: int)
    requires
        0 <= k <= fs.len(),
        finding_fault(fs.take(k)) is Some,
    ensures
        finding_fault(fs) == finding_fault(fs.take(k)),
    decreases fs.len() - k,
{
    if k < fs.len() {
        assert(fs.take(k + 1).drop_last() =~= fs.take(k));
        lemma_finding_fault_prefix(fs, k + 1);
    } else {
        assert(fs.take(k) =~= fs);
    }
}

fn invoice_change(c: &CustomerFacts, p: &ProjectFacts, a: &InvoiceAnswer) -> (r: Result<ProposedChange, Rejection>)
    ensures
        invoice_result(*c, *p, *a, r),
{
    let t = string_of(&trim(&chars_of(a.amount.as_str())));
    proof {
        lemma_trim_idempotent(a.amount@);
    }
    let amount_cents = match parse_amount_cents(t.as_str()) {
        Ok(v) => v,
        Err(_) => {
            return Err(Rejection::Field("amount"));
        },
    };
    if amount_cents == 0 {
        return Err(Rejection::Field("amount"));
    }
    if !(1 <= a.due_in_days && a.due_in_days <= 365) {
        return Err(Rejection::Field("due_in_days"));
    }
    let title = match clean_item(a.title.as_str()) {
        Some(x) => x,
        None => {
            return Err(Rejection::Field("title"));
        },
    };
    let body = match clean_long(a.body.as_str()) {
        Some(x) => x,
        None => {
            return Err(Rejection::Field("body"));
        },
    };
    Ok(ProposedChange::InvoiceDraft {
        customer_id: c.id,
        project_id: Some(p.id),
        title,
        body,
        amount_cents,
        due_in_days: a.due_in_days,
    })
}

fn kind_text(k: &String) -> (r: Vec<char>)
    ensures
        r@ == kind_of(k@),
{
    let t = trim(&chars_of(k.as_str()));
    let mut out: Vec<char> = Vec::new();
    let mut i: usize = 0;
    while i < t.len()
        invariant
            i <= t@.len(),
            out@ == t@.take(i as int).map_values(|c: char| ascii_lower(c)),
        decreases t@.len() - i,
    {
        out.push(crate::text::ascii_lower_char(t[i]));
        assert(t@.take(i + 1).map_values(|c: char| ascii_lower(c)) =~= t@.take(i as int).map_values(
            |c: char| ascii_lower(c),
        ).push(ascii_lower(t@[i as int])));
        i += 1;
    }
    assert(t@.take(i as int) =~= t@);
    out
}

fn is_known_kind(k: &Vec<char>) -> (r: bool)
    ensures
        r == known_kind(k@),
{
    let s = string_of(k);
    s == owned("gap") || s == owned("contradiction") || s == owned("placeholder") || s == owned("risk")
}

fn review_change(d: &DocumentFacts, a: &ReviewAnswer) -> (r: Result<ProposedChange, Rejection>)
    ensures
        review_result(*d, *a, r),
{
    if a.findings.len() > MAX_LIST_ITEMS {
        return Err(Rejection::ListSize("findings"));
    }
    let mut findings: Vec<ReviewFinding> = Vec::new();
    let mut i: usize = 0;
    while i < a.findings.len()
        invariant
            i <= a.findings@.len(),
            a.findings@.len() <= MAX_LIST_ITEMS,
            finding_fault(a.findings@.take(i as int)) is None,
            review_views(findings@) == cleaned_findings(a.findings@.take(i as int)),
        decreases a.findings@.len() - i,
    {
        let ghost fs = a.findings@.take(i + 1);
        assert(fs.drop_last() =~= a.findings@.take(i as int));
        assert(fs.last() == a.findings@[i as int]);
        let f = &a.findings[i];
        let kind = kind_text(&f.kind);
        if !is_known_kind(&kind) {
            proof {
                lemma_finding_fault_prefix(a.findings@, i + 1);
            }
            return Err(Rejection::Field("finding.kind"));
        }
        let detail = match clean_item(f.detail.as_str()) {
            Some(x) => x,
            None => {
                proof {
                    lemma_finding_fault_prefix(a.findings@, i + 1);
                }
                return Err(Rejection::Field("finding.detail"));
            },
        };
        let ghost before = review_views(findings@);
        findings.push(ReviewFinding { kind: string_of(&kind), detail });
        assert(review_views(findings@) =~= before.push((kind_of(f.kind@), clean_item_spec(f.detail@)->0)));
        assert(cleaned_findings(fs) =~= cleaned_findings(a.findings@.take(i as int)).push(
            (kind_of(f.kind@), clean_item_spec(f.detail@)->0),
        ));
        i += 1;
    }
    assert(a.findings@.take(i as int) =~= a.findings@);
    Ok(ProposedChange::ReviewFindings { document_id: d.id, findings })
}

/// Validates a parsed model answer into the change the founder will see.
pub fn validate_answer(input: &RoleInput, answer: &ModelAnswer) -> (r: Result<ProposedChange, Rejection>)
    ensures
        answer_result(*input, *answer, r),
{
    match (input.role, answer) {
        (RoleId::ComplianceChecker, _) => Err(Rejection::NoModelPath),
        (RoleId::Analyst, ModelAnswer::Analyst(a)) => match &input.customer {
            None => Err(Rejection::MissingSubject("customer")),
            Some(c) => analyst_change(c, a),
        },
        (RoleId::ProposalWriter, ModelAnswer::Proposal(a)) => match &input.customer {
            None => Err(Rejection::MissingSubject("customer")),
            Some(c) => proposal_change(c, a),
        },
        (RoleId::DeliveryPlanner, ModelAnswer::Plan(a)) => match &input.customer {
            None => Err(Rejection::MissingSubject("customer")),
            Some(c) => plan_change(input, c, a),
        },
        (RoleId::InvoiceClerk, ModelAnswer::Invoice(a)) => match &input.customer {
            None => Err(Rejection::MissingSubject("customer")),
            Some(c) => match &input.project {
                None => Err(Rejection::MissingSubject("project")),
                Some(p) => invoice_change(c, p, a),
            },
        },
        (RoleId::QualityChecker, ModelAnswer::Review(a)) => match &input.document {
            None => Err(Rejection::MissingSubject("document")),
            Some(d) => review_change(d, a),
        },
        _ => Err(Rejection::WrongShape),
    }
}


/// The note added to a template summary when a real model's answer was
/// refused.
pub open spec fn refused_note(zh: bool) -> Seq<char> {
    if zh {
        " 模型输出未通过校验,改用模板草稿。"@
    } else {
        " The model's output failed validation, so the template draft is used."@
    }
}

/// What a run proposes: a real model's validated answer with its own
/// summary, else the template draft (its summary noting a refused model
/// answer); and whether a model produced it. Only an `ollama:` provider is
/// a real model; a stand-in's echo is never read.
pub open spec fn settled(
    input: RoleInput,
    template: ProposedChange,
    template_summary: Seq<char>,
    provider_id: Seq<char>,
    answer: Option<Result<ModelAnswer, Rejection>>,
    zh: bool,
    r: (ProposedChange, String, bool),
) -> bool {
    if starts_with(provider_id, "ollama:"@) {
        match answer {
            Some(Ok(a)) => exists|v: Result<ProposedChange, Rejection>|
                answer_result(input, a, v) && match v {
                    Ok(c) => r.0 == c && r.1@ == change_summary(c, zh) && r.2,
                    Err(_) => r.0 == template && r.1@ == template_summary + refused_note(zh) && !r.2,
                },
            _ => r.0 == template && r.1@ == template_summary + refused_note(zh) && !r.2,
        }
    } else {
        r.0 == template && r.1@ == template_summary && !r.2
    }
}

/// Settles what a run proposes from the template draft and the provider's
/// answer, parsed (or the reason it could not be).
pub fn settle_draft(
    input: &RoleInput,
    template: ProposedChange,
    template_summary: String,
    provider_id: &str,
    answer: Option<Result<ModelAnswer, Rejection>>,
    zh: bool,
) -> (r: (ProposedChange, String, bool))
    ensures
        settled(*input, template, template_summary@, provider_id@, answer, zh, r),
{
    if !starts_with_str(&chars_of(provider_id), "ollama:") {
        return (template, template_summary, false);
    }
    let mut summary = template_summary;
    match answer {
        Some(Ok(a)) => {
            let v = validate_answer(input, &a);
            match v {
                Ok(c) => {
                    let s = summarize_change(&c, zh);
                    (c, s, true)
                },
                Err(_) => {
                    crate::text::push_str(&mut summary, if zh {
                        " 模型输出未通过校验,改用模板草稿。"
                    } else {
                        " The model's output failed validation, so the template draft is used."
                    });
                    (template, summary, false)
                },
            }
        },
        _ => {
            crate::text::push_str(&mut summary, if zh {
                " 模型输出未通过校验,改用模板草稿。"
            } else {
                " The model's output failed validation, so the template draft is used."
            });
            (template, summary, false)
        },
    }
}

/// The title of a run's decision: the role's title, then what it is about
/// (the document, else the project, else the customer, else the company).
pub open spec fn decision_title_spec(card_title: Seq<char>, input: RoleInput) -> Seq<char> {
    let subject = match input.document {
        Some(d) => d.title@,
        None => match input.project {
            Some(p) => p.name@,
            None => match input.customer {
                Some(c) => c.name@,
                None => input.venture_name@,
            },
        },
    };
    card_title + " · "@ + subject
}

pub fn decision_title(card: &RoleCard, input: &RoleInput, zh: bool) -> (r: String)
    ensures
        r@ == decision_title_spec(if zh { card.title_zh@ } else { card.title_en@ }, *input),
{
    let subject: &str = match &input.document {
        Some(d) => d.title.as_str(),
        None => match &input.project {
            Some(p) => p.name.as_str(),
            None => match &input.customer {
                Some(c) => c.name.as_str(),
                None => input.venture_name.as_str(),
            },
        },
    };
    let mut t = owned(if zh { card.title_zh } else { card.title_en });
    crate::text::push_str(&mut t, " · ");
    crate::text::push_str(&mut t, subject);
    t
}

} // verus!
