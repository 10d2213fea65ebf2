//! The founder's desk of AI employees: who is hired, what each proposed,
//! and what the founder decided. An employee never changes business state
//! itself; only an approval applies a proposal, exactly as it was shown.
use vstd::prelude::*;

use crate::crew::{DecisionStatus, EmployeeStatus, PlannedTask, ReviewFinding, RoleId};
use crate::crew_answer::copy_strings;
use crate::crew_apply::{
    applied, apply_change, change_fits, copy_text, ids_needed, missing, refused, resource, resource_of,
    same_but, AuditEntry, AuditPayload,
};
use crate::crew_draft::{change_kind, ProposedChange};
use crate::compliance::{ComplianceFinding, FindingStatus, DAY_SECONDS};
use crate::checks::decimal_text;
use crate::crew::{card_copy, role_card};
use crate::crew_answer::{decision_title, decision_title_spec};
use crate::crew_draft::RoleInput;
use crate::text::{decimal, push_str, starts_with, starts_with_str};
use crate::types::Venture;
use crate::erp::ProjectStatus;
use crate::text::{chars_of, owned, string_views, trim, trimmed};
use crate::types::{Customer, Document, DocumentKind, DocumentStatus};
use crate::erp::Project;
use crate::types::{Workspace, WorkspaceError};

verus! {

/// One hired (or paused) AI employee.
#[derive(Debug, Clone)]
pub struct Employee {
    pub id: u128,
    pub role: RoleId,
    pub name: String,
    pub status: EmployeeStatus,
    pub hired_at: i64,
    pub runs: u32,
    pub last_run_at: Option<i64>,
}

/// One proposal by one employee, waiting for (or decided by) the founder.
#[derive(Debug, Clone)]
pub struct Decision {
    pub id: u128,
    pub employee_id: u128,
    pub role: RoleId,
    pub title: String,
    /// Plain-language summary the founder reads before deciding.
    pub summary: String,
    pub change: ProposedChange,
    /// Which stored facts the employee was given (field paths, never values).
    pub evidence: Vec<String>,
    pub provider_id: String,
    pub provider_trust: String,
    /// True when a real model produced the proposal; false when the
    /// deterministic template did.
    pub model_backed: bool,
    pub status: DecisionStatus,
    pub created_at: i64,
    pub decided_at: Option<i64>,
    /// What the approval created, e.g. `document:<id>`.
    pub outcome: Option<String>,
}

/// The record a suggestion points an employee at.
#[derive(Debug, Clone, Copy)]
pub struct RunSubjectRef {
    pub customer_id: Option<u128>,
    pub document_id: Option<u128>,
    pub project_id: Option<u128>,
}

/// Something a hired employee could do now, derived from state alone.
#[derive(Debug, Clone)]
pub struct WorkSuggestion {
    pub employee_id: u128,
    pub role: RoleId,
    pub subject: RunSubjectRef,
    pub subject_name: String,
    /// Stable machine code the interface localizes.
    pub reason: &'static str,
}

} // verus!

verus! {

// ---------------------------------------------------------------------------
// Finding a decision
// ---------------------------------------------------------------------------

/// Where the first decision with this id stands; the length when none does.
pub open spec fn decision_index(ds: Seq<Decision>, id: u128) -> int
    decreases ds.len(),
{
    if ds.len() == 0 {
        0
    } else if ds[0].id == id {
        0
    } else {
        1 + decision_index(ds.drop_first(), id)
    }
}

proof fn lemma_decision_index(ds: Seq<Decision>, id: u128, i: int)
    requires
        0 <= i <= ds.len(),
        i < ds.len() ==> ds[i].id == id,
        forall|j: int| 0 <= j < i ==> ds[j].id != id,
    ensures
        decision_index(ds, id) == i,
    decreases i,
{
    if i > 0 {
        assert(ds[0].id != id);
        lemma_decision_index(ds.drop_first(), id, i - 1);
    } else if ds.len() > 0 {
        assert(ds[0].id == id);
    }
}

fn decision_at(ds: &Vec<Decision>, id: u128) -> (r: usize)
    ensures
        r == decision_index(ds@, id),
        r <= ds@.len(),
{
    let mut i: usize = 0;
    while i < ds.len()
        invariant
            i <= ds@.len(),
            forall|j: int| 0 <= j < i ==> ds@[j].id != id,
        decreases ds@.len() - i,
    {
        if ds[i].id == id {
            proof {
                lemma_decision_index(ds@, id, i as int);
            }
            return i;
        }
        i += 1;
    }
    proof {
        lemma_decision_index(ds@, id, i as int);
    }
    i
}

// ---------------------------------------------------------------------------
// Copying a proposed change
// ---------------------------------------------------------------------------

/// Two changes that say the same thing.
pub open spec fn same_change(a: ProposedChange, b: ProposedChange) -> bool {
    match a {
        ProposedChange::DiscoverySummary { customer_id, problems, constraints, budget, open_questions, assumptions } =>
            b matches ProposedChange::DiscoverySummary {
            customer_id: c2,
            problems: p2,
            constraints: k2,
            budget: b2,
            open_questions: q2,
            assumptions: a2,
        } && customer_id == c2 && problems@ == p2@ && constraints@ == k2@ && budget == b2 && open_questions@
            == q2@ && assumptions@ == a2@,
        ProposedChange::OfferDraft { customer_id, title, body, amount_cents, assumptions } => b matches ProposedChange::OfferDraft {
            customer_id: c2,
            title: t2,
            body: b2,
            amount_cents: m2,
            assumptions: a2,
        } && customer_id == c2 && title == t2 && body == b2 && amount_cents == m2 && assumptions@ == a2@,
        ProposedChange::DeliveryPlan { customer_id, offer_id, project_id, project_name, tasks, acceptance_criteria } =>
            b matches ProposedChange::DeliveryPlan {
            customer_id: c2,
            offer_id: o2,
            project_id: p2,
            project_name: n2,
            tasks: t2,
            acceptance_criteria: a2,
        } && customer_id == c2 && offer_id == o2 && project_id == p2 && project_name == n2 && tasks@ == t2@
            && acceptance_criteria@ == a2@,
        ProposedChange::InvoiceDraft { customer_id, project_id, title, body, amount_cents, due_in_days } =>
            b matches ProposedChange::InvoiceDraft {
            customer_id: c2,
            project_id: p2,
            title: t2,
            body: b2,
            amount_cents: m2,
            due_in_days: d2,
        } && customer_id == c2 && project_id == p2 && title == t2 && body == b2 && amount_cents == m2
            && due_in_days == d2,
        ProposedChange::ReviewFindings { document_id, findings } => b matches ProposedChange::ReviewFindings {
            document_id: d2,
            findings: f2,
        } && document_id == d2 && findings@ == f2@,
        ProposedChange::ComplianceReport { report_id } => b matches ProposedChange::ComplianceReport {
            report_id: r2,
        } && report_id == r2,
    }
}

fn copy_tasks(v: &Vec<PlannedTask>) -> (r: Vec<PlannedTask>)
    ensures
        r@ == v@,
{
    let mut out: Vec<PlannedTask> = Vec::new();
    let mut i: usize = 0;
    while i < v.len()
        invariant
            i <= v@.len(),
            out@ == v@.take(i as int),
        decreases v@.len() - i,
    {
        out.push(PlannedTask { title: v[i].title.clone(), due_in_days: v[i].due_in_days });
        assert(out@ =~= v@.take(i + 1));
        i += 1;
    }
    assert(v@.take(i as int) =~= v@);
    out
}

fn copy_findings(v: &Vec<ReviewFinding>) -> (r: Vec<ReviewFinding>)
    ensures
        r@ == v@,
{
    let mut out: Vec<ReviewFinding> = Vec::new();
    let mut i: usize = 0;
    while i < v.len()
        invariant
            i <= v@.len(),
            out@ == v@.take(i as int),
        decreases v@.len() - i,
    {
        out.push(ReviewFinding { kind: v[i].kind.clone(), detail: v[i].detail.clone() });
        assert(out@ =~= v@.take(i + 1));
        i += 1;
    }
    assert(v@.take(i as int) =~= v@);
    out
}

fn copy_change(c: &ProposedChange) -> (r: ProposedChange)
    ensures
        same_change(r, *c),
{
    match c {
        ProposedChange::DiscoverySummary { customer_id, problems, constraints, budget, open_questions, assumptions } =>
            ProposedChange::DiscoverySummary {
            customer_id: *customer_id,
            problems: copy_strings(problems),
            constraints: copy_strings(constraints),
            budget: budget.clone(),
            open_questions: copy_strings(open_questions),
            assumptions: copy_strings(assumptions),
        },
        ProposedChange::OfferDraft { customer_id, title, body, amount_cents, assumptions } => ProposedChange::OfferDraft {
            customer_id: *customer_id,
            title: title.clone(),
            body: body.clone(),
            amount_cents: *amount_cents,
            assumptions: copy_strings(assumptions),
        },
        ProposedChange::DeliveryPlan { customer_id, offer_id, project_id, project_name, tasks, acceptance_criteria } =>
            ProposedChange::DeliveryPlan {
            customer_id: *customer_id,
            offer_id: *offer_id,
            project_id: *project_id,
            project_name: project_name.clone(),
            tasks: copy_tasks(tasks),
            acceptance_criteria: copy_strings(acceptance_criteria),
        },
        ProposedChange::InvoiceDraft { customer_id, project_id, title, body, amount_cents, due_in_days } =>
            ProposedChange::InvoiceDraft {
            customer_id: *customer_id,
            project_id: *project_id,
            title: title.clone(),
            body: body.clone(),
            amount_cents: *amount_cents,
            due_in_days: *due_in_days,
        },
        ProposedChange::ReviewFindings { document_id, findings } => ProposedChange::ReviewFindings {
            document_id: *document_id,
            findings: copy_findings(findings),
        },
        ProposedChange::ComplianceReport { report_id } => ProposedChange::ComplianceReport { report_id: *report_id },
    }
}

proof fn lemma_same_change(
    old: Workspace,
    a: ProposedChange,
    b: ProposedChange,
    role: RoleId,
    at: i64,
    fresh: Seq<u128>,
    new: Workspace,
    r: Result<(Vec<AuditEntry>, String), WorkspaceError>,
)
    requires
        same_change(a, b),
    ensures
        applied(old, a, role, at, fresh, new, r) == applied(old, b, role, at, fresh, new, r),
        ids_needed(a) == ids_needed(b),
        change_fits(a, at) == change_fits(b, at),
        change_kind(a) == change_kind(b),
{
}

/// What an applied change promises holds whatever the desk records say,
/// once the business records are the same.
proof fn lemma_desk_apart(
    old: Workspace,
    c: ProposedChange,
    role: RoleId,
    at: i64,
    fresh: Seq<u128>,
    mid: Workspace,
    new: Workspace,
    r: Result<(Vec<AuditEntry>, String), WorkspaceError>,
)
    requires
        applied(old, c, role, at, fresh, mid, r),
        r is Ok,
        new.venture == mid.venture,
        new.customers == mid.customers,
        new.documents == mid.documents,
        new.projects == mid.projects,
        new.tasks == mid.tasks,
        new.payments == mid.payments,
        new.follow_ups == mid.follow_ups,
    ensures
        applied(old, c, role, at, fresh, new, r),
{
    assert(new.customers@ == mid.customers@);
    assert(new.documents@ == mid.documents@);
    assert(new.projects@ == mid.projects@);
    assert(new.tasks@ == mid.tasks@);
    match c {
        ProposedChange::DiscoverySummary { .. } => {},
        ProposedChange::OfferDraft { .. } => {},
        ProposedChange::DeliveryPlan { .. } => {},
        ProposedChange::InvoiceDraft { .. } => {},
        ProposedChange::ReviewFindings { .. } => {},
        ProposedChange::ComplianceReport { .. } => {},
    }
}

// ---------------------------------------------------------------------------
// Deciding
// ---------------------------------------------------------------------------

/// `new` is decision `old` marked `status` at `at`; an approval records
/// what it touched, a rejection leaves the outcome as it was.
pub open spec fn marked(old: Decision, new: Decision, status: DecisionStatus, at: i64, outcome: Option<Seq<char>>) -> bool {
    &&& new.id == old.id
    &&& new.employee_id == old.employee_id
    &&& new.role == old.role
    &&& new.title == old.title
    &&& new.summary == old.summary
    &&& new.change == old.change
    &&& new.evidence == old.evidence
    &&& new.provider_id == old.provider_id
    &&& new.provider_trust == old.provider_trust
    &&& new.model_backed == old.model_backed
    &&& new.created_at == old.created_at
    &&& new.status == status
    &&& new.decided_at == Some(at)
    &&& match outcome {
        Some(o) => new.outcome matches Some(x) && x@ == o,
        None => new.outcome == old.outcome,
    }
}

/// The event recording a rejection.
pub open spec fn rejected_event(e: AuditEntry, id: u128, kind: Seq<char>) -> bool {
    &&& e.action@ == "decision.rejected"@
    &&& e.resource@ == resource_of("decision:"@, id)
    &&& e.payload matches AuditPayload::DecisionRejected { kind: k } && k@ == kind
}

/// The event recording an approval and what it touched.
pub open spec fn approved_event(e: AuditEntry, id: u128, kind: Seq<char>, outcome: Seq<char>) -> bool {
    &&& e.action@ == "decision.approved"@
    &&& e.resource@ == resource_of("decision:"@, id)
    &&& e.payload matches AuditPayload::DecisionApproved { kind: k, outcome: o } && k@ == kind && o@ == outcome
}

/// What follows an approval, given what applying its change gave: the
/// change's refusal unchanged, or its events behind the approval's own, with
/// the decision marked approved.
pub open spec fn approval_result(
    old: Workspace,
    k: int,
    id: u128,
    at: i64,
    inner: Result<(Vec<AuditEntry>, String), WorkspaceError>,
    new: Workspace,
    r: Result<Vec<AuditEntry>, WorkspaceError>,
) -> bool {
    match inner {
        Err(e) => r == Err::<Vec<AuditEntry>, WorkspaceError>(e) && new == old,
        Ok((events, outcome)) => {
            &&& r matches Ok(all)
            &&& all@.len() == events@.len() + 1
            &&& approved_event(all@[0], id, change_kind(old.decisions@[k].change), outcome@)
            &&& all@.skip(1) == events@
            &&& same_but(old.decisions@, new.decisions@, k)
            &&& marked(old.decisions@[k], new.decisions@[k], DecisionStatus::Approved, at, Some(outcome@))
            &&& new.employees == old.employees
        },
    }
}

/// Rejecting records the decision and changes nothing else; approving
/// applies exactly the recorded change, all or nothing, and records the
/// decision with what it touched.
pub open spec fn decided(
    old: Workspace,
    id: u128,
    approve: bool,
    at: i64,
    new: Workspace,
    r: Result<Vec<AuditEntry>, WorkspaceError>,
) -> bool {
    let k = decision_index(old.decisions@, id);
    if k >= old.decisions@.len() {
        (r matches Err(WorkspaceError::NotFound(m)) && m@ == "decision"@) && new == old
    } else if old.decisions@[k].status != DecisionStatus::Pending {
        (r matches Err(WorkspaceError::Invalid(m)) && m@ == "decision already made"@) && new == old
    } else if !approve {
        &&& r matches Ok(events)
        &&& events@.len() == 1
        &&& rejected_event(events@[0], id, change_kind(old.decisions@[k].change))
        &&& same_but(old.decisions@, new.decisions@, k)
        &&& marked(old.decisions@[k], new.decisions@[k], DecisionStatus::Rejected, at, None)
        &&& new.venture == old.venture
        &&& new.customers == old.customers
        &&& new.documents == old.documents
        &&& new.projects == old.projects
        &&& new.tasks == old.tasks
        &&& new.payments == old.payments
        &&& new.follow_ups == old.follow_ups
        &&& new.employees == old.employees
    } else {
        let d = old.decisions@[k];
        exists|fresh: Seq<u128>, inner: Result<(Vec<AuditEntry>, String), WorkspaceError>|
            #![trigger applied(old, d.change, d.role, at, fresh, new, inner)]
            fresh.len() == ids_needed(d.change) && applied(old, d.change, d.role, at, fresh, new, inner)
                && approval_result(old, k, id, at, inner, new, r)
    }
}

/// The founder decides on a pending proposal at `at`, in memory; the events
/// that come back are committed with the workspace.
pub fn decide(workspace: &mut Workspace, decision_id: u128, approve: bool, at: i64) -> (r: Result<
    Vec<AuditEntry>,
    WorkspaceError,
>)
    requires
        decision_index(old(workspace).decisions@, decision_id) < old(workspace).decisions@.len() ==> change_fits(
            old(workspace).decisions@[decision_index(old(workspace).decisions@, decision_id)].change,
            at,
        ),
    ensures
        decided(*old(workspace), decision_id, approve, at, *final(workspace), r),
{
    let k = decision_at(&workspace.decisions, decision_id);
    if k == workspace.decisions.len() {
        return Err(missing("decision"));
    }
    if workspace.decisions[k].status != DecisionStatus::Pending {
        return Err(refused("decision already made"));
    }
    let target = resource("decision:", decision_id);
    if !approve {
        let mut d = workspace.decisions.remove(k);
        d.status = DecisionStatus::Rejected;
        d.decided_at = Some(at);
        let kind = owned(d.change.kind());
        let ghost marked_d = d;
        workspace.decisions.insert(k, d);
        proof {
            assert(workspace.decisions@ =~= old(workspace).decisions@.update(k as int, marked_d));
        }
        let mut events: Vec<AuditEntry> = Vec::new();
        events.push(
            AuditEntry { action: owned("decision.rejected"), resource: target, payload: AuditPayload::DecisionRejected { kind } },
        );
        return Ok(events);
    }
    let ghost w0 = *workspace;
    let ghost d0 = workspace.decisions@[k as int];
    let change = copy_change(&workspace.decisions[k].change);
    let role = workspace.decisions[k].role;
    proof {
        lemma_same_change(w0, change, d0.change, role, at, Seq::empty(), w0, vstd::pervasive::arbitrary());
    }
    let inner = apply_change(workspace, &change, role, at);
    let ghost mid = *workspace;
    let ghost fresh = choose|f: Seq<u128>|
        f.len() == ids_needed(change) && applied(w0, change, role, at, f, mid, inner);
    proof {
        lemma_same_change(w0, change, d0.change, role, at, fresh, mid, inner);
    }
    match inner {
        Err(e) => {
            proof {
                assert(approval_result(w0, k as int, decision_id, at, inner, *workspace, Err(e)));
                assert(applied(w0, d0.change, d0.role, at, fresh, *workspace, inner));
            }
            Err(e)
        },
        Ok((events, outcome)) => {
            let ghost inner_events = events@;
            let mut d = workspace.decisions.remove(k);
            d.status = DecisionStatus::Approved;
            d.decided_at = Some(at);
            d.outcome = Some(copy_text(&outcome));
            let kind = owned(d.change.kind());
            let ghost marked_d = d;
            workspace.decisions.insert(k, d);
            proof {
                assert(workspace.decisions@ =~= mid.decisions@.update(k as int, marked_d));
                lemma_desk_apart(w0, d0.change, d0.role, at, fresh, mid, *workspace, inner);
            }
            let mut all = events;
            all.insert(
                0,
                AuditEntry {
                    action: owned("decision.approved"),
                    resource: target,
                    payload: AuditPayload::DecisionApproved { kind, outcome },
                },
            );
            proof {
                assert(all@.skip(1) =~= inner_events);
                assert(approval_result(w0, k as int, decision_id, at, inner, *workspace, Ok(all)));
            }
            Ok(all)
        },
    }
}

} // verus!

verus! {

// ---------------------------------------------------------------------------
// What each employee could do now
// ---------------------------------------------------------------------------

/// A suggestion as the founder reads it: who, which role, on what, named
/// how, and why.
pub open spec fn suggestion_view(s: WorkSuggestion) -> (u128, RoleId, RunSubjectRef, Seq<char>, Seq<char>) {
    (s.employee_id, s.role, s.subject, s.subject_name@, s.reason@)
}

pub open spec fn suggestion_views(v: Seq<WorkSuggestion>) -> Seq<(u128, RoleId, RunSubjectRef, Seq<char>, Seq<char>)> {
    v.map_values(|s: WorkSuggestion| suggestion_view(s))
}

pub open spec fn suggest(
    e: Employee,
    customer: Option<u128>,
    document: Option<u128>,
    project: Option<u128>,
    name: Seq<char>,
    reason: Seq<char>,
) -> (u128, RoleId, RunSubjectRef, Seq<char>, Seq<char>) {
    (e.id, e.role, RunSubjectRef { customer_id: customer, document_id: document, project_id: project }, name, reason)
}

/// Some live (not rejected) proposal by the analyst summarizes this
/// customer's discovery.
pub open spec fn summarized(ds: Seq<Decision>, cid: u128) -> bool {
    exists|i: int|
        0 <= i < ds.len() && ds[i].role == RoleId::Analyst && ds[i].status != DecisionStatus::Rejected
            && (#[trigger] ds[i].change matches ProposedChange::DiscoverySummary { customer_id, .. } && customer_id == cid)
}

/// Some live proposal by the quality checker reviews this document.
pub open spec fn reviewed(ds: Seq<Decision>, did: u128) -> bool {
    exists|i: int|
        0 <= i < ds.len() && ds[i].role == RoleId::QualityChecker && ds[i].status != DecisionStatus::Rejected
            && (#[trigger] ds[i].change matches ProposedChange::ReviewFindings { document_id, .. } && document_id == did)
}

/// The customer has an offer.
pub open spec fn has_offer(docs: Seq<Document>, cid: u128) -> bool {
    exists|i: int| 0 <= i < docs.len() && #[trigger] docs[i].customer_id == cid && docs[i].kind == DocumentKind::Offer
}

/// Some project delivers this offer.
pub open spec fn delivered(ps: Seq<Project>, offer: u128) -> bool {
    exists|i: int| 0 <= i < ps.len() && #[trigger] ps[i].offer_id == Some(offer)
}

/// Some invoice bills this project.
pub open spec fn invoiced(docs: Seq<Document>, pid: u128) -> bool {
    exists|i: int|
        0 <= i < docs.len() && docs[i].kind == DocumentKind::Invoice && #[trigger] docs[i].project_id == Some(pid)
}

pub open spec fn analyst_pick(ws: Workspace, e: Employee) -> spec_fn(Customer) -> Option<
    (u128, RoleId, RunSubjectRef, Seq<char>, Seq<char>),
> {
    |c: Customer|
        if trimmed(c.discovery_notes@).len() > 0 && !summarized(ws.decisions@, c.id) {
            Some(suggest(e, Some(c.id), None, None, c.name@, "analyse_discovery"@))
        } else {
            None
        }
}

pub open spec fn writer_pick(ws: Workspace, e: Employee) -> spec_fn(Customer) -> Option<
    (u128, RoleId, RunSubjectRef, Seq<char>, Seq<char>),
> {
    |c: Customer|
        if (trimmed(c.discovery_notes@).len() > 0 || trimmed(c.notes@).len() > 0) && !has_offer(
            ws.documents@,
            c.id,
        ) {
            Some(suggest(e, Some(c.id), None, None, c.name@, "draft_proposal"@))
        } else {
            None
        }
}

pub open spec fn planner_pick(ws: Workspace, e: Employee) -> spec_fn(Document) -> Option<
    (u128, RoleId, RunSubjectRef, Seq<char>, Seq<char>),
> {
    |d: Document|
        if d.kind == DocumentKind::Offer && d.accepted_at is Some && !delivered(ws.projects@, d.id) {
            Some(suggest(e, Some(d.customer_id), Some(d.id), None, d.title@, "plan_delivery"@))
        } else {
            None
        }
}

pub open spec fn clerk_pick(ws: Workspace, e: Employee) -> spec_fn(Project) -> Option<
    (u128, RoleId, RunSubjectRef, Seq<char>, Seq<char>),
> {
    |p: Project|
        if p.status == ProjectStatus::Done && !invoiced(ws.documents@, p.id) {
            Some(suggest(e, Some(p.customer_id), None, Some(p.id), p.name@, "raise_invoice"@))
        } else {
            None
        }
}

pub open spec fn checker_pick(ws: Workspace, e: Employee) -> spec_fn(Document) -> Option<
    (u128, RoleId, RunSubjectRef, Seq<char>, Seq<char>),
> {
    |d: Document|
        if d.status == DocumentStatus::Draft && !reviewed(ws.decisions@, d.id) {
            Some(suggest(e, Some(d.customer_id), Some(d.id), None, d.title@, "check_draft"@))
        } else {
            None
        }
}

/// A compliance report is recent when it is at most thirty days old.
pub open spec fn recent_report(last_report_at: Option<i64>, now: i64) -> bool {
    match last_report_at {
        Some(at) => at >= now - 30 * DAY_SECONDS,
        None => false,
    }
}

/// What one employee could do now: nothing while paused; otherwise its
/// role's work, in the order the records are stored.
pub open spec fn employee_suggestions(ws: Workspace, e: Employee, recent: bool) -> Seq<
    (u128, RoleId, RunSubjectRef, Seq<char>, Seq<char>),
> {
    if e.status != EmployeeStatus::Hired {
        Seq::empty()
    } else {
        match e.role {
            RoleId::Analyst => ws.customers@.filter_map(analyst_pick(ws, e)),
            RoleId::ProposalWriter => ws.customers@.filter_map(writer_pick(ws, e)),
            RoleId::DeliveryPlanner => ws.documents@.filter_map(planner_pick(ws, e)),
            RoleId::InvoiceClerk => ws.projects@.filter_map(clerk_pick(ws, e)),
            RoleId::QualityChecker => ws.documents@.filter_map(checker_pick(ws, e)),
            RoleId::ComplianceChecker => match ws.venture {
                Some(v) => if v.jurisdiction@.len() > 0 && !recent {
                    seq![suggest(e, None, None, None, v.name@, "run_compliance"@)]
                } else {
                    Seq::empty()
                },
                None => Seq::empty(),
            },
        }
    }
}

/// Every employee's suggestions, employee by employee.
pub open spec fn all_suggestions(ws: Workspace, es: Seq<Employee>, recent: bool) -> Seq<
    (u128, RoleId, RunSubjectRef, Seq<char>, Seq<char>),
>
    decreases es.len(),
{
    if es.len() == 0 {
        Seq::empty()
    } else {
        all_suggestions(ws, es.drop_last(), recent) + employee_suggestions(ws, es.last(), recent)
    }
}

/// The most suggestions the Today view lists.
pub const MAX_SUGGESTIONS: usize = 20;

/// The first twenty, or all when there are fewer.
pub open spec fn capped<T>(s: Seq<T>) -> Seq<T> {
    if s.len() <= MAX_SUGGESTIONS {
        s
    } else {
        s.take(MAX_SUGGESTIONS as int)
    }
}

fn push_suggestion(
    out: &mut Vec<WorkSuggestion>,
    e: &Employee,
    customer: Option<u128>,
    document: Option<u128>,
    project: Option<u128>,
    name: &String,
    reason: &'static str,
)
    ensures
        suggestion_views(final(out)@) == suggestion_views(old(out)@).push(
            suggest(*e, customer, document, project, name@, reason@),
        ),
{
    let s = WorkSuggestion {
        employee_id: e.id,
        role: e.role,
        subject: RunSubjectRef { customer_id: customer, document_id: document, project_id: project },
        subject_name: copy_text(name),
        reason,
    };
    let ghost before = out@;
    out.push(s);
    assert(suggestion_views(out@) =~= suggestion_views(before).push(suggest(*e, customer, document, project, name@, reason@)));
}

fn blank(s: &String) -> (r: bool)
    ensures
        r == (trimmed(s@).len() == 0),
{
    trim(&chars_of(s.as_str())).len() == 0
}

fn summarized_exec(ds: &Vec<Decision>, cid: u128) -> (r: bool)
    ensures
        r == summarized(ds@, cid),
{
    let mut i: usize = 0;
    while i < ds.len()
        invariant
            i <= ds@.len(),
            forall|j: int|
                0 <= j < i ==> !(ds@[j].role == RoleId::Analyst && ds@[j].status != DecisionStatus::Rejected && (
                #[trigger] ds@[j].change matches ProposedChange::DiscoverySummary { customer_id, .. } && customer_id
                    == cid)),
        decreases ds@.len() - i,
    {
        let d = &ds[i];
        if d.role == RoleId::Analyst && d.status != DecisionStatus::Rejected {
            if let ProposedChange::DiscoverySummary { customer_id, .. } = &d.change {
                if *customer_id == cid {
                    assert(ds@[i as int].change matches ProposedChange::DiscoverySummary { customer_id, .. } && customer_id == cid);
                    return true;
                }
            }
        }
        i += 1;
    }
    false
}

fn reviewed_exec(ds: &Vec<Decision>, did: u128) -> (r: bool)
    ensures
        r == reviewed(ds@, did),
{
    let mut i: usize = 0;
    while i < ds.len()
        invariant
            i <= ds@.len(),
            forall|j: int|
                0 <= j < i ==> !(ds@[j].role == RoleId::QualityChecker && ds@[j].status != DecisionStatus::Rejected && (
                #[trigger] ds@[j].change matches ProposedChange::ReviewFindings { document_id, .. } && document_id
                    == did)),
        decreases ds@.len() - i,
    {
        let d = &ds[i];
        if d.role == RoleId::QualityChecker && d.status != DecisionStatus::Rejected {
            if let ProposedChange::ReviewFindings { document_id, .. } = &d.change {
                if *document_id == did {
                    assert(ds@[i as int].change matches ProposedChange::ReviewFindings { document_id, .. } && document_id == did);
                    return true;
                }
            }
        }
        i += 1;
    }
    false
}

fn has_offer_exec(docs: &Vec<Document>, cid: u128) -> (r: bool)
    ensures
        r == has_offer(docs@, cid),
{
    let mut i: usize = 0;
    while i < docs.len()
        invariant
            i <= docs@.len(),
            forall|j: int| 0 <= j < i ==> !(#[trigger] docs@[j].customer_id == cid && docs@[j].kind == DocumentKind::Offer),
        decreases docs@.len() - i,
    {
        if docs[i].customer_id == cid && docs[i].kind == DocumentKind::Offer {
            return true;
        }
        i += 1;
    }
    false
}

fn delivered_exec(ps: &Vec<Project>, offer: u128) -> (r: bool)
    ensures
        r == delivered(ps@, offer),
{
    let mut i: usize = 0;
    while i < ps.len()
        invariant
            i <= ps@.len(),
            forall|j: int| 0 <= j < i ==> !(#[trigger] ps@[j].offer_id == Some(offer)),
        decreases ps@.len() - i,
    {
        if ps[i].offer_id == Some(offer) {
            return true;
        }
        i += 1;
    }
    false
}

fn invoiced_exec(docs: &Vec<Document>, pid: u128) -> (r: bool)
    ensures
        r == invoiced(docs@, pid),
{
    let mut i: usize = 0;
    while i < docs.len()
        invariant
            i <= docs@.len(),
            forall|j: int|
                0 <= j < i ==> !(docs@[j].kind == DocumentKind::Invoice && #[trigger] docs@[j].project_id == Some(pid)),
        decreases docs@.len() - i,
    {
        if docs[i].kind == DocumentKind::Invoice && docs[i].project_id == Some(pid) {
            return true;
        }
        i += 1;
    }
    false
}

fn customer_suggestions(ws: &Workspace, e: &Employee, writer: bool, out: &mut Vec<WorkSuggestion>)
    ensures
        suggestion_views(final(out)@) == suggestion_views(old(out)@) + ws.customers@.filter_map(
            if writer {
                writer_pick(*ws, *e)
            } else {
                analyst_pick(*ws, *e)
            },
        ),
{
    let ghost f = if writer {
        writer_pick(*ws, *e)
    } else {
        analyst_pick(*ws, *e)
    };
    let ghost start = suggestion_views(out@);
    let mut i: usize = 0;
    while i < ws.customers.len()
        invariant
            i <= ws.customers@.len(),
            f == (if writer {
                writer_pick(*ws, *e)
            } else {
                analyst_pick(*ws, *e)
            }),
            suggestion_views(out@) == start + ws.customers@.take(i as int).filter_map(f),
        decreases ws.customers@.len() - i,
    {
        let c = &ws.customers[i];
        proof {
            assert(ws.customers@.take(i + 1).drop_last() =~= ws.customers@.take(i as int));
            assert(ws.customers@.take(i + 1).last() == *c);
        }
        let pick = if writer {
            (!blank(&c.discovery_notes) || !blank(&c.notes)) && !has_offer_exec(&ws.documents, c.id)
        } else {
            !blank(&c.discovery_notes) && !summarized_exec(&ws.decisions, c.id)
        };
        if pick {
            let reason = if writer {
                "draft_proposal"
            } else {
                "analyse_discovery"
            };
            push_suggestion(out, e, Some(c.id), None, None, &c.name, reason);
            proof {
                assert(suggestion_views(out@) =~= start + ws.customers@.take(i + 1).filter_map(f));
            }
        } else {
            proof {
                assert(suggestion_views(out@) =~= start + ws.customers@.take(i + 1).filter_map(f));
            }
        }
        i += 1;
    }
    assert(ws.customers@.take(i as int) =~= ws.customers@);
}

fn document_suggestions(ws: &Workspace, e: &Employee, planner: bool, out: &mut Vec<WorkSuggestion>)
    ensures
        suggestion_views(final(out)@) == suggestion_views(old(out)@) + ws.documents@.filter_map(
            if planner {
                planner_pick(*ws, *e)
            } else {
                checker_pick(*ws, *e)
            },
        ),
{
    let ghost f = if planner {
        planner_pick(*ws, *e)
    } else {
        checker_pick(*ws, *e)
    };
    let ghost start = suggestion_views(out@);
    let mut i: usize = 0;
    while i < ws.documents.len()
        invariant
            i <= ws.documents@.len(),
            f == (if planner {
                planner_pick(*ws, *e)
            } else {
                checker_pick(*ws, *e)
            }),
            suggestion_views(out@) == start + ws.documents@.take(i as int).filter_map(f),
        decreases ws.documents@.len() - i,
    {
        let d = &ws.documents[i];
        proof {
            assert(ws.documents@.take(i + 1).drop_last() =~= ws.documents@.take(i as int));
            assert(ws.documents@.take(i + 1).last() == *d);
        }
        let pick = if planner {
            d.kind == DocumentKind::Offer && d.accepted_at.is_some() && !delivered_exec(&ws.projects, d.id)
        } else {
            d.status == DocumentStatus::Draft && !reviewed_exec(&ws.decisions, d.id)
        };
        if pick {
            let reason = if planner {
                "plan_delivery"
            } else {
                "check_draft"
            };
            push_suggestion(out, e, Some(d.customer_id), Some(d.id), None, &d.title, reason);
            proof {
                assert(suggestion_views(out@) =~= start + ws.documents@.take(i + 1).filter_map(f));
            }
        } else {
            proof {
                assert(suggestion_views(out@) =~= start + ws.documents@.take(i + 1).filter_map(f));
            }
        }
        i += 1;
    }
    assert(ws.documents@.take(i as int) =~= ws.documents@);
}

fn project_suggestions(ws: &Workspace, e: &Employee, out: &mut Vec<WorkSuggestion>)
    ensures
        suggestion_views(final(out)@) == suggestion_views(old(out)@) + ws.projects@.filter_map(clerk_pick(*ws, *e)),
{
    let ghost f = clerk_pick(*ws, *e);
    let ghost start = suggestion_views(out@);
    let mut i: usize = 0;
    while i < ws.projects.len()
        invariant
            i <= ws.projects@.len(),
            f == clerk_pick(*ws, *e),
            suggestion_views(out@) == start + ws.projects@.take(i as int).filter_map(f),
        decreases ws.projects@.len() - i,
    {
        let p = &ws.projects[i];
        proof {
            assert(ws.projects@.take(i + 1).drop_last() =~= ws.projects@.take(i as int));
            assert(ws.projects@.take(i + 1).last() == *p);
        }
        if p.status == ProjectStatus::Done && !invoiced_exec(&ws.documents, p.id) {
            push_suggestion(out, e, Some(p.customer_id), None, Some(p.id), &p.name, "raise_invoice");
            proof {
                assert(suggestion_views(out@) =~= start + ws.projects@.take(i + 1).filter_map(f));
            }
        } else {
            proof {
                assert(suggestion_views(out@) =~= start + ws.projects@.take(i + 1).filter_map(f));
            }
        }
        i += 1;
    }
    assert(ws.projects@.take(i as int) =~= ws.projects@);
}

fn employee_work(ws: &Workspace, e: &Employee, recent: bool, out: &mut Vec<WorkSuggestion>)
    ensures
        suggestion_views(final(out)@) == suggestion_views(old(out)@) + employee_suggestions(*ws, *e, recent),
{
    if e.status != EmployeeStatus::Hired {
        assert(suggestion_views(out@) =~= suggestion_views(out@) + Seq::empty());
        return;
    }
    match e.role {
        RoleId::Analyst => customer_suggestions(ws, e, false, out),
        RoleId::ProposalWriter => customer_suggestions(ws, e, true, out),
        RoleId::DeliveryPlanner => document_suggestions(ws, e, true, out),
        RoleId::InvoiceClerk => project_suggestions(ws, e, out),
        RoleId::QualityChecker => document_suggestions(ws, e, false, out),
        RoleId::ComplianceChecker => {
            let ghost before = suggestion_views(out@);
            match &ws.venture {
                Some(v) => {
                    if chars_of(v.jurisdiction.as_str()).len() > 0 && !recent {
                        push_suggestion(out, e, None, None, None, &v.name, "run_compliance");
                        assert(suggestion_views(out@) =~= before + employee_suggestions(*ws, *e, recent));
                    } else {
                        assert(suggestion_views(out@) =~= before + employee_suggestions(*ws, *e, recent));
                    }
                },
                None => {
                    assert(suggestion_views(out@) =~= before + employee_suggestions(*ws, *e, recent));
                },
            }
        },
    }
}

/// What each hired employee could do at `now`, from state alone, at most
/// twenty; a compliance report made at `last_report_at` that is recent
/// keeps the compliance checker quiet.
pub fn suggestions_at(workspace: &Workspace, last_report_at: Option<i64>, now: i64) -> (r: Vec<WorkSuggestion>)
    ensures
        suggestion_views(r@) == capped(all_suggestions(*workspace, workspace.employees@, recent_report(last_report_at, now))),
{
    let recent = match last_report_at {
        Some(at) => (at as i128) >= (now as i128) - 30 * (DAY_SECONDS as i128),
        None => false,
    };
    let mut out: Vec<WorkSuggestion> = Vec::new();
    let mut i: usize = 0;
    while i < workspace.employees.len()
        invariant
            i <= workspace.employees@.len(),
            recent == recent_report(last_report_at, now),
            suggestion_views(out@) == all_suggestions(*workspace, workspace.employees@.take(i as int), recent),
        decreases workspace.employees@.len() - i,
    {
        proof {
            assert(workspace.employees@.take(i + 1).drop_last() =~= workspace.employees@.take(i as int));
        }
        employee_work(workspace, &workspace.employees[i], recent, &mut out);
        i += 1;
    }
    assert(workspace.employees@.take(i as int) =~= workspace.employees@);
    out.truncate(MAX_SUGGESTIONS);
    proof {
        let all = all_suggestions(*workspace, workspace.employees@, recent);
        assert(suggestion_views(out@) =~= capped(all));
    }
    out
}

/// `chrono::Utc::now().timestamp()`: the clock, in seconds since the epoch.
/// Nothing is stated of it.
#[verifier::external_body]
fn now_unix() -> (r: i64) {
    chrono::Utc::now().timestamp()
}

/// What each hired employee could do right now, from state alone.
pub fn work_suggestions(workspace: &Workspace, last_report_at: Option<i64>) -> (r: Vec<WorkSuggestion>)
    ensures
        exists|now: i64|
            suggestion_views(r@) == capped(
                all_suggestions(*workspace, workspace.employees@, #[trigger] recent_report(last_report_at, now)),
            ),
{
    let now = now_unix();
    suggestions_at(workspace, last_report_at, now)
}

} // verus!

verus! {

// ---------------------------------------------------------------------------
// Hiring and pausing
// ---------------------------------------------------------------------------

/// The most employees a workspace holds.
pub const MAX_EMPLOYEES: usize = 12;

/// Where the first employee in this role stands; the length when none does.
pub open spec fn role_index(es: Seq<Employee>, role: RoleId) -> int
    decreases es.len(),
{
    if es.len() == 0 {
        0
    } else if es[0].role == role {
        0
    } else {
        1 + role_index(es.drop_first(), role)
    }
}

/// Where the first employee with this id stands; the length when none does.
pub open spec fn employee_index(es: Seq<Employee>, id: u128) -> int
    decreases es.len(),
{
    if es.len() == 0 {
        0
    } else if es[0].id == id {
        0
    } else {
        1 + employee_index(es.drop_first(), id)
    }
}

proof fn lemma_role_index(es: Seq<Employee>, role: RoleId, i: int)
    requires
        0 <= i <= es.len(),
        i < es.len() ==> es[i].role == role,
        forall|j: int| 0 <= j < i ==> es[j].role != role,
    ensures
        role_index(es, role) == i,
    decreases i,
{
    if i > 0 {
        assert(es[0].role != role);
        lemma_role_index(es.drop_first(), role, i - 1);
    } else if es.len() > 0 {
        assert(es[0].role == role);
    }
}

proof fn lemma_employee_index(es: Seq<Employee>, id: u128, i: int)
    requires
        0 <= i <= es.len(),
        i < es.len() ==> es[i].id == id,
        forall|j: int| 0 <= j < i ==> es[j].id != id,
    ensures
        employee_index(es, id) == i,
    decreases i,
{
    if i > 0 {
        assert(es[0].id != id);
        lemma_employee_index(es.drop_first(), id, i - 1);
    } else if es.len() > 0 {
        assert(es[0].id == id);
    }
}

/// The stable name of an employee status.
pub open spec fn status_name(s: EmployeeStatus) -> Seq<char> {
    match s {
        EmployeeStatus::Hired => "hired"@,
        EmployeeStatus::Paused => "paused"@,
    }
}

fn status_text(s: EmployeeStatus) -> (r: String)
    ensures
        r@ == status_name(s),
{
    match s {
        EmployeeStatus::Hired => owned("hired"),
        EmployeeStatus::Paused => owned("paused"),
    }
}

/// Only the employees may have changed.
pub open spec fn only_employees(old: Workspace, new: Workspace) -> bool {
    &&& new.venture == old.venture
    &&& new.customers == old.customers
    &&& new.documents == old.documents
    &&& new.projects == old.projects
    &&& new.tasks == old.tasks
    &&& new.payments == old.payments
    &&& new.follow_ups == old.follow_ups
    &&& new.decisions == old.decisions
}

/// `new` is employee `old` with another status and, when given, name.
pub open spec fn restaffed(old: Employee, new: Employee, status: EmployeeStatus, name: Option<Seq<char>>) -> bool {
    &&& new.id == old.id
    &&& new.role == old.role
    &&& new.hired_at == old.hired_at
    &&& new.runs == old.runs
    &&& new.last_run_at == old.last_run_at
    &&& new.status == status
    &&& match name {
        Some(n) => new.name@ == n,
        None => new.name == old.name,
    }
}

/// Hiring a role: a paused employee in it is hired again under the new
/// name; a hired one is refused; otherwise a new employee joins, up to the
/// limit.
pub open spec fn hired(
    old: Workspace,
    role: RoleId,
    name: Seq<char>,
    at: i64,
    id: u128,
    new: Workspace,
    r: Result<Vec<AuditEntry>, WorkspaceError>,
) -> bool {
    let k = role_index(old.employees@, role);
    if k < old.employees@.len() {
        if old.employees@[k].status == EmployeeStatus::Hired {
            (r matches Err(WorkspaceError::Invalid(m)) && m@ == "that role is already hired"@) && new == old
        } else {
            &&& r matches Ok(events)
            &&& events@.len() == 1
            &&& events@[0].action@ == "employee.status"@
            &&& events@[0].resource@ == resource_of("employee:"@, old.employees@[k].id)
            &&& events@[0].payload matches AuditPayload::Rehired { role: x } && x@ == crate::crew::role_name(role)
            &&& same_but(old.employees@, new.employees@, k)
            &&& restaffed(old.employees@[k], new.employees@[k], EmployeeStatus::Hired, Some(name))
            &&& only_employees(old, new)
        }
    } else if old.employees@.len() >= MAX_EMPLOYEES {
        (r matches Err(WorkspaceError::Invalid(m)) && m@ == "employee limit reached"@) && new == old
    } else {
        let e = new.employees@.last();
        &&& r matches Ok(events)
        &&& events@.len() == 1
        &&& events@[0].action@ == "employee.hired"@
        &&& events@[0].resource@ == resource_of("employee:"@, id)
        &&& events@[0].payload matches AuditPayload::Hired { role: x, name: n } && x@ == crate::crew::role_name(role)
            && n@ == name
        &&& new.employees@.len() == old.employees@.len() + 1
        &&& new.employees@.drop_last() == old.employees@
        &&& e.id == id && e.role == role && e.name@ == name && e.status == EmployeeStatus::Hired && e.hired_at == at
            && e.runs == 0 && e.last_run_at is None
        &&& only_employees(old, new)
    }
}

/// Hires one employee per role at `at`, in memory, under an already
/// cleaned name; `id` names a new employee.
pub fn hire(workspace: &mut Workspace, role: RoleId, name: &String, at: i64, id: u128) -> (r: Result<
    Vec<AuditEntry>,
    WorkspaceError,
>)
    ensures
        hired(*old(workspace), role, name@, at, id, *final(workspace), r),
{
    let mut k: usize = 0;
    while k < workspace.employees.len() && workspace.employees[k].role != role
        invariant
            k <= workspace.employees@.len(),
            forall|j: int| 0 <= j < k ==> workspace.employees@[j].role != role,
        decreases workspace.employees@.len() - k,
    {
        k += 1;
    }
    proof {
        lemma_role_index(workspace.employees@, role, k as int);
    }
    if k < workspace.employees.len() {
        if workspace.employees[k].status == EmployeeStatus::Hired {
            return Err(refused("that role is already hired"));
        }
        let mut e = workspace.employees.remove(k);
        e.status = EmployeeStatus::Hired;
        e.name = copy_text(name);
        let target = resource("employee:", e.id);
        let ghost updated = e;
        workspace.employees.insert(k, e);
        proof {
            assert(workspace.employees@ =~= old(workspace).employees@.update(k as int, updated));
        }
        let mut events: Vec<AuditEntry> = Vec::new();
        events.push(
            AuditEntry {
                action: owned("employee.status"),
                resource: target,
                payload: AuditPayload::Rehired { role: owned(role.as_str()) },
            },
        );
        return Ok(events);
    }
    if workspace.employees.len() >= MAX_EMPLOYEES {
        return Err(refused("employee limit reached"));
    }
    workspace.employees.push(
        Employee {
            id,
            role,
            name: copy_text(name),
            status: EmployeeStatus::Hired,
            hired_at: at,
            runs: 0,
            last_run_at: None,
        },
    );
    proof {
        assert(workspace.employees@.drop_last() =~= old(workspace).employees@);
    }
    let mut events: Vec<AuditEntry> = Vec::new();
    events.push(
        AuditEntry {
            action: owned("employee.hired"),
            resource: resource("employee:", id),
            payload: AuditPayload::Hired { role: owned(role.as_str()), name: copy_text(name) },
        },
    );
    Ok(events)
}

/// Pausing or resuming an employee; setting the status it already has
/// changes nothing and records nothing.
pub open spec fn restatused(
    old: Workspace,
    id: u128,
    status: EmployeeStatus,
    new: Workspace,
    r: Result<Vec<AuditEntry>, WorkspaceError>,
) -> bool {
    let k = employee_index(old.employees@, id);
    if k >= old.employees@.len() {
        (r matches Err(WorkspaceError::NotFound(m)) && m@ == "employee"@) && new == old
    } else if old.employees@[k].status == status {
        (r matches Ok(events) && events@.len() == 0) && new == old
    } else {
        &&& r matches Ok(events)
        &&& events@.len() == 1
        &&& events@[0].action@ == "employee.status"@
        &&& events@[0].resource@ == resource_of("employee:"@, id)
        &&& events@[0].payload matches AuditPayload::StatusChanged { status: x } && x@ == status_name(status)
        &&& same_but(old.employees@, new.employees@, k)
        &&& restaffed(old.employees@[k], new.employees@[k], status, None)
        &&& only_employees(old, new)
    }
}

/// Sets an employee's status, in memory.
pub fn set_employee_status(workspace: &mut Workspace, employee_id: u128, status: EmployeeStatus) -> (r: Result<
    Vec<AuditEntry>,
    WorkspaceError,
>)
    ensures
        restatused(*old(workspace), employee_id, status, *final(workspace), r),
{
    let mut k: usize = 0;
    while k < workspace.employees.len() && workspace.employees[k].id != employee_id
        invariant
            k <= workspace.employees@.len(),
            forall|j: int| 0 <= j < k ==> workspace.employees@[j].id != employee_id,
        decreases workspace.employees@.len() - k,
    {
        k += 1;
    }
    proof {
        lemma_employee_index(workspace.employees@, employee_id, k as int);
    }
    if k == workspace.employees.len() {
        return Err(missing("employee"));
    }
    if workspace.employees[k].status == status {
        return Ok(Vec::new());
    }
    let mut e = workspace.employees.remove(k);
    e.status = status;
    let ghost updated = e;
    workspace.employees.insert(k, e);
    proof {
        assert(workspace.employees@ =~= old(workspace).employees@.update(k as int, updated));
    }
    let mut events: Vec<AuditEntry> = Vec::new();
    events.push(
        AuditEntry {
            action: owned("employee.status"),
            resource: resource("employee:", employee_id),
            payload: AuditPayload::StatusChanged { status: status_text(status) },
        },
    );
    Ok(events)
}

} // verus!

verus! {

// ---------------------------------------------------------------------------
// Recording a run
// ---------------------------------------------------------------------------

/// The most decisions a workspace holds.
pub const MAX_DECISIONS: usize = 5000;

/// The role of the employee that may run now: it exists and is hired.
pub open spec fn run_role_of(ws: Workspace, employee_id: u128) -> Result<RoleId, Seq<char>> {
    let k = employee_index(ws.employees@, employee_id);
    if k >= ws.employees@.len() {
        Err("employee"@)
    } else if ws.employees@[k].status != EmployeeStatus::Hired {
        Err("this employee is paused"@)
    } else {
        Ok(ws.employees@[k].role)
    }
}

/// The role of an employee about to run, or why it cannot.
pub fn run_role(workspace: &Workspace, employee_id: u128) -> (r: Result<RoleId, WorkspaceError>)
    ensures
        match run_role_of(*workspace, employee_id) {
            Ok(role) => r == Ok::<RoleId, WorkspaceError>(role),
            Err(m) => if m == "employee"@ {
                r matches Err(WorkspaceError::NotFound(x)) && x@ == m
            } else {
                r matches Err(WorkspaceError::Invalid(x)) && x@ == m
            },
        },
{
    let mut k: usize = 0;
    while k < workspace.employees.len() && workspace.employees[k].id != employee_id
        invariant
            k <= workspace.employees@.len(),
            forall|j: int| 0 <= j < k ==> workspace.employees@[j].id != employee_id,
        decreases workspace.employees@.len() - k,
    {
        k += 1;
    }
    proof {
        lemma_employee_index(workspace.employees@, employee_id, k as int);
        reveal_strlit("employee");
        reveal_strlit("this employee is paused");
    }
    if k == workspace.employees.len() {
        return Err(missing("employee"));
    }
    if workspace.employees[k].status != EmployeeStatus::Hired {
        return Err(refused("this employee is paused"));
    }
    Ok(workspace.employees[k].role)
}

/// The task name a run is recorded under.
pub open spec fn task_of(role: RoleId) -> Seq<char> {
    "crew."@ + crate::crew::role_name(role)
}

/// `new` is employee `old` after one more run, at `at`.
pub open spec fn ran(old: Employee, new: Employee, at: i64) -> bool {
    &&& new.id == old.id
    &&& new.role == old.role
    &&& new.name == old.name
    &&& new.status == old.status
    &&& new.hired_at == old.hired_at
    &&& new.runs == old.runs + 1
    &&& new.last_run_at == Some(at)
}

/// The events of a run: the employee ran, and proposed this decision.
pub open spec fn run_events(events: Seq<AuditEntry>, d: Decision, report: Option<u128>) -> bool {
    &&& events.len() == 2
    &&& events[0].action@ == "employee.ran"@
    &&& events[0].resource@ == resource_of("employee:"@, d.employee_id)
    &&& events[0].payload matches AuditPayload::EmployeeRan { role, task, provider, model_backed, report_id }
        && role@ == crate::crew::role_name(d.role) && task@ == task_of(d.role) && provider@ == d.provider_id@
        && model_backed == d.model_backed && report_id == report
    &&& events[1].action@ == "decision.proposed"@
    &&& events[1].resource@ == resource_of("decision:"@, d.id)
    &&& events[1].payload matches AuditPayload::DecisionProposed { role, kind } && role@ == crate::crew::role_name(
        d.role,
    ) && kind@ == change_kind(d.change)
}

/// Recording a proposal: refused past the decision limit or for an
/// unknown employee; otherwise the employee's run is counted and the
/// decision joins the inbox, pending.
pub open spec fn run_recorded(
    old: Workspace,
    d: Decision,
    report: Option<u128>,
    at: i64,
    new: Workspace,
    r: Result<Vec<AuditEntry>, WorkspaceError>,
) -> bool {
    let k = employee_index(old.employees@, d.employee_id);
    if old.decisions@.len() >= MAX_DECISIONS {
        (r matches Err(WorkspaceError::Invalid(m)) && m@ == "decision limit reached"@) && new == old
    } else if k >= old.employees@.len() {
        (r matches Err(WorkspaceError::NotFound(m)) && m@ == "employee"@) && new == old
    } else {
        &&& r matches Ok(events)
        &&& run_events(events@, d, report)
        &&& same_but(old.employees@, new.employees@, k)
        &&& ran(old.employees@[k], new.employees@[k], at)
        &&& new.decisions@ == old.decisions@.push(d)
        &&& new.venture == old.venture
        &&& new.customers == old.customers
        &&& new.documents == old.documents
        &&& new.projects == old.projects
        &&& new.tasks == old.tasks
        &&& new.payments == old.payments
        &&& new.follow_ups == old.follow_ups
    }
}

/// Records a run's decision at `at`, in memory; `report` names the
/// compliance report a compliance run wrapped.
pub fn record_run(workspace: &mut Workspace, decision: Decision, report: Option<u128>, at: i64) -> (r: Result<
    Vec<AuditEntry>,
    WorkspaceError,
>)
    requires
        employee_index(old(workspace).employees@, decision.employee_id) < old(workspace).employees@.len()
            ==> old(workspace).employees@[employee_index(old(workspace).employees@, decision.employee_id)].runs
            < u32::MAX,
    ensures
        run_recorded(*old(workspace), decision, report, at, *final(workspace), r),
{
    if workspace.decisions.len() >= MAX_DECISIONS {
        return Err(refused("decision limit reached"));
    }
    let mut k: usize = 0;
    while k < workspace.employees.len() && workspace.employees[k].id != decision.employee_id
        invariant
            k <= workspace.employees@.len(),
            forall|j: int| 0 <= j < k ==> workspace.employees@[j].id != decision.employee_id,
        decreases workspace.employees@.len() - k,
    {
        k += 1;
    }
    proof {
        lemma_employee_index(workspace.employees@, decision.employee_id, k as int);
    }
    if k == workspace.employees.len() {
        return Err(missing("employee"));
    }
    let mut e = workspace.employees.remove(k);
    e.runs = e.runs + 1;
    e.last_run_at = Some(at);
    let ghost updated = e;
    workspace.employees.insert(k, e);
    proof {
        assert(workspace.employees@ =~= old(workspace).employees@.update(k as int, updated));
    }
    let mut task = owned("crew.");
    push_str(&mut task, decision.role.as_str());
    let mut events: Vec<AuditEntry> = Vec::new();
    events.push(
        AuditEntry {
            action: owned("employee.ran"),
            resource: resource("employee:", decision.employee_id),
            payload: AuditPayload::EmployeeRan {
                role: owned(decision.role.as_str()),
                task,
                provider: copy_text(&decision.provider_id),
                model_backed: decision.model_backed,
                report_id: report,
            },
        },
    );
    events.push(
        AuditEntry {
            action: owned("decision.proposed"),
            resource: resource("decision:", decision.id),
            payload: AuditPayload::DecisionProposed {
                role: owned(decision.role.as_str()),
                kind: owned(decision.change.kind()),
            },
        },
    );
    workspace.decisions.push(decision);
    Ok(events)
}

// ---------------------------------------------------------------------------
// The decisions a run proposes
// ---------------------------------------------------------------------------

/// A new pending decision with these facts.
pub open spec fn pending(
    d: Decision,
    id: u128,
    employee_id: u128,
    role: RoleId,
    title: Seq<char>,
    summary: Seq<char>,
    evidence: Seq<Seq<char>>,
    provider_id: Seq<char>,
    provider_trust: Seq<char>,
    model_backed: bool,
    at: i64,
) -> bool {
    &&& d.id == id
    &&& d.employee_id == employee_id
    &&& d.role == role
    &&& d.title@ == title
    &&& d.summary@ == summary
    &&& string_views(d.evidence@) == evidence
    &&& d.provider_id@ == provider_id
    &&& d.provider_trust@ == provider_trust
    &&& d.model_backed == model_backed
    &&& d.status == DecisionStatus::Pending
    &&& d.created_at == at
    &&& d.decided_at is None
    &&& d.outcome is None
}

/// The decision an employee's run proposes: titled by the role's card and
/// the record it looked at, carrying the facts it read.
pub fn employee_decision(
    id: u128,
    employee_id: u128,
    role: RoleId,
    input: &RoleInput,
    change: ProposedChange,
    summary: String,
    provider_id: String,
    provider_trust: String,
    model_backed: bool,
    at: i64,
) -> (d: Decision)
    ensures
        pending(
            d,
            id,
            employee_id,
            role,
            decision_title_spec(
                if input.lang@ == "zh"@ {
                    card_copy(role)[1]
                } else {
                    card_copy(role)[0]
                },
                *input,
            ),
            summary@,
            string_views(input.evidence@),
            provider_id@,
            provider_trust@,
            model_backed,
            at,
        ),
        d.change == change,
{
    let zh = input.lang == owned("zh");
    let card = role_card(role);
    let title = decision_title(&card, input, zh);
    Decision {
        id,
        employee_id,
        role,
        title,
        summary,
        change,
        evidence: copy_strings(&input.evidence),
        provider_id,
        provider_trust,
        model_backed,
        status: DecisionStatus::Pending,
        created_at: at,
        decided_at: None,
        outcome: None,
    }
}

/// How many findings have this status.
pub open spec fn count_status(fs: Seq<ComplianceFinding>, st: FindingStatus) -> nat
    decreases fs.len(),
{
    if fs.len() == 0 {
        0
    } else {
        count_status(fs.drop_last(), st) + if fs.last().status == st {
            1nat
        } else {
            0nat
        }
    }
}

fn count_findings(fs: &Vec<ComplianceFinding>, st: FindingStatus) -> (n: usize)
    ensures
        n == count_status(fs@, st),
{
    let mut n: usize = 0;
    let mut i: usize = 0;
    while i < fs.len()
        invariant
            i <= fs@.len(),
            n == count_status(fs@.take(i as int), st),
            n <= i,
        decreases fs@.len() - i,
    {
        assert(fs@.take(i + 1).drop_last() =~= fs@.take(i as int));
        if fs[i].status == st {
            n += 1;
        }
        i += 1;
    }
    assert(fs@.take(i as int) =~= fs@);
    n
}

/// What a compliance run tells the founder: the model's summary when one
/// was kept, else the coverage and the counts of findings needing action and
/// review.
pub open spec fn checker_summary(
    model_summary: Option<Seq<char>>,
    coverage: Seq<char>,
    fs: Seq<ComplianceFinding>,
    zh: bool,
) -> Seq<char> {
    let attention = decimal(count_status(fs, FindingStatus::Attention));
    let review = decimal(count_status(fs, FindingStatus::NeedsReview));
    match model_summary {
        Some(t) => t,
        None => if zh {
            "覆盖:"@ + coverage + ";"@ + attention + " 项需要处理,"@ + review
                + " 项需要复核。这是未经专业审阅的演示规则包,不是法律或税务意见。"@
        } else {
            "Coverage: "@ + coverage + "; "@ + attention + " finding(s) need action, "@ + review
                + " need review. Unreviewed demo pack; not legal or tax advice."@
        },
    }
}

/// The facts a compliance run reads, as field paths.
pub open spec fn checker_evidence() -> Seq<Seq<char>> {
    seq![
        "venture.jurisdiction"@,
        "venture.registration"@,
        "customers.jurisdiction"@,
        "customers.personal_data_consent"@,
        "documents.sent"@,
    ]
}

/// The decision a compliance run proposes: acknowledging the report it
/// wrapped, titled by the company's name.
pub fn compliance_decision(
    id: u128,
    employee: &Employee,
    venture: &Option<Venture>,
    report_id: u128,
    coverage: &String,
    findings: &Vec<ComplianceFinding>,
    model_summary: &Option<String>,
    provider_id: &String,
    model_backed: bool,
    lang: &str,
    at: i64,
) -> (d: Decision)
    ensures
        pending(
            d,
            id,
            employee.id,
            employee.role,
            (if starts_with(lang@, "zh"@) {
                card_copy(employee.role)[1]
            } else {
                card_copy(employee.role)[0]
            }) + " · "@ + match venture {
                Some(v) => v.name@,
                None => Seq::empty(),
            },
            checker_summary(
                match model_summary {
                    Some(t) => Some(t@),
                    None => None,
                },
                coverage@,
                findings@,
                starts_with(lang@, "zh"@),
            ),
            checker_evidence(),
            provider_id@,
            if provider_id@ == "none"@ {
                "none"@
            } else {
                "local"@
            },
            model_backed,
            at,
        ),
        d.change == (ProposedChange::ComplianceReport { report_id }),
{
    let zh = starts_with_str(&chars_of(lang), "zh");
    let attention = count_findings(findings, FindingStatus::Attention);
    let review = count_findings(findings, FindingStatus::NeedsReview);
    let summary = match model_summary {
        Some(t) => copy_text(t),
        None => {
            let mut s = owned(if zh {
                "覆盖:"
            } else {
                "Coverage: "
            });
            push_str(&mut s, coverage.as_str());
            push_str(&mut s, if zh {
                ";"
            } else {
                "; "
            });
            push_str(&mut s, decimal_text(attention).as_str());
            push_str(&mut s, if zh {
                " 项需要处理,"
            } else {
                " finding(s) need action, "
            });
            push_str(&mut s, decimal_text(review).as_str());
            push_str(
                &mut s,
                if zh {
                    " 项需要复核。这是未经专业审阅的演示规则包,不是法律或税务意见。"
                } else {
                    " need review. Unreviewed demo pack; not legal or tax advice."
                },
            );
            s
        },
    };
    let card = role_card(employee.role);
    let mut title = owned(if zh {
        card.title_zh
    } else {
        card.title_en
    });
    push_str(&mut title, " · ");
    match venture {
        Some(v) => push_str(&mut title, v.name.as_str()),
        None => {},
    }
    let mut evidence: Vec<String> = Vec::new();
    evidence.push(owned("venture.jurisdiction"));
    evidence.push(owned("venture.registration"));
    evidence.push(owned("customers.jurisdiction"));
    evidence.push(owned("customers.personal_data_consent"));
    evidence.push(owned("documents.sent"));
    assert(string_views(evidence@) =~= checker_evidence());
    let trust = if *provider_id == owned("none") {
        owned("none")
    } else {
        owned("local")
    };
    Decision {
        id,
        employee_id: employee.id,
        role: employee.role,
        title,
        summary,
        change: ProposedChange::ComplianceReport { report_id },
        evidence,
        provider_id: copy_text(provider_id),
        provider_trust: trust,
        model_backed,
        status: DecisionStatus::Pending,
        created_at: at,
        decided_at: None,
        outcome: None,
    }
}

} // verus!

verus! {

/// The resource a run is gated on: the document it reads, else the
/// project, else the customer, else the company profile.
pub open spec fn subject_resource_of(s: crate::crew_input::RunSubject) -> Seq<char> {
    match s.document_id {
        Some(id) => resource_of("document:"@, id),
        None => match s.project_id {
            Some(id) => resource_of("project:"@, id),
            None => match s.customer_id {
                Some(id) => resource_of("customer:"@, id),
                None => "venture:profile"@,
            },
        },
    }
}

pub fn subject_resource(subject: &crate::crew_input::RunSubject) -> (r: String)
    ensures
        r@ == subject_resource_of(*subject),
{
    match subject.document_id {
        Some(id) => resource("document:", id),
        None => match subject.project_id {
            Some(id) => resource("project:", id),
            None => match subject.customer_id {
                Some(id) => resource("customer:", id),
                None => owned("venture:profile"),
            },
        },
    }
}

} // verus!
