//! The business graph's own operations, in memory: money received against
//! invoices and the receivables built from it, projects and their tasks,
//! follow-ups, customer and draft edits, and the company profile. Each
//! operation either refuses with the workspace untouched, or changes
//! exactly what it names and returns the audit events that describe it.
use vstd::prelude::*;

use crate::crew_apply::{
    copy_text, customer_index, lemma_customer_index, lemma_project_index, missing, project_index, refused,
    resource, resource_of, same_but, AuditEntry, AuditPayload,
};
use crate::crew_input::{document_at, find_customer, find_document, customer_at};
use crate::erp::{FollowUp, Payment, Project, ProjectStatus, Receivable, Task, TimelineEntry};
use crate::crew_apply::MAX_TASKS;
use crate::crew_apply::MAX_PROJECTS;
use crate::text::{chars_of, owned, string_views, utf8_len_exceeds, utf8_len_seq};
use crate::erp::{clean_body, clean_body_spec, clean_currency, clean_currency_spec, clean_jurisdiction, clean_jurisdiction_spec, CustomerInput, CustomerStage, VentureProfileInput};
use crate::types::{Customer, Venture};
use crate::types::{Document, DocumentKind, DocumentStatus, Workspace, WorkspaceError};

verus! {

/// The most payments a workspace holds.
pub const MAX_PAYMENTS: usize = 5000;

/// Everything received against this invoice.
pub open spec fn paid_of(ps: Seq<Payment>, invoice: u128) -> int
    decreases ps.len(),
{
    if ps.len() == 0 {
        0
    } else {
        paid_of(ps.drop_last(), invoice) + if ps.last().invoice_id == invoice {
            ps.last().amount_cents as int
        } else {
            0
        }
    }
}

proof fn lemma_paid_prefix(ps: Seq<Payment>, invoice: u128, i: int)
    requires
        0 <= i <= ps.len(),
    ensures
        0 <= paid_of(ps.take(i), invoice) <= paid_of(ps, invoice),
    decreases ps.len() - i,
{
    if i < ps.len() {
        lemma_paid_prefix(ps, invoice, i + 1);
        assert(ps.take(i + 1).drop_last() =~= ps.take(i));
    } else {
        assert(ps.take(i) =~= ps);
    }
    lemma_paid_nonneg(ps.take(i), invoice);
}

pub(crate) proof fn lemma_paid_nonneg(ps: Seq<Payment>, invoice: u128)
    ensures
        paid_of(ps, invoice) >= 0,
    decreases ps.len(),
{
    if ps.len() > 0 {
        lemma_paid_nonneg(ps.drop_last(), invoice);
    }
}

/// An invoice that went out: only those can receive money.
pub open spec fn issued_invoice(d: Document) -> bool {
    d.kind == DocumentKind::Invoice && (d.status == DocumentStatus::ApprovedPendingDelivery || d.status
        == DocumentStatus::Delivered)
}

/// What an invoice asks for; nothing when it states no amount.
pub open spec fn invoice_total(d: Document) -> int {
    match d.amount_cents {
        Some(a) => a as int,
        None => 0,
    }
}

fn paid_sum(ps: &Vec<Payment>, invoice: u128) -> (r: u64)
    requires
        paid_of(ps@, invoice) <= u64::MAX,
    ensures
        r == paid_of(ps@, invoice),
{
    let mut sum: u64 = 0;
    let mut i: usize = 0;
    while i < ps.len()
        invariant
            i <= ps@.len(),
            paid_of(ps@, invoice) <= u64::MAX,
            sum == paid_of(ps@.take(i as int), invoice),
        decreases ps@.len() - i,
    {
        proof {
            assert(ps@.take(i + 1).drop_last() =~= ps@.take(i as int));
            lemma_paid_prefix(ps@, invoice, i + 1);
        }
        if ps[i].invoice_id == invoice {
            sum = sum + ps[i].amount_cents;
        }
        i += 1;
    }
    assert(ps@.take(i as int) =~= ps@);
    sum
}

// ---------------------------------------------------------------------------
// Receivables
// ---------------------------------------------------------------------------

/// One receivable as the founder reads it: invoice, customer, customer's
/// name, title, amount, paid, outstanding, status, due date.
pub open spec fn receivable_view(r: Receivable) -> (u128, u128, Seq<char>, Seq<char>, u64, u64, u64, Seq<char>, Option<i64>) {
    (r.invoice_id, r.customer_id, r.customer_name@, r.title@, r.amount_cents, r.paid_cents, r.outstanding_cents, r.status@, r.due_at)
}

pub open spec fn receivable_views(v: Seq<Receivable>) -> Seq<(u128, u128, Seq<char>, Seq<char>, u64, u64, u64, Seq<char>, Option<i64>)> {
    v.map_values(|r: Receivable| receivable_view(r))
}

/// The status of an invoice with this much outstanding and paid: paid when
/// nothing is outstanding, overdue past its due date, partial once money
/// came in, else open.
pub open spec fn receivable_status(outstanding: int, paid: int, due: Option<i64>, now: i64) -> Seq<char> {
    if outstanding == 0 {
        "paid"@
    } else if due matches Some(t) && t < now {
        "overdue"@
    } else if paid > 0 {
        "partial"@
    } else {
        "open"@
    }
}

/// The receivable of an issued invoice at `now`.
pub open spec fn receivable_of(ws: Workspace, d: Document, now: i64) -> (u128, u128, Seq<char>, Seq<char>, u64, u64, u64, Seq<char>, Option<i64>) {
    let amount = invoice_total(d);
    let paid = paid_of(ws.payments@, d.id);
    let outstanding = if amount >= paid {
        amount - paid
    } else {
        0
    };
    (
        d.id,
        d.customer_id,
        match find_customer(ws.customers@, d.customer_id) {
            Some(c) => c.name@,
            None => Seq::empty(),
        },
        d.title@,
        amount as u64,
        paid as u64,
        outstanding as u64,
        receivable_status(outstanding, paid, d.due_at, now),
        d.due_at,
    )
}

pub open spec fn receivable_pick(ws: Workspace, now: i64) -> spec_fn(Document) -> Option<
    (u128, u128, Seq<char>, Seq<char>, u64, u64, u64, Seq<char>, Option<i64>),
> {
    |d: Document|
        if issued_invoice(d) {
            Some(receivable_of(ws, d, now))
        } else {
            None
        }
}

/// Outstanding money per issued invoice, in the order the documents are
/// stored.
pub open spec fn receivables_spec(ws: Workspace, now: i64) -> Seq<
    (u128, u128, Seq<char>, Seq<char>, u64, u64, u64, Seq<char>, Option<i64>),
> {
    ws.documents@.filter_map(receivable_pick(ws, now))
}

/// What was received against each issued invoice fits in a `u64`.
pub open spec fn sums_fit(ws: Workspace) -> bool {
    forall|i: int|
        0 <= i < ws.documents@.len() && issued_invoice(ws.documents@[i]) ==> paid_of(
            ws.payments@,
            #[trigger] ws.documents@[i].id,
        ) <= u64::MAX
}

fn customer_name(ws: &Workspace, id: u128) -> (r: String)
    ensures
        r@ == match find_customer(ws.customers@, id) {
            Some(c) => c.name@,
            None => Seq::<char>::empty(),
        },
{
    match customer_at(&ws.customers, id) {
        Some(k) => copy_text(&ws.customers[k].name),
        None => String::new(),
    }
}

fn receivable(ws: &Workspace, d: &Document, now: i64) -> (r: Receivable)
    requires
        paid_of(ws.payments@, d.id) <= u64::MAX,
    ensures
        receivable_view(r) == receivable_of(*ws, *d, now),
{
    let amount = match d.amount_cents {
        Some(a) => a,
        None => 0,
    };
    let paid = paid_sum(&ws.payments, d.id);
    let outstanding = if amount >= paid {
        amount - paid
    } else {
        0
    };
    let status = if outstanding == 0 {
        owned("paid")
    } else if match d.due_at {
        Some(t) => t < now,
        None => false,
    } {
        owned("overdue")
    } else if paid > 0 {
        owned("partial")
    } else {
        owned("open")
    };
    Receivable {
        invoice_id: d.id,
        customer_id: d.customer_id,
        customer_name: customer_name(ws, d.customer_id),
        title: copy_text(&d.title),
        amount_cents: amount,
        paid_cents: paid,
        outstanding_cents: outstanding,
        status,
        due_at: d.due_at,
    }
}

/// Outstanding money per issued invoice at `now`.
pub fn receivable_rows(workspace: &Workspace, now_unix: i64) -> (r: Vec<Receivable>)
    requires
        sums_fit(*workspace),
    ensures
        receivable_views(r@) == receivables_spec(*workspace, now_unix),
{
    let ghost f = receivable_pick(*workspace, now_unix);
    let mut out: Vec<Receivable> = Vec::new();
    let mut i: usize = 0;
    while i < workspace.documents.len()
        invariant
            i <= workspace.documents@.len(),
            sums_fit(*workspace),
            f == receivable_pick(*workspace, now_unix),
            receivable_views(out@) == workspace.documents@.take(i as int).filter_map(f),
        decreases workspace.documents@.len() - i,
    {
        let d = &workspace.documents[i];
        proof {
            assert(workspace.documents@.take(i + 1).drop_last() =~= workspace.documents@.take(i as int));
            assert(workspace.documents@.take(i + 1).last() == *d);
        }
        let issued = d.kind == DocumentKind::Invoice && (d.status == DocumentStatus::ApprovedPendingDelivery
            || d.status == DocumentStatus::Delivered);
        if issued {
            assert(paid_of(workspace.payments@, workspace.documents@[i as int].id) <= u64::MAX);
            let row = receivable(workspace, d, now_unix);
            let ghost before = out@;
            out.push(row);
            assert(receivable_views(out@) =~= receivable_views(before).push(receivable_view(row)));
        }
        proof {
            assert(receivable_views(out@) =~= workspace.documents@.take(i + 1).filter_map(f));
        }
        i += 1;
    }
    assert(workspace.documents@.take(i as int) =~= workspace.documents@);
    out
}

// ---------------------------------------------------------------------------
// Recording a payment
// ---------------------------------------------------------------------------

/// Only the payments may have changed.
pub open spec fn only_payments(old: Workspace, new: Workspace) -> bool {
    &&& new.venture == old.venture
    &&& new.customers == old.customers
    &&& new.documents == old.documents
    &&& new.projects == old.projects
    &&& new.tasks == old.tasks
    &&& new.follow_ups == old.follow_ups
    &&& new.employees == old.employees
    &&& new.decisions == old.decisions
}

pub open spec fn refused_op(r: Result<Vec<AuditEntry>, WorkspaceError>, m: Seq<char>) -> bool {
    r matches Err(WorkspaceError::Invalid(x)) && x@ == m
}

pub open spec fn missing_op(r: Result<Vec<AuditEntry>, WorkspaceError>, m: Seq<char>) -> bool {
    r matches Err(WorkspaceError::NotFound(x)) && x@ == m
}

/// Recording money received against an issued invoice: positive, dated,
/// never past the invoice's amount, within the limit.
pub open spec fn payment_recorded(
    old: Workspace,
    invoice_id: u128,
    amount: u64,
    received_at: i64,
    note: Seq<char>,
    id: u128,
    at: i64,
    new: Workspace,
    r: Result<Vec<AuditEntry>, WorkspaceError>,
) -> bool {
    if amount == 0 {
        refused_op(r, "payment must be positive"@) && new == old
    } else if received_at <= 0 {
        refused_op(r, "received_at must be a unix timestamp"@) && new == old
    } else {
        match find_document(old.documents@, invoice_id) {
            None => missing_op(r, "document not found"@) && new == old,
            Some(d) => if !issued_invoice(d) {
                refused_op(r, "only an issued invoice can receive payments"@) && new == old
            } else if paid_of(old.payments@, invoice_id) + amount > invoice_total(d) {
                refused_op(r, "payment exceeds the invoice amount"@) && new == old
            } else if old.payments@.len() >= MAX_PAYMENTS {
                refused_op(r, "payment limit reached"@) && new == old
            } else {
                let p = new.payments@.last();
                &&& r matches Ok(events)
                &&& events@.len() == 1
                &&& events@[0].action@ == "payment.record"@
                &&& events@[0].resource@ == resource_of("document:"@, invoice_id)
                &&& events@[0].payload matches AuditPayload::PaymentRecorded { amount_cents, paid_total_cents }
                    && amount_cents == amount && paid_total_cents == paid_of(old.payments@, invoice_id) + amount
                &&& new.payments@.len() == old.payments@.len() + 1
                &&& new.payments@.drop_last() == old.payments@
                &&& p.id == id && p.invoice_id == invoice_id && p.amount_cents == amount && p.received_at
                    == received_at && p.note@ == note && p.created_at == at
                &&& only_payments(old, new)
            },
        }
    }
}

/// Records money received against an issued invoice at `at`, in memory,
/// under an already cleaned note; `id` names the payment.
pub fn record_payment(
    workspace: &mut Workspace,
    invoice_id: u128,
    amount_cents: u64,
    received_at: i64,
    note: &String,
    id: u128,
    at: i64,
) -> (r: Result<Vec<AuditEntry>, WorkspaceError>)
    requires
        paid_of(old(workspace).payments@, invoice_id) <= u64::MAX,
    ensures
        payment_recorded(*old(workspace), invoice_id, amount_cents, received_at, note@, id, at, *final(workspace), r),
{
    if amount_cents == 0 {
        return Err(refused("payment must be positive"));
    }
    if received_at <= 0 {
        return Err(refused("received_at must be a unix timestamp"));
    }
    let k = match document_at(&workspace.documents, invoice_id) {
        Some(k) => k,
        None => {
            return Err(missing("document not found"));
        },
    };
    let d = &workspace.documents[k];
    if !(d.kind == DocumentKind::Invoice && (d.status == DocumentStatus::ApprovedPendingDelivery || d.status
        == DocumentStatus::Delivered)) {
        return Err(refused("only an issued invoice can receive payments"));
    }
    let total = match d.amount_cents {
        Some(a) => a,
        None => 0,
    };
    let paid = paid_sum(&workspace.payments, invoice_id);
    if amount_cents > total || paid > total - amount_cents {
        return Err(refused("payment exceeds the invoice amount"));
    }
    if workspace.payments.len() >= MAX_PAYMENTS {
        return Err(refused("payment limit reached"));
    }
    let paid_total = paid + amount_cents;
    workspace.payments.push(
        Payment { id, invoice_id, amount_cents, received_at, note: copy_text(note), created_at: at },
    );
    proof {
        assert(workspace.payments@.drop_last() =~= old(workspace).payments@);
    }
    let mut events: Vec<AuditEntry> = Vec::new();
    events.push(
        AuditEntry {
            action: owned("payment.record"),
            resource: resource("document:", invoice_id),
            payload: AuditPayload::PaymentRecorded { amount_cents, paid_total_cents: paid_total },
        },
    );
    Ok(events)
}

} // verus!

verus! {

// ---------------------------------------------------------------------------
// Projects and tasks
// ---------------------------------------------------------------------------

/// The most follow-ups a workspace holds.
pub const MAX_FOLLOW_UPS: usize = 2000;

/// Only the projects may have changed.
pub open spec fn only_projects(old: Workspace, new: Workspace) -> bool {
    &&& new.venture == old.venture
    &&& new.customers == old.customers
    &&& new.documents == old.documents
    &&& new.tasks == old.tasks
    &&& new.payments == old.payments
    &&& new.follow_ups == old.follow_ups
    &&& new.employees == old.employees
    &&& new.decisions == old.decisions
}

/// Only the tasks may have changed.
pub open spec fn only_tasks(old: Workspace, new: Workspace) -> bool {
    &&& new.venture == old.venture
    &&& new.customers == old.customers
    &&& new.documents == old.documents
    &&& new.projects == old.projects
    &&& new.payments == old.payments
    &&& new.follow_ups == old.follow_ups
    &&& new.employees == old.employees
    &&& new.decisions == old.decisions
}

/// Only the follow-ups may have changed.
pub open spec fn only_follow_ups(old: Workspace, new: Workspace) -> bool {
    &&& new.venture == old.venture
    &&& new.customers == old.customers
    &&& new.documents == old.documents
    &&& new.projects == old.projects
    &&& new.tasks == old.tasks
    &&& new.payments == old.payments
    &&& new.employees == old.employees
    &&& new.decisions == old.decisions
}

/// How many of the project's tasks are not done.
pub open spec fn open_tasks(ts: Seq<Task>, project: u128) -> nat
    decreases ts.len(),
{
    if ts.len() == 0 {
        0
    } else {
        open_tasks(ts.drop_last(), project) + if ts.last().project_id == project && ts.last().done_at is None {
            1nat
        } else {
            0nat
        }
    }
}

fn count_open_tasks(ts: &Vec<Task>, project: u128) -> (n: usize)
    ensures
        n == open_tasks(ts@, project),
{
    let mut n: usize = 0;
    let mut i: usize = 0;
    while i < ts.len()
        invariant
            i <= ts@.len(),
            n == open_tasks(ts@.take(i as int), project),
            n <= i,
        decreases ts@.len() - i,
    {
        assert(ts@.take(i + 1).drop_last() =~= ts@.take(i as int));
        if ts[i].project_id == project && ts[i].done_at.is_none() {
            n += 1;
        }
        i += 1;
    }
    assert(ts@.take(i as int) =~= ts@);
    n
}

/// The stored name of a project status.
pub open spec fn project_status_name(s: ProjectStatus) -> Seq<char> {
    match s {
        ProjectStatus::Proposed => "proposed"@,
        ProjectStatus::Active => "active"@,
        ProjectStatus::Done => "done"@,
    }
}

fn project_status_text(s: ProjectStatus) -> (r: String)
    ensures
        r@ == project_status_name(s),
{
    match s {
        ProjectStatus::Proposed => owned("proposed"),
        ProjectStatus::Active => owned("active"),
        ProjectStatus::Done => owned("done"),
    }
}

fn attested(action: &str, prefix: &str, id: u128) -> (e: AuditEntry)
    ensures
        e.action@ == action@,
        e.resource@ == resource_of(prefix@, id),
        e.payload matches AuditPayload::Attested { by } && by@ == "founder"@,
{
    AuditEntry { action: owned(action), resource: resource(prefix, id), payload: AuditPayload::Attested { by: owned("founder") } }
}

/// Moving a project forward: a closed project stays closed, and closing
/// needs every one of its tasks done. Setting the status it has changes
/// nothing.
pub open spec fn project_status_set(
    old: Workspace,
    id: u128,
    status: ProjectStatus,
    at: i64,
    new: Workspace,
    r: Result<Vec<AuditEntry>, WorkspaceError>,
) -> bool {
    let k = project_index(old.projects@, id);
    if k >= old.projects@.len() {
        missing_op(r, "project not found"@) && new == old
    } else {
        let p = old.projects@[k];
        let q = new.projects@[k];
        if p.status == status {
            (r matches Ok(events) && events@.len() == 0) && new == old
        } else if p.status == ProjectStatus::Done {
            refused_op(r, "a closed project cannot change status"@) && new == old
        } else if status == ProjectStatus::Done && open_tasks(old.tasks@, id) > 0 {
            refused_op(r, "finish every task before closing the project"@) && new == old
        } else {
            &&& r matches Ok(events)
            &&& events@.len() == 1
            &&& events@[0].action@ == "project.status"@
            &&& events@[0].resource@ == resource_of("project:"@, id)
            &&& events@[0].payload matches AuditPayload::ProjectStatusSet { status: x } && x@ == project_status_name(status)
            &&& same_but(old.projects@, new.projects@, k)
            &&& q.id == p.id && q.customer_id == p.customer_id && q.offer_id == p.offer_id && q.name == p.name
                && q.budget_cents == p.budget_cents && q.created_at == p.created_at && q.acceptance_criteria
                == p.acceptance_criteria
            &&& q.status == status && q.updated_at == at
            &&& q.done_at == if status == ProjectStatus::Done {
                Some(at)
            } else {
                p.done_at
            }
            &&& only_projects(old, new)
        }
    }
}

/// Sets a project's status at `at`, in memory.
pub fn set_project_status(workspace: &mut Workspace, project_id: u128, status: ProjectStatus, at: i64) -> (r: Result<
    Vec<AuditEntry>,
    WorkspaceError,
>)
    ensures
        project_status_set(*old(workspace), project_id, status, at, *final(workspace), r),
{
    let open = count_open_tasks(&workspace.tasks, project_id);
    let k = match crate::crew_input::project_at(&workspace.projects, project_id) {
        Some(k) => k,
        None => {
            proof {
                lemma_project_index(workspace.projects@, project_id, workspace.projects@.len() as int);
            }
            return Err(missing("project not found"));
        },
    };
    proof {
        lemma_project_index(workspace.projects@, project_id, k as int);
    }
    if workspace.projects[k].status == status {
        return Ok(Vec::new());
    }
    if workspace.projects[k].status == ProjectStatus::Done {
        return Err(refused("a closed project cannot change status"));
    }
    if status == ProjectStatus::Done && open > 0 {
        return Err(refused("finish every task before closing the project"));
    }
    let mut p = workspace.projects.remove(k);
    p.status = status;
    p.updated_at = at;
    if status == ProjectStatus::Done {
        p.done_at = Some(at);
    }
    let ghost q = p;
    workspace.projects.insert(k, p);
    proof {
        assert(workspace.projects@ =~= old(workspace).projects@.update(k as int, q));
    }
    let mut events: Vec<AuditEntry> = Vec::new();
    events.push(
        AuditEntry {
            action: owned("project.status"),
            resource: resource("project:", project_id),
            payload: AuditPayload::ProjectStatusSet { status: project_status_text(status) },
        },
    );
    Ok(events)
}

/// Opening a project for a customer, optionally delivering one of their
/// offers: it starts proposed, without criteria.
pub open spec fn project_added(
    old: Workspace,
    cid: u128,
    name: Seq<char>,
    offer: Option<u128>,
    budget: Option<u64>,
    id: u128,
    at: i64,
    new: Workspace,
    r: Result<Vec<AuditEntry>, WorkspaceError>,
) -> bool {
    if customer_index(old.customers@, cid) >= old.customers@.len() {
        missing_op(r, "customer not found"@) && new == old
    } else if offer is Some && find_document(old.documents@, offer->0) is None {
        missing_op(r, "document not found"@) && new == old
    } else if offer is Some && (find_document(old.documents@, offer->0)->0.kind != DocumentKind::Offer || find_document(
        old.documents@,
        offer->0,
    )->0.customer_id != cid) {
        refused_op(r, "offer does not belong to this customer"@) && new == old
    } else if old.projects@.len() >= MAX_PROJECTS {
        refused_op(r, "project limit reached"@) && new == old
    } else {
        let p = new.projects@.last();
        &&& r matches Ok(events)
        &&& events@.len() == 1
        &&& events@[0].action@ == "project.create"@
        &&& events@[0].resource@ == resource_of("project:"@, id)
        &&& events@[0].payload matches AuditPayload::ProjectOpened { name: n, customer_id: c } && n@ == name && c
            == cid
        &&& new.projects@.len() == old.projects@.len() + 1
        &&& new.projects@.drop_last() == old.projects@
        &&& p.id == id && p.customer_id == cid && p.offer_id == offer && p.name@ == name && p.status
            == ProjectStatus::Proposed && p.budget_cents == budget && p.created_at == at && p.updated_at == at
            && p.done_at is None && p.acceptance_criteria@.len() == 0
        &&& only_projects(old, new)
    }
}

/// Opens a project at `at`, in memory, under an already cleaned name; `id`
/// names it.
pub fn add_project(
    workspace: &mut Workspace,
    customer_id: u128,
    name: &String,
    offer_id: Option<u128>,
    budget_cents: Option<u64>,
    id: u128,
    at: i64,
) -> (r: Result<Vec<AuditEntry>, WorkspaceError>)
    ensures
        project_added(*old(workspace), customer_id, name@, offer_id, budget_cents, id, at, *final(workspace), r),
{
    match customer_at(&workspace.customers, customer_id) {
        Some(k) => {
            proof {
                lemma_customer_index(workspace.customers@, customer_id, k as int);
            }
        },
        None => {
            proof {
                lemma_customer_index(workspace.customers@, customer_id, workspace.customers@.len() as int);
            }
            return Err(missing("customer not found"));
        },
    }
    if let Some(o) = offer_id {
        match document_at(&workspace.documents, o) {
            Some(k) => {
                if workspace.documents[k].kind != DocumentKind::Offer || workspace.documents[k].customer_id != customer_id {
                    return Err(refused("offer does not belong to this customer"));
                }
            },
            None => {
                return Err(missing("document not found"));
            },
        }
    }
    if workspace.projects.len() >= MAX_PROJECTS {
        return Err(refused("project limit reached"));
    }
    workspace.projects.push(
        Project {
            id,
            customer_id,
            offer_id,
            name: copy_text(name),
            status: ProjectStatus::Proposed,
            budget_cents,
            created_at: at,
            updated_at: at,
            done_at: None,
            acceptance_criteria: Vec::new(),
        },
    );
    proof {
        assert(workspace.projects@.drop_last() =~= old(workspace).projects@);
    }
    let mut events: Vec<AuditEntry> = Vec::new();
    events.push(
        AuditEntry {
            action: owned("project.create"),
            resource: resource("project:", id),
            payload: AuditPayload::ProjectOpened { name: copy_text(name), customer_id },
        },
    );
    Ok(events)
}

/// Adding a task to an open project, up to the limit.
pub open spec fn task_added(
    old: Workspace,
    project: u128,
    title: Seq<char>,
    due_at: Option<i64>,
    origin: Seq<char>,
    id: u128,
    at: i64,
    new: Workspace,
    r: Result<Vec<AuditEntry>, WorkspaceError>,
) -> bool {
    let k = project_index(old.projects@, project);
    if k >= old.projects@.len() {
        missing_op(r, "project not found"@) && new == old
    } else if old.projects@[k].status == ProjectStatus::Done {
        refused_op(r, "the project is closed"@) && new == old
    } else if old.tasks@.len() >= MAX_TASKS {
        refused_op(r, "task limit reached"@) && new == old
    } else {
        let t = new.tasks@.last();
        &&& r matches Ok(events)
        &&& events@.len() == 1
        &&& events@[0].action@ == "task.create"@
        &&& events@[0].resource@ == resource_of("task:"@, id)
        &&& events@[0].payload matches AuditPayload::TaskCreate { title: x, project_id: p, origin: o } && x@ == title
            && p == project && o@ == origin
        &&& new.tasks@.len() == old.tasks@.len() + 1
        &&& new.tasks@.drop_last() == old.tasks@
        &&& t.id == id && t.project_id == project && t.title@ == title && t.due_at == due_at && t.done_at is None
            && t.created_at == at && t.origin@ == origin
        &&& only_tasks(old, new)
    }
}

/// Adds a task at `at`, in memory, under an already cleaned title; `origin`
/// says who proposed it and `id` names it.
pub fn add_task_with_origin(
    workspace: &mut Workspace,
    project_id: u128,
    title: &String,
    due_at: Option<i64>,
    origin: &str,
    id: u128,
    at: i64,
) -> (r: Result<Vec<AuditEntry>, WorkspaceError>)
    ensures
        task_added(*old(workspace), project_id, title@, due_at, origin@, id, at, *final(workspace), r),
{
    let k = match crate::crew_input::project_at(&workspace.projects, project_id) {
        Some(k) => k,
        None => {
            proof {
                lemma_project_index(workspace.projects@, project_id, workspace.projects@.len() as int);
            }
            return Err(missing("project not found"));
        },
    };
    proof {
        lemma_project_index(workspace.projects@, project_id, k as int);
    }
    if workspace.projects[k].status == ProjectStatus::Done {
        return Err(refused("the project is closed"));
    }
    if workspace.tasks.len() >= MAX_TASKS {
        return Err(refused("task limit reached"));
    }
    workspace.tasks.push(
        Task { id, project_id, title: copy_text(title), due_at, done_at: None, created_at: at, origin: owned(origin) },
    );
    proof {
        assert(workspace.tasks@.drop_last() =~= old(workspace).tasks@);
    }
    let mut events: Vec<AuditEntry> = Vec::new();
    events.push(
        AuditEntry {
            action: owned("task.create"),
            resource: resource("task:", id),
            payload: AuditPayload::TaskCreate { title: copy_text(title), project_id, origin: owned(origin) },
        },
    );
    Ok(events)
}

/// Adds a task the founder wrote.
pub fn add_task(
    workspace: &mut Workspace,
    project_id: u128,
    title: &String,
    due_at: Option<i64>,
    id: u128,
    at: i64,
) -> (r: Result<Vec<AuditEntry>, WorkspaceError>)
    ensures
        task_added(*old(workspace), project_id, title@, due_at, "founder"@, id, at, *final(workspace), r),
{
    add_task_with_origin(workspace, project_id, title, due_at, "founder", id, at)
}

/// Where the first task with this id stands; the length when none does.
pub open spec fn task_index(ts: Seq<Task>, id: u128) -> int
    decreases ts.len(),
{
    if ts.len() == 0 {
        0
    } else if ts[0].id == id {
        0
    } else {
        1 + task_index(ts.drop_first(), id)
    }
}

proof fn lemma_task_index(ts: Seq<Task>, id: u128, i: int)
    requires
        0 <= i <= ts.len(),
        i < ts.len() ==> ts[i].id == id,
        forall|j: int| 0 <= j < i ==> ts[j].id != id,
    ensures
        task_index(ts, id) == i,
    decreases i,
{
    if i > 0 {
        assert(ts[0].id != id);
        lemma_task_index(ts.drop_first(), id, i - 1);
    } else if ts.len() > 0 {
        assert(ts[0].id == id);
    }
}

/// Marking a task done, once; a done task stays as it was.
pub open spec fn task_completed(old: Workspace, id: u128, at: i64, new: Workspace, r: Result<Vec<AuditEntry>, WorkspaceError>) -> bool {
    let k = task_index(old.tasks@, id);
    if k >= old.tasks@.len() {
        missing_op(r, "task not found"@) && new == old
    } else if old.tasks@[k].done_at is Some {
        (r matches Ok(events) && events@.len() == 0) && new == old
    } else {
        let t = old.tasks@[k];
        let u = new.tasks@[k];
        &&& r matches Ok(events)
        &&& events@.len() == 1
        &&& events@[0].action@ == "task.done"@
        &&& events@[0].resource@ == resource_of("task:"@, id)
        &&& events@[0].payload matches AuditPayload::Attested { by } && by@ == "founder"@
        &&& same_but(old.tasks@, new.tasks@, k)
        &&& u.id == t.id && u.project_id == t.project_id && u.title == t.title && u.due_at == t.due_at && u.created_at
            == t.created_at && u.origin == t.origin && u.done_at == Some(at)
        &&& only_tasks(old, new)
    }
}

/// Marks a task done at `at`, in memory.
pub fn complete_task(workspace: &mut Workspace, task_id: u128, at: i64) -> (r: Result<Vec<AuditEntry>, WorkspaceError>)
    ensures
        task_completed(*old(workspace), task_id, at, *final(workspace), r),
{
    let mut k: usize = 0;
    while k < workspace.tasks.len() && workspace.tasks[k].id != task_id
        invariant
            k <= workspace.tasks@.len(),
            forall|j: int| 0 <= j < k ==> workspace.tasks@[j].id != task_id,
        decreases workspace.tasks@.len() - k,
    {
        k += 1;
    }
    proof {
        lemma_task_index(workspace.tasks@, task_id, k as int);
    }
    if k == workspace.tasks.len() {
        return Err(missing("task not found"));
    }
    if workspace.tasks[k].done_at.is_some() {
        return Ok(Vec::new());
    }
    let mut t = workspace.tasks.remove(k);
    t.done_at = Some(at);
    let ghost u = t;
    workspace.tasks.insert(k, t);
    proof {
        assert(workspace.tasks@ =~= old(workspace).tasks@.update(k as int, u));
    }
    let mut events: Vec<AuditEntry> = Vec::new();
    events.push(attested("task.done", "task:", task_id));
    Ok(events)
}

// ---------------------------------------------------------------------------
// Follow-ups
// ---------------------------------------------------------------------------

/// Adding a dated follow-up for a customer, up to the limit.
pub open spec fn follow_up_added(
    old: Workspace,
    cid: u128,
    due_at: i64,
    note: Seq<char>,
    origin: Seq<char>,
    id: u128,
    at: i64,
    new: Workspace,
    r: Result<Vec<AuditEntry>, WorkspaceError>,
) -> bool {
    if due_at <= 0 {
        refused_op(r, "due_at must be a unix timestamp"@) && new == old
    } else if customer_index(old.customers@, cid) >= old.customers@.len() {
        missing_op(r, "customer not found"@) && new == old
    } else if old.follow_ups@.len() >= MAX_FOLLOW_UPS {
        refused_op(r, "follow-up limit reached"@) && new == old
    } else {
        let f = new.follow_ups@.last();
        &&& r matches Ok(events)
        &&& events@.len() == 1
        &&& events@[0].action@ == "follow_up.create"@
        &&& events@[0].resource@ == resource_of("follow_up:"@, id)
        &&& events@[0].payload matches AuditPayload::FollowUpCreate { customer_id: c, due_at: d, origin: o } && c == cid
            && d == due_at && o@ == origin
        &&& new.follow_ups@.len() == old.follow_ups@.len() + 1
        &&& new.follow_ups@.drop_last() == old.follow_ups@
        &&& f.id == id && f.customer_id == cid && f.due_at == due_at && f.note@ == note && f.done_at is None
            && f.created_at == at && f.origin@ == origin
        &&& only_follow_ups(old, new)
    }
}

/// Adds a follow-up at `at`, in memory, under an already cleaned note;
/// `origin` says who proposed it and `id` names it.
pub fn add_follow_up_with_origin(
    workspace: &mut Workspace,
    customer_id: u128,
    due_at: i64,
    note: &String,
    origin: &str,
    id: u128,
    at: i64,
) -> (r: Result<Vec<AuditEntry>, WorkspaceError>)
    ensures
        follow_up_added(*old(workspace), customer_id, due_at, note@, origin@, id, at, *final(workspace), r),
{
    if due_at <= 0 {
        return Err(refused("due_at must be a unix timestamp"));
    }
    match customer_at(&workspace.customers, customer_id) {
        Some(k) => {
            proof {
                lemma_customer_index(workspace.customers@, customer_id, k as int);
            }
        },
        None => {
            proof {
                lemma_customer_index(workspace.customers@, customer_id, workspace.customers@.len() as int);
            }
            return Err(missing("customer not found"));
        },
    }
    if workspace.follow_ups.len() >= MAX_FOLLOW_UPS {
        return Err(refused("follow-up limit reached"));
    }
    workspace.follow_ups.push(
        FollowUp { id, customer_id, due_at, note: copy_text(note), done_at: None, created_at: at, origin: owned(origin) },
    );
    proof {
        assert(workspace.follow_ups@.drop_last() =~= old(workspace).follow_ups@);
    }
    let mut events: Vec<AuditEntry> = Vec::new();
    events.push(
        AuditEntry {
            action: owned("follow_up.create"),
            resource: resource("follow_up:", id),
            payload: AuditPayload::FollowUpCreate { customer_id, due_at, origin: owned(origin) },
        },
    );
    Ok(events)
}

/// Adds a follow-up the founder wrote.
pub fn add_follow_up(
    workspace: &mut Workspace,
    customer_id: u128,
    due_at: i64,
    note: &String,
    id: u128,
    at: i64,
) -> (r: Result<Vec<AuditEntry>, WorkspaceError>)
    ensures
        follow_up_added(*old(workspace), customer_id, due_at, note@, "founder"@, id, at, *final(workspace), r),
{
    add_follow_up_with_origin(workspace, customer_id, due_at, note, "founder", id, at)
}

/// Where the first follow-up with this id stands; the length when none does.
pub open spec fn follow_up_index(fs: Seq<FollowUp>, id: u128) -> int
    decreases fs.len(),
{
    if fs.len() == 0 {
        0
    } else if fs[0].id == id {
        0
    } else {
        1 + follow_up_index(fs.drop_first(), id)
    }
}

proof fn lemma_follow_up_index(fs: Seq<FollowUp>, id: u128, i: int)
    requires
        0 <= i <= fs.len(),
        i < fs.len() ==> fs[i].id == id,
        forall|j: int| 0 <= j < i ==> fs[j].id != id,
    ensures
        follow_up_index(fs, id) == i,
    decreases i,
{
    if i > 0 {
        assert(fs[0].id != id);
        lemma_follow_up_index(fs.drop_first(), id, i - 1);
    } else if fs.len() > 0 {
        assert(fs[0].id == id);
    }
}

/// Marking a follow-up done, once; a done one stays as it was.
pub open spec fn follow_up_completed(old: Workspace, id: u128, at: i64, new: Workspace, r: Result<Vec<AuditEntry>, WorkspaceError>) -> bool {
    let k = follow_up_index(old.follow_ups@, id);
    if k >= old.follow_ups@.len() {
        missing_op(r, "follow-up not found"@) && new == old
    } else if old.follow_ups@[k].done_at is Some {
        (r matches Ok(events) && events@.len() == 0) && new == old
    } else {
        let f = old.follow_ups@[k];
        let g = new.follow_ups@[k];
        &&& r matches Ok(events)
        &&& events@.len() == 1
        &&& events@[0].action@ == "follow_up.done"@
        &&& events@[0].resource@ == resource_of("follow_up:"@, id)
        &&& events@[0].payload matches AuditPayload::Attested { by } && by@ == "founder"@
        &&& same_but(old.follow_ups@, new.follow_ups@, k)
        &&& g.id == f.id && g.customer_id == f.customer_id && g.due_at == f.due_at && g.note == f.note && g.created_at
            == f.created_at && g.origin == f.origin && g.done_at == Some(at)
        &&& only_follow_ups(old, new)
    }
}

/// Marks a follow-up done at `at`, in memory.
pub fn complete_follow_up(workspace: &mut Workspace, follow_up_id: u128, at: i64) -> (r: Result<
    Vec<AuditEntry>,
    WorkspaceError,
>)
    ensures
        follow_up_completed(*old(workspace), follow_up_id, at, *final(workspace), r),
{
    let mut k: usize = 0;
    while k < workspace.follow_ups.len() && workspace.follow_ups[k].id != follow_up_id
        invariant
            k <= workspace.follow_ups@.len(),
            forall|j: int| 0 <= j < k ==> workspace.follow_ups@[j].id != follow_up_id,
        decreases workspace.follow_ups@.len() - k,
    {
        k += 1;
    }
    proof {
        lemma_follow_up_index(workspace.follow_ups@, follow_up_id, k as int);
    }
    if k == workspace.follow_ups.len() {
        return Err(missing("follow-up not found"));
    }
    if workspace.follow_ups[k].done_at.is_some() {
        return Ok(Vec::new());
    }
    let mut f = workspace.follow_ups.remove(k);
    f.done_at = Some(at);
    let ghost g = f;
    workspace.follow_ups.insert(k, f);
    proof {
        assert(workspace.follow_ups@ =~= old(workspace).follow_ups@.update(k as int, g));
    }
    let mut events: Vec<AuditEntry> = Vec::new();
    events.push(attested("follow_up.done", "follow_up:", follow_up_id));
    Ok(events)
}

} // verus!

verus! {

// ---------------------------------------------------------------------------
// Edits and attestations
// ---------------------------------------------------------------------------

/// `name` when `c` holds, else nothing.
pub open spec fn flag(c: bool, name: Seq<char>) -> Seq<Seq<char>> {
    if c {
        seq![name]
    } else {
        Seq::empty()
    }
}

/// Only the customers may have changed.
pub open spec fn only_customer_records(old: Workspace, new: Workspace) -> bool {
    &&& new.venture == old.venture
    &&& new.documents == old.documents
    &&& new.projects == old.projects
    &&& new.tasks == old.tasks
    &&& new.payments == old.payments
    &&& new.follow_ups == old.follow_ups
    &&& new.employees == old.employees
    &&& new.decisions == old.decisions
}

/// The fields a save changes, in the order they are compared.
pub open spec fn customer_changes(c: Customer, input: CustomerInput, notes: Seq<char>, jurisdiction: Seq<char>) -> Seq<
    Seq<char>,
> {
    flag(c.name@ != input.name@, "name"@) + flag(c.email@ != input.email@, "email"@) + flag(
        c.notes@ != input.notes@,
        "notes"@,
    ) + flag(c.discovery_notes@ != notes, "discovery_notes"@) + flag(
        input.stage matches Some(s) && s != c.stage,
        "stage"@,
    ) + flag(c.jurisdiction@ != jurisdiction, "jurisdiction"@) + flag(
        c.personal_data_consent != input.personal_data_consent,
        "personal_data_consent"@,
    )
}

/// A save of a customer is a complete statement of the record; a save that
/// changes nothing records nothing. Name, email and notes come cleaned; the
/// discovery notes and jurisdiction are cleaned here.
pub open spec fn customer_updated(
    old: Workspace,
    id: u128,
    input: CustomerInput,
    at: i64,
    new: Workspace,
    r: Result<Vec<AuditEntry>, WorkspaceError>,
) -> bool {
    match clean_body_spec(input.discovery_notes@) {
        Err(m) => refused_op(r, m) && new == old,
        Ok(notes) => match clean_jurisdiction_spec(input.jurisdiction@) {
            None => refused_op(r, "jurisdiction must be a 2–3 letter code"@) && new == old,
            Some(j) => {
                let k = customer_index(old.customers@, id);
                if k >= old.customers@.len() {
                    missing_op(r, "customer not found"@) && new == old
                } else {
                    let c = old.customers@[k];
                    let d = new.customers@[k];
                    let changed = customer_changes(c, input, notes, j);
                    if changed.len() == 0 {
                        (r matches Ok(events) && events@.len() == 0) && new == old
                    } else {
                        &&& r matches Ok(events)
                        &&& events@.len() == 1
                        &&& events@[0].action@ == "customer.update"@
                        &&& events@[0].resource@ == resource_of("customer:"@, id)
                        &&& events@[0].payload matches AuditPayload::FieldsChanged { changed: x } && string_views(x@)
                            == changed
                        &&& same_but(old.customers@, new.customers@, k)
                        &&& d.id == c.id && d.created_at == c.created_at
                        &&& d.name@ == input.name@ && d.email@ == input.email@ && d.notes@ == input.notes@
                            && d.discovery_notes@ == notes && d.jurisdiction@ == j && d.personal_data_consent
                            == input.personal_data_consent
                        &&& d.stage == match input.stage {
                            Some(s) => s,
                            None => c.stage,
                        }
                        &&& d.updated_at == at
                        &&& only_customer_records(old, new)
                    }
                }
            },
        },
    }
}

fn note_change(changed: &mut Vec<String>, c: bool, name: &str)
    ensures
        string_views(final(changed)@) == string_views(old(changed)@) + flag(c, name@),
{
    let ghost before = changed@;
    if c {
        changed.push(owned(name));
        assert(string_views(changed@) =~= string_views(before) + flag(c, name@));
    } else {
        assert(string_views(changed@) =~= string_views(before) + flag(c, name@));
    }
}

fn customer_change_list(c: &Customer, input: &CustomerInput, notes: &String, jurisdiction: &String) -> (r: Vec<String>)
    ensures
        string_views(r@) == customer_changes(*c, *input, notes@, jurisdiction@),
{
    let mut changed: Vec<String> = Vec::new();
    note_change(&mut changed, c.name != input.name, "name");
    note_change(&mut changed, c.email != input.email, "email");
    note_change(&mut changed, c.notes != input.notes, "notes");
    note_change(&mut changed, c.discovery_notes != *notes, "discovery_notes");
    let stage_changed = match input.stage {
        Some(s) => s != c.stage,
        None => false,
    };
    note_change(&mut changed, stage_changed, "stage");
    note_change(&mut changed, c.jurisdiction != *jurisdiction, "jurisdiction");
    note_change(&mut changed, c.personal_data_consent != input.personal_data_consent, "personal_data_consent");
    assert(string_views(changed@) =~= customer_changes(*c, *input, notes@, jurisdiction@));
    changed
}

/// Saves a customer at `at`, in memory.
#[verifier::rlimit(40)]
#[verifier::spinoff_prover]
pub fn update_customer(workspace: &mut Workspace, customer_id: u128, input: CustomerInput, at: i64) -> (r: Result<
    Vec<AuditEntry>,
    WorkspaceError,
>)
    ensures
        customer_updated(*old(workspace), customer_id, input, at, *final(workspace), r),
{
    let notes = match clean_body(input.discovery_notes.as_str()) {
        Ok(n) => n,
        Err(e) => {
            return Err(e);
        },
    };
    let jurisdiction = match clean_jurisdiction(input.jurisdiction.as_str()) {
        Ok(j) => j,
        Err(e) => {
            return Err(e);
        },
    };
    let k = match customer_at(&workspace.customers, customer_id) {
        Some(k) => k,
        None => {
            proof {
                lemma_customer_index(workspace.customers@, customer_id, workspace.customers@.len() as int);
            }
            return Err(missing("customer not found"));
        },
    };
    proof {
        lemma_customer_index(workspace.customers@, customer_id, k as int);
    }
    let changed = customer_change_list(&workspace.customers[k], &input, &notes, &jurisdiction);
    if changed.len() == 0 {
        return Ok(Vec::new());
    }
    let mut d = workspace.customers.remove(k);
    d.name = input.name;
    d.email = input.email;
    d.notes = input.notes;
    d.discovery_notes = notes;
    match input.stage {
        Some(s) => {
            d.stage = s;
        },
        None => {},
    }
    d.jurisdiction = jurisdiction;
    d.personal_data_consent = input.personal_data_consent;
    d.updated_at = at;
    let ghost e = d;
    workspace.customers.insert(k, d);
    proof {
        assert(workspace.customers@ =~= old(workspace).customers@.update(k as int, e));
    }
    let mut events: Vec<AuditEntry> = Vec::new();
    events.push(
        AuditEntry {
            action: owned("customer.update"),
            resource: resource("customer:", customer_id),
            payload: AuditPayload::FieldsChanged { changed },
        },
    );
    Ok(events)
}

/// Only the documents may have changed.
pub open spec fn only_documents(old: Workspace, new: Workspace) -> bool {
    &&& new.venture == old.venture
    &&& new.customers == old.customers
    &&& new.projects == old.projects
    &&& new.tasks == old.tasks
    &&& new.payments == old.payments
    &&& new.follow_ups == old.follow_ups
    &&& new.employees == old.employees
    &&& new.decisions == old.decisions
}

/// Editing a draft: anything past a draft is immutable, an invoice keeps an
/// amount, and an edit that changes nothing records nothing; a real edit
/// bumps the revision. The title comes cleaned; the body is cleaned here.
pub open spec fn document_updated(
    old: Workspace,
    id: u128,
    title: Seq<char>,
    body: Seq<char>,
    amount: Option<u64>,
    at: i64,
    new: Workspace,
    r: Result<Vec<AuditEntry>, WorkspaceError>,
) -> bool {
    match clean_body_spec(body) {
        Err(m) => refused_op(r, m) && new == old,
        Ok(b) => {
            let k = crate::crew_apply::document_index(old.documents@, id);
            if k >= old.documents@.len() {
                missing_op(r, "document not found"@) && new == old
            } else {
                let d = old.documents@[k];
                let e = new.documents@[k];
                let changed = flag(d.title@ != title, "title"@) + flag(d.body@ != b, "body"@) + flag(
                    d.amount_cents != amount,
                    "amount_cents"@,
                );
                if d.status != DocumentStatus::Draft {
                    refused_op(r, "only drafts can be edited"@) && new == old
                } else if d.kind == DocumentKind::Invoice && amount is None {
                    refused_op(r, "invoice needs an amount"@) && new == old
                } else if changed.len() == 0 {
                    (r matches Ok(events) && events@.len() == 0) && new == old
                } else {
                    &&& r matches Ok(events)
                    &&& events@.len() == 1
                    &&& events@[0].action@ == "document.update"@
                    &&& events@[0].resource@ == resource_of("document:"@, id)
                    &&& events@[0].payload matches AuditPayload::DocumentRevised { changed: x, revision }
                        && string_views(x@) == changed && revision == d.revision + 1
                    &&& same_but(old.documents@, new.documents@, k)
                    &&& e.id == d.id && e.kind == d.kind && e.customer_id == d.customer_id && e.status == d.status
                        && e.created_at == d.created_at && e.due_at == d.due_at && e.project_id == d.project_id
                        && e.accepted_at == d.accepted_at
                    &&& e.title@ == title && e.body@ == b && e.amount_cents == amount
                    &&& e.revision == d.revision + 1 && e.updated_at == at
                    &&& only_documents(old, new)
                }
            }
        },
    }
}

/// Edits a draft at `at`, in memory, under an already cleaned title.
pub fn update_document(
    workspace: &mut Workspace,
    document_id: u128,
    title: String,
    body: &str,
    amount_cents: Option<u64>,
    at: i64,
) -> (r: Result<Vec<AuditEntry>, WorkspaceError>)
    requires
        crate::crew_apply::document_index(old(workspace).documents@, document_id) < old(workspace).documents@.len()
            ==> old(workspace).documents@[crate::crew_apply::document_index(
            old(workspace).documents@,
            document_id,
        )].revision < u32::MAX,
    ensures
        document_updated(*old(workspace), document_id, title@, body@, amount_cents, at, *final(workspace), r),
{
    let b = match clean_body(body) {
        Ok(b) => b,
        Err(e) => {
            return Err(e);
        },
    };
    let k = match document_at(&workspace.documents, document_id) {
        Some(k) => k,
        None => {
            proof {
                crate::crew_apply::lemma_document_index(workspace.documents@, document_id, workspace.documents@.len() as int);
            }
            return Err(missing("document not found"));
        },
    };
    proof {
        crate::crew_apply::lemma_document_index(workspace.documents@, document_id, k as int);
    }
    let d = &workspace.documents[k];
    if d.status != DocumentStatus::Draft {
        return Err(refused("only drafts can be edited"));
    }
    if d.kind == DocumentKind::Invoice && amount_cents.is_none() {
        return Err(refused("invoice needs an amount"));
    }
    let mut changed: Vec<String> = Vec::new();
    note_change(&mut changed, d.title != title, "title");
    note_change(&mut changed, d.body != b, "body");
    note_change(&mut changed, d.amount_cents != amount_cents, "amount_cents");
    if changed.len() == 0 {
        return Ok(Vec::new());
    }
    let mut e = workspace.documents.remove(k);
    e.title = title;
    e.body = b;
    e.amount_cents = amount_cents;
    e.revision = e.revision + 1;
    e.updated_at = at;
    let revision = e.revision;
    let ghost f = e;
    workspace.documents.insert(k, e);
    proof {
        assert(workspace.documents@ =~= old(workspace).documents@.update(k as int, f));
    }
    let mut events: Vec<AuditEntry> = Vec::new();
    events.push(
        AuditEntry {
            action: owned("document.update"),
            resource: resource("document:", document_id),
            payload: AuditPayload::DocumentRevised { changed, revision },
        },
    );
    Ok(events)
}

/// Recording that the customer accepted a sent offer, once: the founder's
/// attestation, which makes a lead a customer.
pub open spec fn offer_accepted(old: Workspace, id: u128, at: i64, new: Workspace, r: Result<Vec<AuditEntry>, WorkspaceError>) -> bool {
    let k = crate::crew_apply::document_index(old.documents@, id);
    if k >= old.documents@.len() {
        missing_op(r, "document not found"@) && new == old
    } else {
        let d = old.documents@[k];
        let e = new.documents@[k];
        let ck = customer_index(old.customers@, d.customer_id);
        if d.kind != DocumentKind::Offer {
            refused_op(r, "only offers can be accepted"@) && new == old
        } else if !(d.status == DocumentStatus::ApprovedPendingDelivery || d.status == DocumentStatus::Delivered) {
            refused_op(r, "only a sent offer can be recorded as accepted"@) && new == old
        } else if d.accepted_at is Some {
            refused_op(r, "offer already accepted"@) && new == old
        } else if ck >= old.customers@.len() {
            missing_op(r, "customer not found"@) && new == old
        } else {
            let c = old.customers@[ck];
            let promoted = c.stage != CustomerStage::Customer;
            &&& r matches Ok(events)
            &&& events@.len() == if promoted {
                2int
            } else {
                1int
            }
            &&& events@[0].action@ == "offer.accepted"@
            &&& events@[0].resource@ == resource_of("document:"@, id)
            &&& events@[0].payload matches AuditPayload::Attested { by } && by@ == "founder"@
            &&& promoted ==> (events@[1].action@ == "customer.update"@ && events@[1].resource@ == resource_of(
                "customer:"@,
                d.customer_id,
            ) && (events@[1].payload matches AuditPayload::FieldsChanged { changed } && string_views(changed@)
                == seq!["stage"@]))
            &&& same_but(old.documents@, new.documents@, k)
            &&& e == (Document { accepted_at: Some(at), ..d })
            &&& (if promoted {
                same_but(old.customers@, new.customers@, ck) && new.customers@[ck] == (Customer {
                    stage: CustomerStage::Customer,
                    updated_at: at,
                    ..c
                })
            } else {
                new.customers == old.customers
            })
            &&& new.venture == old.venture
            &&& new.projects == old.projects
            &&& new.tasks == old.tasks
            &&& new.payments == old.payments
            &&& new.follow_ups == old.follow_ups
            &&& new.employees == old.employees
            &&& new.decisions == old.decisions
        }
    }
}

/// Records at `at`, in memory, that the customer accepted a sent offer.
pub fn record_offer_accepted(workspace: &mut Workspace, document_id: u128, at: i64) -> (r: Result<
    Vec<AuditEntry>,
    WorkspaceError,
>)
    ensures
        offer_accepted(*old(workspace), document_id, at, *final(workspace), r),
{
    let k = match document_at(&workspace.documents, document_id) {
        Some(k) => k,
        None => {
            proof {
                crate::crew_apply::lemma_document_index(workspace.documents@, document_id, workspace.documents@.len() as int);
            }
            return Err(missing("document not found"));
        },
    };
    proof {
        crate::crew_apply::lemma_document_index(workspace.documents@, document_id, k as int);
    }
    let d = &workspace.documents[k];
    if d.kind != DocumentKind::Offer {
        return Err(refused("only offers can be accepted"));
    }
    if !(d.status == DocumentStatus::ApprovedPendingDelivery || d.status == DocumentStatus::Delivered) {
        return Err(refused("only a sent offer can be recorded as accepted"));
    }
    if d.accepted_at.is_some() {
        return Err(refused("offer already accepted"));
    }
    let cid = d.customer_id;
    let ck = match customer_at(&workspace.customers, cid) {
        Some(ck) => ck,
        None => {
            proof {
                lemma_customer_index(workspace.customers@, cid, workspace.customers@.len() as int);
            }
            return Err(missing("customer not found"));
        },
    };
    proof {
        lemma_customer_index(workspace.customers@, cid, ck as int);
    }
    let mut e = workspace.documents.remove(k);
    e.accepted_at = Some(at);
    let ghost f = e;
    workspace.documents.insert(k, e);
    proof {
        assert(workspace.documents@ =~= old(workspace).documents@.update(k as int, f));
    }
    let mut events: Vec<AuditEntry> = Vec::new();
    events.push(attested("offer.accepted", "document:", document_id));
    if workspace.customers[ck].stage != CustomerStage::Customer {
        let mut c = workspace.customers.remove(ck);
        c.stage = CustomerStage::Customer;
        c.updated_at = at;
        let ghost g = c;
        workspace.customers.insert(ck, c);
        proof {
            assert(workspace.customers@ =~= old(workspace).customers@.update(ck as int, g));
        }
        let mut changed: Vec<String> = Vec::new();
        changed.push(owned("stage"));
        assert(string_views(changed@) =~= seq!["stage"@]);
        events.push(
            AuditEntry {
                action: owned("customer.update"),
                resource: resource("customer:", cid),
                payload: AuditPayload::FieldsChanged { changed },
            },
        );
    }
    Ok(events)
}

/// Replacing the company profile. Name, service and registration number
/// come cleaned; the jurisdiction and currency are cleaned here, and the
/// financial year ends in December unless another month is given.
pub open spec fn venture_updated(
    old: Workspace,
    input: VentureProfileInput,
    at: i64,
    new: Workspace,
    r: Result<Vec<AuditEntry>, WorkspaceError>,
) -> bool {
    let month = match input.fiscal_year_end_month {
        Some(m) => m,
        None => 12u8,
    };
    match clean_jurisdiction_spec(input.jurisdiction@) {
        None => refused_op(r, "jurisdiction must be a 2–3 letter code"@) && new == old,
        Some(j) => match clean_currency_spec(input.currency@) {
            None => refused_op(r, "currency must be a 3-letter code"@) && new == old,
            Some(cur) => if utf8_len_seq(input.uen@) > 32 {
                refused_op(r, "uen is too long"@) && new == old
            } else if !(1 <= month <= 12) {
                refused_op(r, "fiscal_year_end_month must be 1-12"@) && new == old
            } else {
                let v = new.venture->0;
                &&& r matches Ok(events)
                &&& events@.len() == 1
                &&& events@[0].action@ == "venture.update"@
                &&& events@[0].resource@ == "venture:profile"@
                &&& events@[0].payload matches AuditPayload::VentureUpdated { name, jurisdiction, gst_registered }
                    && name@ == input.name@ && jurisdiction@ == j && gst_registered == input.gst_registered
                &&& new.venture is Some
                &&& v.name@ == input.name@ && v.service@ == input.service@ && v.updated_at == at && v.jurisdiction@
                    == j && v.currency@ == cur && v.uen@ == input.uen@ && v.gst_registered == input.gst_registered
                    && v.incorporated_at == input.incorporated_at && v.fiscal_year_end_month == month
                    && v.revenue_estimate_cents == input.revenue_estimate_cents
                &&& new.customers == old.customers
                &&& new.documents == old.documents
                &&& new.projects == old.projects
                &&& new.tasks == old.tasks
                &&& new.payments == old.payments
                &&& new.follow_ups == old.follow_ups
                &&& new.employees == old.employees
                &&& new.decisions == old.decisions
            },
        },
    }
}

/// Replaces the company profile at `at`, in memory.
pub fn update_venture_profile(workspace: &mut Workspace, input: VentureProfileInput, at: i64) -> (r: Result<
    Vec<AuditEntry>,
    WorkspaceError,
>)
    ensures
        venture_updated(*old(workspace), input, at, *final(workspace), r),
{
    let jurisdiction = match clean_jurisdiction(input.jurisdiction.as_str()) {
        Ok(j) => j,
        Err(e) => {
            return Err(e);
        },
    };
    let currency = match clean_currency(input.currency.as_str()) {
        Ok(c) => c,
        Err(e) => {
            return Err(e);
        },
    };
    if utf8_len_exceeds(&chars_of(input.uen.as_str()), 32) {
        return Err(refused("uen is too long"));
    }
    let month = match input.fiscal_year_end_month {
        Some(m) => m,
        None => 12,
    };
    if !(1 <= month && month <= 12) {
        return Err(refused("fiscal_year_end_month must be 1-12"));
    }
    let name = copy_text(&input.name);
    let jurisdiction_copy = copy_text(&jurisdiction);
    workspace.venture = Some(
        Venture {
            name: input.name,
            service: input.service,
            updated_at: at,
            jurisdiction,
            currency,
            uen: input.uen,
            gst_registered: input.gst_registered,
            incorporated_at: input.incorporated_at,
            fiscal_year_end_month: month,
            revenue_estimate_cents: input.revenue_estimate_cents,
        },
    );
    let mut events: Vec<AuditEntry> = Vec::new();
    events.push(
        AuditEntry {
            action: owned("venture.update"),
            resource: owned("venture:profile"),
            payload: AuditPayload::VentureUpdated {
                name,
                jurisdiction: jurisdiction_copy,
                gst_registered: input.gst_registered,
            },
        },
    );
    Ok(events)
}

} // verus!

verus! {

// ---------------------------------------------------------------------------
// A customer's timeline
// ---------------------------------------------------------------------------

/// One signed event as the audit ledger holds it.
#[derive(Debug, Clone)]
pub struct LedgerEvent {
    pub at: i64,
    pub action: String,
    pub resource: String,
}

pub open spec fn pair_views(v: Seq<(String, String)>) -> Seq<(Seq<char>, Seq<char>)> {
    v.map_values(|p: (String, String)| (p.0@, p.1@))
}

pub open spec fn task_pick(project: u128) -> spec_fn(Task) -> Option<(Seq<char>, Seq<char>)> {
    |t: Task|
        if t.project_id == project {
            Some((resource_of("task:"@, t.id), t.title@))
        } else {
            None
        }
}

/// Each of the customer's projects, followed by its tasks.
pub open spec fn project_subjects(ps: Seq<Project>, ts: Seq<Task>, cid: u128) -> Seq<(Seq<char>, Seq<char>)>
    decreases ps.len(),
{
    if ps.len() == 0 {
        Seq::empty()
    } else {
        project_subjects(ps.drop_last(), ts, cid) + if ps.last().customer_id == cid {
            seq![(resource_of("project:"@, ps.last().id), ps.last().name@)] + ts.filter_map(task_pick(ps.last().id))
        } else {
            Seq::empty()
        }
    }
}

/// The records that belong to a customer, each as its resource and the
/// name it is shown under: the customer, their documents, their projects
/// with their tasks, and their follow-ups.
pub open spec fn subjects_of(ws: Workspace, cid: u128, name: Seq<char>) -> Seq<(Seq<char>, Seq<char>)> {
    seq![(resource_of("customer:"@, cid), name)] + ws.documents@.filter_map(
        |d: Document|
            if d.customer_id == cid {
                Some((resource_of("document:"@, d.id), d.title@))
            } else {
                None
            },
    ) + project_subjects(ws.projects@, ws.tasks@, cid) + ws.follow_ups@.filter_map(
        |f: FollowUp|
            if f.customer_id == cid {
                Some((resource_of("follow_up:"@, f.id), f.note@))
            } else {
                None
            },
    )
}

fn push_pair(out: &mut Vec<(String, String)>, a: String, b: &String)
    ensures
        pair_views(final(out)@) == pair_views(old(out)@).push((a@, b@)),
{
    let ghost before = out@;
    let ghost av = a@;
    out.push((a, copy_text(b)));
    assert(pair_views(out@) =~= pair_views(before).push((av, b@)));
}

fn task_subjects(ts: &Vec<Task>, project: u128, out: &mut Vec<(String, String)>)
    ensures
        pair_views(final(out)@) == pair_views(old(out)@) + ts@.filter_map(task_pick(project)),
{
    let ghost start = pair_views(out@);
    let ghost f = task_pick(project);
    let mut i: usize = 0;
    while i < ts.len()
        invariant
            i <= ts@.len(),
            f == task_pick(project),
            pair_views(out@) == start + ts@.take(i as int).filter_map(f),
        decreases ts@.len() - i,
    {
        assert(ts@.take(i + 1).drop_last() =~= ts@.take(i as int));
        assert(ts@.take(i + 1).last() == ts@[i as int]);
        if ts[i].project_id == project {
            push_pair(out, resource("task:", ts[i].id), &ts[i].title);
        }
        assert(pair_views(out@) =~= start + ts@.take(i + 1).filter_map(f));
        i += 1;
    }
    assert(ts@.take(i as int) =~= ts@);
}

/// The records of a customer, as resources and the names they are shown
/// under; an unknown customer has none.
pub fn timeline_subjects(workspace: &Workspace, customer_id: u128) -> (r: Result<Vec<(String, String)>, WorkspaceError>)
    ensures
        customer_index(workspace.customers@, customer_id) >= workspace.customers@.len() ==> (r matches Err(
            WorkspaceError::NotFound(m),
        ) && m@ == "customer not found"@),
        customer_index(workspace.customers@, customer_id) < workspace.customers@.len() ==> (r matches Ok(v)
            && pair_views(v@) == subjects_of(
            *workspace,
            customer_id,
            workspace.customers@[customer_index(workspace.customers@, customer_id)].name@,
        )),
{
    let k = match customer_at(&workspace.customers, customer_id) {
        Some(k) => k,
        None => {
            proof {
                lemma_customer_index(workspace.customers@, customer_id, workspace.customers@.len() as int);
            }
            return Err(missing("customer not found"));
        },
    };
    proof {
        lemma_customer_index(workspace.customers@, customer_id, k as int);
    }
    let mut out: Vec<(String, String)> = Vec::new();
    push_pair(&mut out, resource("customer:", customer_id), &workspace.customers[k].name);
    let ghost head = pair_views(out@);
    let ghost df = |d: Document|
        if d.customer_id == customer_id {
            Some((resource_of("document:"@, d.id), d.title@))
        } else {
            None
        };
    let mut i: usize = 0;
    while i < workspace.documents.len()
        invariant
            i <= workspace.documents@.len(),
            df == (|d: Document|
                if d.customer_id == customer_id {
                    Some((resource_of("document:"@, d.id), d.title@))
                } else {
                    None
                }),
            pair_views(out@) == head + workspace.documents@.take(i as int).filter_map(df),
        decreases workspace.documents@.len() - i,
    {
        let ghost ds = workspace.documents@;
        assert(ds.take(i + 1).drop_last() =~= ds.take(i as int));
        assert(ds.take(i + 1).last() == ds[i as int]);
        if workspace.documents[i].customer_id == customer_id {
            push_pair(&mut out, resource("document:", workspace.documents[i].id), &workspace.documents[i].title);
        }
        assert(pair_views(out@) =~= head + ds.take(i + 1).filter_map(df));
        i += 1;
    }
    assert(workspace.documents@.take(i as int) =~= workspace.documents@);
    let ghost mid = pair_views(out@);
    let mut j: usize = 0;
    while j < workspace.projects.len()
        invariant
            j <= workspace.projects@.len(),
            pair_views(out@) == mid + project_subjects(workspace.projects@.take(j as int), workspace.tasks@, customer_id),
        decreases workspace.projects@.len() - j,
    {
        let ghost ps = workspace.projects@;
        assert(ps.take(j + 1).drop_last() =~= ps.take(j as int));
        assert(ps.take(j + 1).last() == ps[j as int]);
        let p = &workspace.projects[j];
        if p.customer_id == customer_id {
            push_pair(&mut out, resource("project:", p.id), &p.name);
            task_subjects(&workspace.tasks, p.id, &mut out);
        }
        assert(pair_views(out@) =~= mid + project_subjects(ps.take(j + 1), workspace.tasks@, customer_id));
        j += 1;
    }
    assert(workspace.projects@.take(j as int) =~= workspace.projects@);
    let ghost late = pair_views(out@);
    let ghost ff = |f: FollowUp|
        if f.customer_id == customer_id {
            Some((resource_of("follow_up:"@, f.id), f.note@))
        } else {
            None
        };
    let mut n: usize = 0;
    while n < workspace.follow_ups.len()
        invariant
            n <= workspace.follow_ups@.len(),
            ff == (|f: FollowUp|
                if f.customer_id == customer_id {
                    Some((resource_of("follow_up:"@, f.id), f.note@))
                } else {
                    None
                }),
            pair_views(out@) == late + workspace.follow_ups@.take(n as int).filter_map(ff),
        decreases workspace.follow_ups@.len() - n,
    {
        let ghost fs = workspace.follow_ups@;
        assert(fs.take(n + 1).drop_last() =~= fs.take(n as int));
        assert(fs.take(n + 1).last() == fs[n as int]);
        if workspace.follow_ups[n].customer_id == customer_id {
            push_pair(&mut out, resource("follow_up:", workspace.follow_ups[n].id), &workspace.follow_ups[n].note);
        }
        assert(pair_views(out@) =~= late + fs.take(n + 1).filter_map(ff));
        n += 1;
    }
    assert(workspace.follow_ups@.take(n as int) =~= workspace.follow_ups@);
    Ok(out)
}

/// The name shown for a resource: the first subject's with it, or nothing.
pub open spec fn subject_for(subjects: Seq<(Seq<char>, Seq<char>)>, resource: Seq<char>) -> Option<Seq<char>>
    decreases subjects.len(),
{
    if subjects.len() == 0 {
        None
    } else if subjects[0].0 == resource {
        Some(subjects[0].1)
    } else {
        subject_for(subjects.drop_first(), resource)
    }
}

pub open spec fn timeline_view(t: TimelineEntry) -> (i64, Seq<char>, Seq<char>, Seq<char>) {
    (t.at, t.action@, t.resource@, t.subject@)
}

pub open spec fn timeline_views(v: Seq<TimelineEntry>) -> Seq<(i64, Seq<char>, Seq<char>, Seq<char>)> {
    v.map_values(|t: TimelineEntry| timeline_view(t))
}

pub open spec fn event_pick(subjects: Seq<(Seq<char>, Seq<char>)>) -> spec_fn(LedgerEvent) -> Option<
    (i64, Seq<char>, Seq<char>, Seq<char>),
> {
    |e: LedgerEvent|
        match subject_for(subjects, e.resource@) {
            Some(name) => Some((e.at, e.action@, e.resource@, name)),
            None => None,
        }
}

fn find_subject(subjects: &Vec<(String, String)>, resource: &String) -> (r: Option<usize>)
    ensures
        match subject_for(pair_views(subjects@), resource@) {
            Some(name) => r matches Some(i) && i < subjects@.len() && subjects@[i as int].1@ == name,
            None => r is None,
        },
{
    let mut i: usize = 0;
    assert(pair_views(subjects@).skip(0) =~= pair_views(subjects@));
    while i < subjects.len()
        invariant
            i <= subjects@.len(),
            subject_for(pair_views(subjects@).skip(i as int), resource@) == subject_for(pair_views(subjects@), resource@),
        decreases subjects@.len() - i,
    {
        assert(pair_views(subjects@).skip(i as int).drop_first() =~= pair_views(subjects@).skip(i + 1));
        if subjects[i].0 == *resource {
            return Some(i);
        }
        i += 1;
    }
    None
}

/// Every signed event that touched one of these records, oldest first as
/// the ledger holds them, with the name of the record it touched: the
/// timeline can only contain what was actually signed.
pub fn customer_timeline(events: &Vec<LedgerEvent>, subjects: &Vec<(String, String)>) -> (r: Vec<TimelineEntry>)
    ensures
        timeline_views(r@) == events@.filter_map(event_pick(pair_views(subjects@))),
{
    let ghost f = event_pick(pair_views(subjects@));
    let mut out: Vec<TimelineEntry> = Vec::new();
    let mut i: usize = 0;
    while i < events.len()
        invariant
            i <= events@.len(),
            f == event_pick(pair_views(subjects@)),
            timeline_views(out@) == events@.take(i as int).filter_map(f),
        decreases events@.len() - i,
    {
        assert(events@.take(i + 1).drop_last() =~= events@.take(i as int));
        assert(events@.take(i + 1).last() == events@[i as int]);
        let e = &events[i];
        match find_subject(subjects, &e.resource) {
            Some(k) => {
                let t = TimelineEntry {
                    at: e.at,
                    action: copy_text(&e.action),
                    resource: copy_text(&e.resource),
                    subject: copy_text(&subjects[k].1),
                };
                let ghost before = out@;
                out.push(t);
                assert(timeline_views(out@) =~= timeline_views(before).push(timeline_view(t)));
            },
            None => {},
        }
        assert(timeline_views(out@) =~= events@.take(i + 1).filter_map(f));
        i += 1;
    }
    assert(events@.take(i as int) =~= events@);
    out
}

} // verus!
