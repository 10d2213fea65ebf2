//! What an approved proposal does to the workspace: the exact change the
//! founder read is applied in memory, and the audit events that describe it
//! come back for the caller to commit with the decision.
use vstd::prelude::*;

use crate::calendar::{date_text, date_text_of, utc_date, utc_date_of};
use crate::compose::hex_width;
use crate::crew::{role_name, PlannedTask, RoleId};
use crate::crew_answer::copy_strings;
use crate::crew_draft::ProposedChange;
use crate::crew_input::{customer_at, document_at, find_document, project_at};
use crate::compliance::DAY_SECONDS;
use crate::erp::{Project, ProjectStatus, Task};
use crate::text::{
    chars_of, contains_str, has_sub, owned, push_chars, push_str, string_of, string_views, trim_back,
    trim_end, utf8_len_exceeds, utf8_len_seq,
};
use crate::types::{Customer, Document, DocumentKind, DocumentStatus, Workspace, WorkspaceError};

verus! {

/// The most documents a workspace holds.
pub const MAX_DOCUMENTS: usize = 2000;

/// The most bytes a stored free-text field holds.
pub const MAX_BODY_BYTES: usize = 32768;

/// The most projects a workspace holds.
pub const MAX_PROJECTS: usize = 500;

/// The most tasks a workspace holds.
pub const MAX_TASKS: usize = 5000;

/// What an audit event records besides its action and resource.
#[derive(Debug, Clone)]
pub enum AuditPayload {
    /// `{"changed": [field], "origin": origin}`.
    Changed { field: String, origin: String },
    /// A drafted offer or invoice.
    DocumentDraft { kind: String, title: String, customer: String, amount_cents: Option<u64>, origin: String },
    /// A project created from a delivery plan.
    ProjectCreate { name: String, customer_id: u128, origin: String },
    /// A task created from a delivery plan.
    TaskCreate { title: String, project_id: u128, origin: String },
    /// A decision the founder rejected, by the kind of its change.
    DecisionRejected { kind: String },
    /// A decision the founder approved, and what the approval touched.
    DecisionApproved { kind: String, outcome: String },
    /// A new employee.
    Hired { role: String, name: String },
    /// A paused employee hired again.
    Rehired { role: String },
    /// An employee's new status.
    StatusChanged { status: String },
    /// An employee ran: on which task, with which provider, and whether a
    /// real model's answer was used.
    EmployeeRan { role: String, task: String, provider: String, model_backed: bool, report_id: Option<u128> },
    /// A decision an employee proposed, by the kind of its change.
    DecisionProposed { role: String, kind: String },
    /// The device's privacy preset changed.
    PresetChanged { from: String, to: String },
    /// A record's fields the founder changed, by name.
    FieldsChanged { changed: Vec<String> },
    /// A draft's changed fields and its new revision.
    DocumentRevised { changed: Vec<String>, revision: u32 },
    /// A business fact the founder attests (`attested_by`).
    Attested { by: String },
    /// The company profile as saved.
    VentureUpdated { name: String, jurisdiction: String, gst_registered: bool },
    /// A project the founder opened.
    ProjectOpened { name: String, customer_id: u128 },
    /// A project's new status.
    ProjectStatusSet { status: String },
    /// A follow-up: whom, when, and who proposed it.
    FollowUpCreate { customer_id: u128, due_at: i64, origin: String },
    /// Money received, and the invoice's total received so far.
    PaymentRecorded { amount_cents: u64, paid_total_cents: u64 },
}

/// One event of the audit log.
#[derive(Debug, Clone)]
pub struct AuditEntry {
    pub action: String,
    pub resource: String,
    pub payload: AuditPayload,
}

// ---------------------------------------------------------------------------
// Identifiers and their text
// ---------------------------------------------------------------------------

/// The hyphenated text of an identifier: 8-4-4-4-12 lower-case hexadecimal
/// digits.
pub open spec fn uuid_text_of(id: u128) -> Seq<char> {
    let h = hex_width(id as nat, 32);
    h.subrange(0, 8) + seq!['-'] + h.subrange(8, 12) + seq!['-'] + h.subrange(12, 16) + seq!['-']
        + h.subrange(16, 20) + seq!['-'] + h.subrange(20, 32)
}

/// `uuid::Uuid`'s `Display`: the hyphenated lower-case form.
#[verifier::external_body]
fn uuid_text(id: u128) -> (r: String)
    ensures
        r@ == uuid_text_of(id),
{
    uuid::Uuid::from_u128(id).to_string()
}

/// `uuid::Uuid::new_v4`, as its 128-bit value. The identifier is random:
/// nothing is promised of it.
#[verifier::external_body]
pub(crate) fn new_id() -> (r: u128) {
    uuid::Uuid::new_v4().as_u128()
}

/// `prefix` followed by the identifier's text.
pub open spec fn resource_of(prefix: Seq<char>, id: u128) -> Seq<char> {
    prefix + uuid_text_of(id)
}

pub(crate) fn resource(prefix: &str, id: u128) -> (r: String)
    ensures
        r@ == resource_of(prefix@, id),
{
    let mut s = owned(prefix);
    let t = uuid_text(id);
    push_str(&mut s, t.as_str());
    s
}

/// Who proposed an applied change.
pub open spec fn origin_of(role: RoleId) -> Seq<char> {
    "employee:"@ + role_name(role)
}

fn origin(role: RoleId) -> (r: String)
    ensures
        r@ == origin_of(role),
{
    let mut s = owned("employee:");
    push_str(&mut s, role.as_str());
    s
}

pub(crate) fn copy_text(s: &String) -> (r: String)
    ensures
        r@ == s@,
{
    s.clone()
}

// ---------------------------------------------------------------------------
// Discovery summaries
// ---------------------------------------------------------------------------

/// One `- item` line per item.
pub open spec fn bullets(items: Seq<Seq<char>>) -> Seq<char>
    decreases items.len(),
{
    if items.len() == 0 {
        Seq::empty()
    } else {
        bullets(items.drop_last()) + "- "@ + items.last() + "\n"@
    }
}

/// A headed list; an empty list says so.
pub open spec fn heading_block(heading: Seq<char>, items: Seq<Seq<char>>) -> Seq<char> {
    heading + ":\n"@ + (if items.len() == 0 {
        "- (none)\n"@
    } else {
        Seq::empty()
    }) + bullets(items)
}

/// The UTC date of `at` as `YYYY-MM-DD`, or nothing when `chrono` has no
/// date for it.
pub open spec fn date_part(at: i64) -> Seq<char> {
    match utc_date_of(at as int) {
        Some(d) => date_text_of(d.year as int, d.month as int, d.day as int),
        None => Seq::empty(),
    }
}

/// The dated section a discovery summary appends to a customer's notes.
pub open spec fn discovery_text(
    at: i64,
    problems: Seq<Seq<char>>,
    constraints: Seq<Seq<char>>,
    budget: Seq<char>,
    open_questions: Seq<Seq<char>>,
    assumptions: Seq<Seq<char>>,
) -> Seq<char> {
    "\n\n--- Discovery summary (AI Analyst, "@ + date_part(at) + ") ---\n"@ + heading_block(
        "Problems"@,
        problems,
    ) + heading_block("Constraints"@, constraints) + heading_block("Open questions"@, open_questions)
        + heading_block("Assumptions"@, assumptions) + "Budget: "@ + budget + "\n"@
}

fn push_bullets(out: &mut String, items: &Vec<String>)
    ensures
        final(out)@ == old(out)@ + bullets(string_views(items@)),
{
    let ghost start = out@;
    let mut i: usize = 0;
    while i < items.len()
        invariant
            i <= items.len(),
            out@ == start + bullets(string_views(items@).take(i as int)),
        decreases items.len() - i,
    {
        push_str(out, "- ");
        push_str(out, items[i].as_str());
        push_str(out, "\n");
        proof {
            let v = string_views(items@);
            assert(v.take(i + 1).drop_last() =~= v.take(i as int));
            assert(v.take(i + 1).last() == items@[i as int]@);
        }
        i += 1;
        proof {
            let v = string_views(items@);
            assert(out@ =~= start + bullets(v.take(i as int)));
        }
    }
    assert(string_views(items@).take(i as int) =~= string_views(items@));
}

fn push_block(out: &mut String, heading: &str, items: &Vec<String>)
    ensures
        final(out)@ == old(out)@ + heading_block(heading@, string_views(items@)),
{
    let ghost start = out@;
    push_str(out, heading);
    push_str(out, ":\n");
    if items.len() == 0 {
        push_str(out, "- (none)\n");
    }
    push_bullets(out, items);
    assert(out@ =~= start + heading_block(heading@, string_views(items@)));
}

fn discovery_section(
    at: i64,
    problems: &Vec<String>,
    constraints: &Vec<String>,
    budget: &String,
    open_questions: &Vec<String>,
    assumptions: &Vec<String>,
) -> (r: String)
    ensures
        r@ == discovery_text(
            at,
            string_views(problems@),
            string_views(constraints@),
            budget@,
            string_views(open_questions@),
            string_views(assumptions@),
        ),
{
    let date = match utc_date(at) {
        Some(d) => date_text(d),
        None => String::new(),
    };
    let mut s = owned("\n\n--- Discovery summary (AI Analyst, ");
    push_str(&mut s, date.as_str());
    push_str(&mut s, ") ---\n");
    push_block(&mut s, "Problems", problems);
    push_block(&mut s, "Constraints", constraints);
    push_block(&mut s, "Open questions", open_questions);
    push_block(&mut s, "Assumptions", assumptions);
    push_str(&mut s, "Budget: ");
    push_str(&mut s, budget.as_str());
    push_str(&mut s, "\n");
    assert(s@ =~= discovery_text(
        at,
        string_views(problems@),
        string_views(constraints@),
        budget@,
        string_views(open_questions@),
        string_views(assumptions@),
    ));
    s
}

// ---------------------------------------------------------------------------
// Finding what a change names
// ---------------------------------------------------------------------------

/// Where the first customer with this id stands; the length when none does.
pub open spec fn customer_index(cs: Seq<Customer>, id: u128) -> int
    decreases cs.len(),
{
    if cs.len() == 0 {
        0
    } else if cs[0].id == id {
        0
    } else {
        1 + customer_index(cs.drop_first(), id)
    }
}

/// Where the first project with this id stands; the length when none does.
pub open spec fn project_index(ps: Seq<Project>, id: u128) -> int
    decreases ps.len(),
{
    if ps.len() == 0 {
        0
    } else if ps[0].id == id {
        0
    } else {
        1 + project_index(ps.drop_first(), id)
    }
}

pub(crate) proof fn lemma_customer_index(cs: Seq<Customer>, id: u128, i: int)
    requires
        0 <= i <= cs.len(),
        i < cs.len() ==> cs[i].id == id,
        forall|j: int| 0 <= j < i ==> cs[j].id != id,
    ensures
        customer_index(cs, id) == i,
    decreases i,
{
    if i > 0 {
        assert(cs[0].id != id);
        lemma_customer_index(cs.drop_first(), id, i - 1);
    } else if cs.len() > 0 {
        assert(cs[0].id == id);
    }
}

/// Where the first document with this id stands; the length when none does.
pub open spec fn document_index(ds: Seq<Document>, id: u128) -> int
    decreases ds.len(),
{
    if ds.len() == 0 {
        0
    } else if ds[0].id == id {
        0
    } else {
        1 + document_index(ds.drop_first(), id)
    }
}

pub(crate) proof fn lemma_document_index(ds: Seq<Document>, id: u128, i: int)
    requires
        0 <= i <= ds.len(),
        i < ds.len() ==> ds[i].id == id,
        forall|j: int| 0 <= j < i ==> ds[j].id != id,
    ensures
        document_index(ds, id) == i,
    decreases i,
{
    if i > 0 {
        assert(ds[0].id != id);
        lemma_document_index(ds.drop_first(), id, i - 1);
    } else if ds.len() > 0 {
        assert(ds[0].id == id);
    }
}

pub(crate) proof fn lemma_project_index(ps: Seq<Project>, id: u128, i: int)
    requires
        0 <= i <= ps.len(),
        i < ps.len() ==> ps[i].id == id,
        forall|j: int| 0 <= j < i ==> ps[j].id != id,
    ensures
        project_index(ps, id) == i,
    decreases i,
{
    if i > 0 {
        assert(ps[0].id != id);
        lemma_project_index(ps.drop_first(), id, i - 1);
    } else if ps.len() > 0 {
        assert(ps[0].id == id);
    }
}

/// `new` is `old` but for the element at `k`.
pub open spec fn same_but<T>(old: Seq<T>, new: Seq<T>, k: int) -> bool {
    &&& new.len() == old.len()
    &&& forall|i: int| 0 <= i < old.len() && i != k ==> new[i] == old[i]
}

pub open spec fn missing_with(r: Result<(Vec<AuditEntry>, String), WorkspaceError>, m: Seq<char>) -> bool {
    r matches Err(WorkspaceError::NotFound(x)) && x@ == m
}

pub open spec fn refused_with(r: Result<(Vec<AuditEntry>, String), WorkspaceError>, m: Seq<char>) -> bool {
    r matches Err(WorkspaceError::Invalid(x)) && x@ == m
}

pub(crate) fn missing(m: &str) -> (e: WorkspaceError)
    ensures
        e matches WorkspaceError::NotFound(x) && x@ == m@,
{
    WorkspaceError::NotFound(owned(m))
}

pub(crate) fn refused(m: &str) -> (e: WorkspaceError)
    ensures
        e matches WorkspaceError::Invalid(x) && x@ == m@,
{
    WorkspaceError::Invalid(owned(m))
}

/// An event recording that one field of a resource changed.
pub open spec fn changed_event(e: AuditEntry, action: Seq<char>, resource: Seq<char>, field: Seq<char>, role: RoleId) -> bool {
    &&& e.action@ == action
    &&& e.resource@ == resource
    &&& e.payload matches AuditPayload::Changed { field: f, origin: o } && f@ == field && o@ == origin_of(role)
}

fn changed_entry(action: &str, target: &String, field: &str, role: RoleId) -> (e: AuditEntry)
    ensures
        changed_event(e, action@, target@, field@, role),
{
    AuditEntry {
        action: owned(action),
        resource: copy_text(target),
        payload: AuditPayload::Changed { field: owned(field), origin: origin(role) },
    }
}

// ---------------------------------------------------------------------------
// Applying a discovery summary
// ---------------------------------------------------------------------------

/// `new` is the customer `old` with new discovery notes, stamped `at`.
pub open spec fn noted(old: Customer, new: Customer, notes: Seq<char>, at: i64) -> bool {
    &&& new.id == old.id
    &&& new.name == old.name
    &&& new.email == old.email
    &&& new.notes == old.notes
    &&& new.created_at == old.created_at
    &&& new.stage == old.stage
    &&& new.jurisdiction == old.jurisdiction
    &&& new.personal_data_consent == old.personal_data_consent
    &&& new.discovery_notes@ == notes
    &&& new.updated_at == at
}

/// Only the customers may have changed.
pub open spec fn only_customers(old: Workspace, new: Workspace) -> bool {
    &&& new.venture == old.venture
    &&& new.documents == old.documents
    &&& new.projects == old.projects
    &&& new.tasks == old.tasks
    &&& new.payments == old.payments
    &&& new.follow_ups == old.follow_ups
}

/// A discovery summary appends its section to the customer's notes, with
/// their trailing whitespace removed, unless the notes would outgrow the
/// size limit.
pub open spec fn discovery_applied(
    old: Workspace,
    cid: u128,
    section: Seq<char>,
    role: RoleId,
    at: i64,
    new: Workspace,
    r: Result<(Vec<AuditEntry>, String), WorkspaceError>,
) -> bool {
    let k = customer_index(old.customers@, cid);
    if k >= old.customers@.len() {
        missing_with(r, "customer not found"@) && new == old
    } else {
        let notes = trim_back(old.customers@[k].discovery_notes@) + section;
        if utf8_len_seq(notes) > MAX_BODY_BYTES {
            refused_with(r, "discovery notes would exceed the size limit"@) && new == old
        } else {
            &&& r matches Ok((events, target))
            &&& target@ == resource_of("customer:"@, cid)
            &&& events@.len() == 1
            &&& changed_event(events@[0], "customer.update"@, target@, "discovery_notes"@, role)
            &&& same_but(old.customers@, new.customers@, k)
            &&& noted(old.customers@[k], new.customers@[k], notes, at)
            &&& only_customers(old, new)
        }
    }
}

fn apply_discovery(ws: &mut Workspace, cid: u128, section: &String, role: RoleId, at: i64) -> (r: Result<
    (Vec<AuditEntry>, String),
    WorkspaceError,
>)
    ensures
        discovery_applied(*old(ws), cid, section@, role, at, *final(ws), r),
        final(ws).employees == old(ws).employees,
        final(ws).decisions == old(ws).decisions,
{
    let k = match customer_at(&ws.customers, cid) {
        Some(k) => k,
        None => {
            proof {
                lemma_customer_index(ws.customers@, cid, ws.customers@.len() as int);
            }
            return Err(missing("customer not found"));
        },
    };
    proof {
        lemma_customer_index(ws.customers@, cid, k as int);
    }
    let notes = chars_of(ws.customers[k].discovery_notes.as_str());
    let mut combined = trim_end(&notes);
    let sec = chars_of(section.as_str());
    push_chars(&mut combined, &sec);
    if utf8_len_exceeds(&combined, MAX_BODY_BYTES) {
        return Err(refused("discovery notes would exceed the size limit"));
    }
    let mut c = ws.customers.remove(k);
    c.discovery_notes = string_of(&combined);
    c.updated_at = at;
    let ghost updated = c;
    ws.customers.insert(k, c);
    proof {
        assert(ws.customers@ =~= old(ws).customers@.update(k as int, updated));
    }
    let target = resource("customer:", cid);
    let entry = changed_entry("customer.update", &target, "discovery_notes", role);
    let mut events: Vec<AuditEntry> = Vec::new();
    events.push(entry);
    Ok((events, target))
}

// ---------------------------------------------------------------------------
// Drafting offers and invoices
// ---------------------------------------------------------------------------

/// An offer's body: the assumptions are listed under their own heading
/// unless the body already speaks of them.
pub open spec fn offer_body(body: Seq<char>, assumptions: Seq<Seq<char>>) -> Seq<char> {
    if assumptions.len() > 0 && !has_sub(body, "Assumptions"@) && !has_sub(body, "假设"@) {
        body + "\n\nAssumptions\n"@ + bullets(assumptions)
    } else {
        body
    }
}

/// `d` is a fresh draft with these facts, created and updated at `at`.
pub open spec fn drafted(
    d: Document,
    id: u128,
    kind: DocumentKind,
    cid: u128,
    title: Seq<char>,
    body: Seq<char>,
    amount: Option<u64>,
    due: Option<i64>,
    project: Option<u128>,
    at: i64,
) -> bool {
    &&& d.id == id
    &&& d.kind == kind
    &&& d.customer_id == cid
    &&& d.title@ == title
    &&& d.body@ == body
    &&& d.amount_cents == amount
    &&& d.status == DocumentStatus::Draft
    &&& d.created_at == at
    &&& d.updated_at == at
    &&& d.revision == 1
    &&& d.due_at == due
    &&& d.project_id == project
    &&& d.accepted_at is None
}

/// The event recording a drafted document.
pub open spec fn draft_event(
    e: AuditEntry,
    id: u128,
    kind: Seq<char>,
    title: Seq<char>,
    customer: Seq<char>,
    amount: Option<u64>,
    role: RoleId,
) -> bool {
    &&& e.action@ == "document.draft"@
    &&& e.resource@ == resource_of("document:"@, id)
    &&& e.payload matches AuditPayload::DocumentDraft { kind: k, title: t, customer: c, amount_cents: a, origin: o }
        && k@ == kind && t@ == title && c@ == customer && a == amount && o@ == origin_of(role)
}

/// One document was added at the end, and nothing else changed.
pub open spec fn one_more_document(old: Workspace, new: Workspace) -> bool {
    &&& new.documents@.len() == old.documents@.len() + 1
    &&& new.documents@.drop_last() == old.documents@
    &&& new.venture == old.venture
    &&& new.customers == old.customers
    &&& new.projects == old.projects
    &&& new.tasks == old.tasks
    &&& new.payments == old.payments
    &&& new.follow_ups == old.follow_ups
}

pub open spec fn offer_applied(
    old: Workspace,
    cid: u128,
    title: Seq<char>,
    body: Seq<char>,
    amount: Option<u64>,
    assumptions: Seq<Seq<char>>,
    role: RoleId,
    at: i64,
    id: u128,
    new: Workspace,
    r: Result<(Vec<AuditEntry>, String), WorkspaceError>,
) -> bool {
    let k = customer_index(old.customers@, cid);
    if k >= old.customers@.len() {
        missing_with(r, "customer not found"@) && new == old
    } else if old.documents@.len() >= MAX_DOCUMENTS {
        refused_with(r, "document limit reached"@) && new == old
    } else {
        &&& r matches Ok((events, target))
        &&& target@ == resource_of("document:"@, id)
        &&& events@.len() == 1
        &&& draft_event(events@[0], id, "offer"@, title, old.customers@[k].name@, amount, role)
        &&& one_more_document(old, new)
        &&& drafted(
            new.documents@.last(),
            id,
            DocumentKind::Offer,
            cid,
            title,
            offer_body(body, assumptions),
            amount,
            None,
            None,
            at,
        )
    }
}

fn full_offer_body(body: &String, assumptions: &Vec<String>) -> (r: String)
    ensures
        r@ == offer_body(body@, string_views(assumptions@)),
{
    let mut full = copy_text(body);
    let v = chars_of(body.as_str());
    if assumptions.len() > 0 && !contains_str(&v, "Assumptions") && !contains_str(&v, "假设") {
        push_str(&mut full, "\n\nAssumptions\n");
        push_bullets(&mut full, assumptions);
    }
    full
}

fn draft_entry(id: u128, kind: &str, title: &String, customer: &String, amount: Option<u64>, role: RoleId) -> (e: AuditEntry)
    ensures
        draft_event(e, id, kind@, title@, customer@, amount, role),
{
    AuditEntry {
        action: owned("document.draft"),
        resource: resource("document:", id),
        payload: AuditPayload::DocumentDraft {
            kind: owned(kind),
            title: copy_text(title),
            customer: copy_text(customer),
            amount_cents: amount,
            origin: origin(role),
        },
    }
}

fn apply_offer(
    ws: &mut Workspace,
    cid: u128,
    title: &String,
    body: &String,
    amount: Option<u64>,
    assumptions: &Vec<String>,
    role: RoleId,
    at: i64,
    id: u128,
) -> (r: Result<(Vec<AuditEntry>, String), WorkspaceError>)
    ensures
        offer_applied(*old(ws), cid, title@, body@, amount, string_views(assumptions@), role, at, id, *final(ws), r),
        final(ws).employees == old(ws).employees,
        final(ws).decisions == old(ws).decisions,
{
    let k = match customer_at(&ws.customers, cid) {
        Some(k) => k,
        None => {
            proof {
                lemma_customer_index(ws.customers@, cid, ws.customers@.len() as int);
            }
            return Err(missing("customer not found"));
        },
    };
    proof {
        lemma_customer_index(ws.customers@, cid, k as int);
    }
    let customer_name = copy_text(&ws.customers[k].name);
    if ws.documents.len() >= MAX_DOCUMENTS {
        return Err(refused("document limit reached"));
    }
    let document = Document {
        id,
        kind: DocumentKind::Offer,
        customer_id: cid,
        title: copy_text(title),
        body: full_offer_body(body, assumptions),
        amount_cents: amount,
        status: DocumentStatus::Draft,
        created_at: at,
        updated_at: at,
        revision: 1,
        due_at: None,
        project_id: None,
        accepted_at: None,
    };
    ws.documents.push(document);
    proof {
        assert(ws.documents@.drop_last() =~= old(ws).documents@);
    }
    let entry = draft_entry(id, "offer", title, &customer_name, amount, role);
    let mut events: Vec<AuditEntry> = Vec::new();
    events.push(entry);
    Ok((events, resource("document:", id)))
}

pub open spec fn invoice_applied(
    old: Workspace,
    cid: u128,
    project: Option<u128>,
    title: Seq<char>,
    body: Seq<char>,
    amount: u64,
    due_in_days: u32,
    role: RoleId,
    at: i64,
    id: u128,
    new: Workspace,
    r: Result<(Vec<AuditEntry>, String), WorkspaceError>,
) -> bool {
    let k = customer_index(old.customers@, cid);
    if k >= old.customers@.len() {
        missing_with(r, "customer not found"@) && new == old
    } else if project is Some && project_index(old.projects@, project->0) >= old.projects@.len() {
        missing_with(r, "project not found"@) && new == old
    } else if project is Some && old.projects@[project_index(old.projects@, project->0)].customer_id != cid {
        refused_with(r, "project does not belong to this customer"@) && new == old
    } else if old.documents@.len() >= MAX_DOCUMENTS {
        refused_with(r, "document limit reached"@) && new == old
    } else {
        &&& r matches Ok((events, target))
        &&& target@ == resource_of("document:"@, id)
        &&& events@.len() == 1
        &&& draft_event(events@[0], id, "invoice"@, title, old.customers@[k].name@, Some(amount), role)
        &&& one_more_document(old, new)
        &&& drafted(
            new.documents@.last(),
            id,
            DocumentKind::Invoice,
            cid,
            title,
            body,
            Some(amount),
            Some((at + due_in_days * DAY_SECONDS) as i64),
            project,
            at,
        )
    }
}

fn apply_invoice(
    ws: &mut Workspace,
    cid: u128,
    project: Option<u128>,
    title: &String,
    body: &String,
    amount: u64,
    due_in_days: u32,
    role: RoleId,
    at: i64,
    id: u128,
) -> (r: Result<(Vec<AuditEntry>, String), WorkspaceError>)
    requires
        at + due_in_days * DAY_SECONDS <= i64::MAX,
    ensures
        invoice_applied(*old(ws), cid, project, title@, body@, amount, due_in_days, role, at, id, *final(ws), r),
        final(ws).employees == old(ws).employees,
        final(ws).decisions == old(ws).decisions,
{
    let k = match customer_at(&ws.customers, cid) {
        Some(k) => k,
        None => {
            proof {
                lemma_customer_index(ws.customers@, cid, ws.customers@.len() as int);
            }
            return Err(missing("customer not found"));
        },
    };
    proof {
        lemma_customer_index(ws.customers@, cid, k as int);
    }
    let customer_name = copy_text(&ws.customers[k].name);
    if let Some(p) = project {
        match project_at(&ws.projects, p) {
            Some(pk) => {
                proof {
                    lemma_project_index(ws.projects@, p, pk as int);
                }
                if ws.projects[pk].customer_id != cid {
                    return Err(refused("project does not belong to this customer"));
                }
            },
            None => {
                proof {
                    lemma_project_index(ws.projects@, p, ws.projects@.len() as int);
                }
                return Err(missing("project not found"));
            },
        }
    }
    if ws.documents.len() >= MAX_DOCUMENTS {
        return Err(refused("document limit reached"));
    }
    let due = at + (due_in_days as i64) * DAY_SECONDS;
    let document = Document {
        id,
        kind: DocumentKind::Invoice,
        customer_id: cid,
        title: copy_text(title),
        body: copy_text(body),
        amount_cents: Some(amount),
        status: DocumentStatus::Draft,
        created_at: at,
        updated_at: at,
        revision: 1,
        due_at: Some(due),
        project_id: project,
        accepted_at: None,
    };
    ws.documents.push(document);
    proof {
        assert(ws.documents@.drop_last() =~= old(ws).documents@);
    }
    let entry = draft_entry(id, "invoice", title, &customer_name, Some(amount), role);
    let mut events: Vec<AuditEntry> = Vec::new();
    events.push(entry);
    Ok((events, resource("document:", id)))
}

// ---------------------------------------------------------------------------
// Delivery plans
// ---------------------------------------------------------------------------

/// The criteria after adding each of `add` in turn, skipping any already
/// there.
pub open spec fn merged(have: Seq<Seq<char>>, add: Seq<Seq<char>>) -> Seq<Seq<char>>
    decreases add.len(),
{
    if add.len() == 0 {
        have
    } else {
        let prev = merged(have, add.drop_last());
        if prev.contains(add.last()) {
            prev
        } else {
            prev.push(add.last())
        }
    }
}

/// `new` is project `old` holding `criteria`, stamped `at` when they grew.
pub open spec fn criteria_added(old: Project, new: Project, criteria: Seq<Seq<char>>, at: i64) -> bool {
    &&& new.id == old.id
    &&& new.customer_id == old.customer_id
    &&& new.offer_id == old.offer_id
    &&& new.name == old.name
    &&& new.status == old.status
    &&& new.budget_cents == old.budget_cents
    &&& new.created_at == old.created_at
    &&& new.done_at == old.done_at
    &&& string_views(new.acceptance_criteria@) == criteria
    &&& new.updated_at == (if criteria.len() > old.acceptance_criteria@.len() {
        at
    } else {
        old.updated_at
    })
}

/// The budget of a plan's new project: the stored amount of the offer it
/// delivers, when there is one.
pub open spec fn offer_budget(ds: Seq<Document>, offer: Option<u128>) -> Option<u64> {
    match offer {
        Some(o) => match find_document(ds, o) {
            Some(d) => d.amount_cents,
            None => None,
        },
        None => None,
    }
}

/// `p` is the active project a plan creates.
pub open spec fn planned_project(
    p: Project,
    id: u128,
    cid: u128,
    offer: Option<u128>,
    name: Seq<char>,
    budget: Option<u64>,
    criteria: Seq<Seq<char>>,
    at: i64,
) -> bool {
    &&& p.id == id
    &&& p.customer_id == cid
    &&& p.offer_id == offer
    &&& p.name@ == name
    &&& p.status == ProjectStatus::Active
    &&& p.budget_cents == budget
    &&& p.created_at == at
    &&& p.updated_at == at
    &&& p.done_at is None
    &&& string_views(p.acceptance_criteria@) == criteria
}

/// The event recording a project a plan created.
pub open spec fn project_event(e: AuditEntry, id: u128, name: Seq<char>, cid: u128, role: RoleId) -> bool {
    &&& e.action@ == "project.create"@
    &&& e.resource@ == resource_of("project:"@, id)
    &&& e.payload matches AuditPayload::ProjectCreate { name: n, customer_id: c, origin: o } && n@ == name && c == cid
        && o@ == origin_of(role)
}

/// `t` is the open task a planned one becomes, due its days after `at`.
pub open spec fn planned_task(t: Task, id: u128, pid: u128, p: PlannedTask, at: i64, role: RoleId) -> bool {
    &&& t.id == id
    &&& t.project_id == pid
    &&& t.title@ == p.title@
    &&& t.due_at == Some((at + p.due_in_days * DAY_SECONDS) as i64)
    &&& t.done_at is None
    &&& t.created_at == at
    &&& t.origin@ == origin_of(role)
}

/// The event recording a task a plan created.
pub open spec fn task_event(e: AuditEntry, id: u128, title: Seq<char>, pid: u128, role: RoleId) -> bool {
    &&& e.action@ == "task.create"@
    &&& e.resource@ == resource_of("task:"@, id)
    &&& e.payload matches AuditPayload::TaskCreate { title: t, project_id: p, origin: o } && t@ == title && p == pid
        && o@ == origin_of(role)
}

/// Every planned task is due at a time an `i64` holds.
pub open spec fn dues_fit(tasks: Seq<PlannedTask>, at: i64) -> bool {
    forall|i: int| 0 <= i < tasks.len() ==> at + #[trigger] tasks[i].due_in_days * DAY_SECONDS <= i64::MAX
}

fn contains_text(v: &Vec<String>, s: &String) -> (r: bool)
    ensures
        r == string_views(v@).contains(s@),
{
    let mut j: usize = 0;
    while j < v.len()
        invariant
            j <= v.len(),
            forall|i: int| 0 <= i < j ==> v@[i]@ != s@,
        decreases v.len() - j,
    {
        if v[j] == *s {
            assert(string_views(v@)[j as int] == s@);
            return true;
        }
        j += 1;
    }
    proof {
        if string_views(v@).contains(s@) {
            let i = choose|i: int| 0 <= i < string_views(v@).len() && string_views(v@)[i] == s@;
            assert(v@[i]@ == s@);
        }
    }
    false
}

fn merge_criteria(have: &mut Vec<String>, add: &Vec<String>) -> (added: bool)
    ensures
        string_views(final(have)@) == merged(string_views(old(have)@), string_views(add@)),
        added == (final(have)@.len() > old(have)@.len()),
{
    let ghost start = string_views(have@);
    let mut added = false;
    let mut i: usize = 0;
    while i < add.len()
        invariant
            i <= add.len(),
            start == string_views(old(have)@),
            string_views(have@) == merged(start, string_views(add@).take(i as int)),
            have@.len() >= old(have)@.len(),
            added == (have@.len() > old(have)@.len()),
        decreases add.len() - i,
    {
        proof {
            let a = string_views(add@);
            assert(a.take(i + 1).drop_last() =~= a.take(i as int));
            assert(a.take(i + 1).last() == add@[i as int]@);
        }
        if !contains_text(have, &add[i]) {
            let ghost before = have@;
            have.push(copy_text(&add[i]));
            assert(string_views(have@) =~= string_views(before).push(add@[i as int]@));
            added = true;
        }
        i += 1;
    }
    assert(string_views(add@).take(i as int) =~= string_views(add@));
    added
}

fn task_entry(id: u128, title: &String, pid: u128, role: RoleId) -> (e: AuditEntry)
    ensures
        task_event(e, id, title@, pid, role),
{
    AuditEntry {
        action: owned("task.create"),
        resource: resource("task:", id),
        payload: AuditPayload::TaskCreate { title: copy_text(title), project_id: pid, origin: origin(role) },
    }
}

/// Appends one task, and its event, per planned task.
fn add_tasks(
    ws: &mut Workspace,
    events: &mut Vec<AuditEntry>,
    tasks: &Vec<PlannedTask>,
    pid: u128,
    fresh: &Vec<u128>,
    first: usize,
    role: RoleId,
    at: i64,
)
    requires
        first + tasks@.len() <= fresh@.len(),
        dues_fit(tasks@, at),
    ensures
        final(ws).tasks@.len() == old(ws).tasks@.len() + tasks@.len(),
        final(ws).tasks@.take(old(ws).tasks@.len() as int) == old(ws).tasks@,
        forall|i: int|
            0 <= i < tasks@.len() ==> planned_task(
                #[trigger] final(ws).tasks@[old(ws).tasks@.len() + i],
                fresh@[first + i],
                pid,
                tasks@[i],
                at,
                role,
            ),
        final(events)@.len() == old(events)@.len() + tasks@.len(),
        final(events)@.take(old(events)@.len() as int) == old(events)@,
        forall|i: int|
            0 <= i < tasks@.len() ==> task_event(
                #[trigger] final(events)@[old(events)@.len() + i],
                fresh@[first + i],
                tasks@[i].title@,
                pid,
                role,
            ),
        final(ws).venture == old(ws).venture,
        final(ws).customers == old(ws).customers,
        final(ws).documents == old(ws).documents,
        final(ws).projects == old(ws).projects,
        final(ws).payments == old(ws).payments,
        final(ws).follow_ups == old(ws).follow_ups,
        final(ws).employees == old(ws).employees,
        final(ws).decisions == old(ws).decisions,
{
    let ghost w0 = *ws;
    let ghost e0 = events@;
    let mut i: usize = 0;
    while i < tasks.len()
        invariant
            i <= tasks@.len(),
            first + tasks@.len() <= fresh@.len(),
            dues_fit(tasks@, at),
            w0 == *old(ws),
            e0 == old(events)@,
            ws.tasks@.len() == w0.tasks@.len() + i,
            ws.tasks@.take(w0.tasks@.len() as int) == w0.tasks@,
            forall|j: int|
                0 <= j < i ==> planned_task(
                    #[trigger] ws.tasks@[w0.tasks@.len() + j],
                    fresh@[first + j],
                    pid,
                    tasks@[j],
                    at,
                    role,
                ),
            events@.len() == e0.len() + i,
            events@.take(e0.len() as int) == e0,
            forall|j: int|
                0 <= j < i ==> task_event(
                    #[trigger] events@[e0.len() + j],
                    fresh@[first + j],
                    tasks@[j].title@,
                    pid,
                    role,
                ),
            ws.venture == w0.venture,
            ws.customers == w0.customers,
            ws.documents == w0.documents,
            ws.projects == w0.projects,
            ws.payments == w0.payments,
            ws.follow_ups == w0.follow_ups,
            ws.employees == w0.employees,
            ws.decisions == w0.decisions,
        decreases tasks@.len() - i,
    {
        let planned = &tasks[i];
        assert(fresh@.len() == fresh.len());
        let id = fresh[first + i];
        assert(at + tasks@[i as int].due_in_days * DAY_SECONDS <= i64::MAX);
        let due = at + (planned.due_in_days as i64) * DAY_SECONDS;
        let task = Task {
            id,
            project_id: pid,
            title: copy_text(&planned.title),
            due_at: Some(due),
            done_at: None,
            created_at: at,
            origin: origin(role),
        };
        let entry = task_entry(id, &planned.title, pid, role);
        let ghost tasks_before = ws.tasks@;
        let ghost events_before = events@;
        events.push(entry);
        ws.tasks.push(task);
        proof {
            assert(ws.tasks@.take(w0.tasks@.len() as int) =~= tasks_before.take(w0.tasks@.len() as int));
            assert(events@.take(e0.len() as int) =~= events_before.take(e0.len() as int));
            assert forall|j: int| 0 <= j < i + 1 implies planned_task(
                #[trigger] ws.tasks@[w0.tasks@.len() + j],
                fresh@[first + j],
                pid,
                tasks@[j],
                at,
                role,
            ) by {
                if j < i {
                    assert(ws.tasks@[w0.tasks@.len() + j] == tasks_before[w0.tasks@.len() + j]);
                }
            }
            assert forall|j: int| 0 <= j < i + 1 implies task_event(
                #[trigger] events@[e0.len() + j],
                fresh@[first + j],
                tasks@[j].title@,
                pid,
                role,
            ) by {
                if j < i {
                    assert(events@[e0.len() + j] == events_before[e0.len() + j]);
                }
            }
        }
        i += 1;
    }
}

/// Where a plan's task identifiers start among the fresh ones: after the
/// project's, when it creates one.
pub open spec fn plan_first(project: Option<u128>) -> int {
    if project is Some {
        0
    } else {
        1
    }
}

/// How many events about the project come before a plan's task events: one
/// for a created project, one for an existing project whose criteria grew.
pub open spec fn plan_head(old: Workspace, project: Option<u128>, criteria: Seq<Seq<char>>) -> int {
    let pk = project_index(old.projects@, project->0);
    if project is None {
        1
    } else if merged(string_views(old.projects@[pk].acceptance_criteria@), criteria).len()
        > old.projects@[pk].acceptance_criteria@.len() {
        1
    } else {
        0
    }
}

/// A delivery plan adds its acceptance criteria to the project it names, or
/// creates an active project, then adds one task per planned task, all or
/// nothing.
pub open spec fn plan_applied(
    old: Workspace,
    cid: u128,
    offer: Option<u128>,
    project: Option<u128>,
    name: Seq<char>,
    tasks: Seq<PlannedTask>,
    criteria: Seq<Seq<char>>,
    role: RoleId,
    at: i64,
    fresh: Seq<u128>,
    new: Workspace,
    r: Result<(Vec<AuditEntry>, String), WorkspaceError>,
) -> bool {
    let k = customer_index(old.customers@, cid);
    let pk = project_index(old.projects@, project->0);
    if k >= old.customers@.len() {
        missing_with(r, "customer not found"@) && new == old
    } else if project is Some && pk >= old.projects@.len() {
        missing_with(r, "project not found"@) && new == old
    } else if project is Some && old.projects@[pk].status == ProjectStatus::Done {
        refused_with(r, "the project is closed"@) && new == old
    } else if project is None && old.projects@.len() >= MAX_PROJECTS {
        refused_with(r, "project limit reached"@) && new == old
    } else if old.tasks@.len() + tasks.len() > MAX_TASKS {
        refused_with(r, "task limit reached"@) && new == old
    } else {
        let pid = if project is Some {
            project->0
        } else {
            fresh[0]
        };
        let first = plan_first(project);
        let grown = merged(string_views(old.projects@[pk].acceptance_criteria@), criteria);
        let head = plan_head(old, project, criteria);
        &&& r matches Ok((events, target))
        &&& target@ == resource_of("project:"@, pid)
        &&& events@.len() == head + tasks.len()
        &&& (project is Some ==> (same_but(old.projects@, new.projects@, pk) && criteria_added(
            old.projects@[pk],
            new.projects@[pk],
            grown,
            at,
        ) && (head == 1 ==> changed_event(events@[0], "project.update"@, target@, "acceptance_criteria"@, role))))
        &&& (project is None ==> (new.projects@.len() == old.projects@.len() + 1 && new.projects@.drop_last()
            == old.projects@ && planned_project(
            new.projects@.last(),
            pid,
            cid,
            offer,
            name,
            offer_budget(old.documents@, offer),
            criteria,
            at,
        ) && project_event(events@[0], pid, name, cid, role)))
        &&& new.tasks@.len() == old.tasks@.len() + tasks.len()
        &&& new.tasks@.take(old.tasks@.len() as int) == old.tasks@
        &&& forall|i: int|
            0 <= i < tasks.len() ==> planned_task(
                #[trigger] new.tasks@[old.tasks@.len() + i],
                fresh[first + i],
                pid,
                tasks[i],
                at,
                role,
            )
        &&& forall|i: int|
            0 <= i < tasks.len() ==> task_event(#[trigger] events@[head + i], fresh[first + i], tasks[i].title@, pid, role)
        &&& new.venture == old.venture
        &&& new.customers == old.customers
        &&& new.documents == old.documents
        &&& new.payments == old.payments
        &&& new.follow_ups == old.follow_ups
    }
}

#[verifier::rlimit(40)]
fn apply_plan(
    ws: &mut Workspace,
    cid: u128,
    offer: Option<u128>,
    project: Option<u128>,
    name: &String,
    tasks: &Vec<PlannedTask>,
    criteria: &Vec<String>,
    role: RoleId,
    at: i64,
    fresh: &Vec<u128>,
) -> (r: Result<(Vec<AuditEntry>, String), WorkspaceError>)
    requires
        (if project is None {
            1int
        } else {
            0int
        }) + tasks@.len() <= fresh@.len(),
        dues_fit(tasks@, at),
    ensures
        plan_applied(*old(ws), cid, offer, project, name@, tasks@, string_views(criteria@), role, at, fresh@, *final(ws), r),
        final(ws).employees == old(ws).employees,
        final(ws).decisions == old(ws).decisions,
{
    match customer_at(&ws.customers, cid) {
        Some(k) => {
            proof {
                lemma_customer_index(ws.customers@, cid, k as int);
            }
        },
        None => {
            proof {
                lemma_customer_index(ws.customers@, cid, ws.customers@.len() as int);
            }
            return Err(missing("customer not found"));
        },
    }
    let (pk, pid, first): (Option<usize>, u128, usize) = match project {
        Some(p) => match project_at(&ws.projects, p) {
            Some(pk) => {
                proof {
                    lemma_project_index(ws.projects@, p, pk as int);
                }
                if ws.projects[pk].status == ProjectStatus::Done {
                    return Err(refused("the project is closed"));
                }
                (Some(pk), p, 0)
            },
            None => {
                proof {
                    lemma_project_index(ws.projects@, p, ws.projects@.len() as int);
                }
                return Err(missing("project not found"));
            },
        },
        None => {
            if ws.projects.len() >= MAX_PROJECTS {
                return Err(refused("project limit reached"));
            }
            (None, fresh[0], 1)
        },
    };
    if ws.tasks.len() > MAX_TASKS || tasks.len() > MAX_TASKS - ws.tasks.len() {
        return Err(refused("task limit reached"));
    }
    let ghost w0 = *ws;
    let mut events: Vec<AuditEntry> = Vec::new();
    match pk {
        Some(pk) => {
            let mut p = ws.projects.remove(pk);
            let added = merge_criteria(&mut p.acceptance_criteria, criteria);
            if added {
                p.updated_at = at;
            }
            let ghost updated = p;
            ws.projects.insert(pk, p);
            proof {
                assert(ws.projects@ =~= w0.projects@.update(pk as int, updated));
            }
            if added {
                let target = resource("project:", pid);
                events.push(changed_entry("project.update", &target, "acceptance_criteria", role));
            }
        },
        None => {
            let budget = match offer {
                Some(o) => match document_at(&ws.documents, o) {
                    Some(d) => ws.documents[d].amount_cents,
                    None => None,
                },
                None => None,
            };
            let p = Project {
                id: pid,
                customer_id: cid,
                offer_id: offer,
                name: copy_text(name),
                status: ProjectStatus::Active,
                budget_cents: budget,
                created_at: at,
                updated_at: at,
                done_at: None,
                acceptance_criteria: copy_strings(criteria),
            };
            ws.projects.push(p);
            proof {
                assert(ws.projects@.drop_last() =~= w0.projects@);
            }
            events.push(
                AuditEntry {
                    action: owned("project.create"),
                    resource: resource("project:", pid),
                    payload: AuditPayload::ProjectCreate { name: copy_text(name), customer_id: cid, origin: origin(role) },
                },
            );
        },
    }
    let ghost head = events@;
    add_tasks(ws, &mut events, tasks, pid, fresh, first, role, at);
    proof {
        if head.len() > 0 {
            assert(events@[0] == events@.take(head.len() as int)[0]);
        }
        assert forall|i: int| 0 <= i < tasks@.len() implies task_event(
            #[trigger] events@[head.len() + i],
            fresh@[first + i],
            tasks@[i].title@,
            pid,
            role,
        ) by {}
    }
    Ok((events, resource("project:", pid)))
}

// ---------------------------------------------------------------------------
// Applying any approved change
// ---------------------------------------------------------------------------

/// How many fresh identifiers applying a change takes: one per document or
/// project it creates and one per task.
pub open spec fn ids_needed(change: ProposedChange) -> int {
    match change {
        ProposedChange::OfferDraft { .. } => 1,
        ProposedChange::InvoiceDraft { .. } => 1,
        ProposedChange::DeliveryPlan { project_id, tasks, .. } => (if project_id is None {
            1int
        } else {
            0int
        }) + tasks@.len(),
        _ => 0,
    }
}

/// Every due date the change sets is a time an `i64` holds.
pub open spec fn change_fits(change: ProposedChange, at: i64) -> bool {
    match change {
        ProposedChange::DeliveryPlan { tasks, .. } => dues_fit(tasks@, at),
        ProposedChange::InvoiceDraft { due_in_days, .. } => at + due_in_days * DAY_SECONDS <= i64::MAX,
        _ => true,
    }
}

/// The business records are as they were.
pub open spec fn same_business(old: Workspace, new: Workspace) -> bool {
    &&& new.venture == old.venture
    &&& new.customers == old.customers
    &&& new.documents == old.documents
    &&& new.projects == old.projects
    &&& new.tasks == old.tasks
    &&& new.payments == old.payments
    &&& new.follow_ups == old.follow_ups
}

/// What applying `change` at `at` does to `old`, with `fresh` supplying the
/// identifiers of what it creates, in order: the workspace it leaves, the
/// events it reports and the resource it names, or the refusal.
pub open spec fn applied(
    old: Workspace,
    change: ProposedChange,
    role: RoleId,
    at: i64,
    fresh: Seq<u128>,
    new: Workspace,
    r: Result<(Vec<AuditEntry>, String), WorkspaceError>,
) -> bool {
    match change {
        ProposedChange::DiscoverySummary {
            customer_id,
            problems,
            constraints,
            budget,
            open_questions,
            assumptions,
        } => discovery_applied(
            old,
            customer_id,
            discovery_text(
                at,
                string_views(problems@),
                string_views(constraints@),
                budget@,
                string_views(open_questions@),
                string_views(assumptions@),
            ),
            role,
            at,
            new,
            r,
        ),
        ProposedChange::OfferDraft { customer_id, title, body, amount_cents, assumptions } => offer_applied(
            old,
            customer_id,
            title@,
            body@,
            amount_cents,
            string_views(assumptions@),
            role,
            at,
            fresh[0],
            new,
            r,
        ),
        ProposedChange::DeliveryPlan {
            customer_id,
            offer_id,
            project_id,
            project_name,
            tasks,
            acceptance_criteria,
        } => plan_applied(
            old,
            customer_id,
            offer_id,
            project_id,
            project_name@,
            tasks@,
            string_views(acceptance_criteria@),
            role,
            at,
            fresh,
            new,
            r,
        ),
        ProposedChange::InvoiceDraft { customer_id, project_id, title, body, amount_cents, due_in_days } =>
            invoice_applied(
            old,
            customer_id,
            project_id,
            title@,
            body@,
            amount_cents,
            due_in_days,
            role,
            at,
            fresh[0],
            new,
            r,
        ),
        ProposedChange::ReviewFindings { document_id, .. } => if find_document(
            old.documents@,
            document_id,
        ) is None {
            missing_with(r, "document not found"@) && new == old
        } else {
            (r matches Ok((events, target)) && events@.len() == 0 && target@ == resource_of(
                "acknowledged:document:"@,
                document_id,
            )) && same_business(old, new)
        },
        ProposedChange::ComplianceReport { report_id } => same_business(old, new) && (r matches Ok((events, target))
            && events@.len() == 0 && target@ == resource_of("acknowledged:compliance_report:"@, report_id)),
    }
}

/// Applies an approved change in memory with the given fresh identifiers
/// and returns the audit events that describe it and the resource it
/// touched. A refused change leaves the workspace as it was.
pub fn apply_change_with(
    workspace: &mut Workspace,
    change: &ProposedChange,
    role: RoleId,
    at: i64,
    fresh: &Vec<u128>,
) -> (r: Result<(Vec<AuditEntry>, String), WorkspaceError>)
    requires
        fresh@.len() >= ids_needed(*change),
        change_fits(*change, at),
    ensures
        applied(*old(workspace), *change, role, at, fresh@, *final(workspace), r),
        r is Err ==> *final(workspace) == *old(workspace),
        final(workspace).employees == old(workspace).employees,
        final(workspace).decisions == old(workspace).decisions,
{
    match change {
        ProposedChange::DiscoverySummary {
            customer_id,
            problems,
            constraints,
            budget,
            open_questions,
            assumptions,
        } => {
            let section = discovery_section(at, problems, constraints, budget, open_questions, assumptions);
            apply_discovery(workspace, *customer_id, &section, role, at)
        },
        ProposedChange::OfferDraft { customer_id, title, body, amount_cents, assumptions } => {
            apply_offer(workspace, *customer_id, title, body, *amount_cents, assumptions, role, at, fresh[0])
        },
        ProposedChange::DeliveryPlan {
            customer_id,
            offer_id,
            project_id,
            project_name,
            tasks,
            acceptance_criteria,
        } => apply_plan(
            workspace,
            *customer_id,
            *offer_id,
            *project_id,
            project_name,
            tasks,
            acceptance_criteria,
            role,
            at,
            fresh,
        ),
        ProposedChange::InvoiceDraft { customer_id, project_id, title, body, amount_cents, due_in_days } => {
            apply_invoice(
                workspace,
                *customer_id,
                *project_id,
                title,
                body,
                *amount_cents,
                *due_in_days,
                role,
                at,
                fresh[0],
            )
        },
        ProposedChange::ReviewFindings { document_id, .. } => {
            if document_at(&workspace.documents, *document_id).is_none() {
                return Err(missing("document not found"));
            }
            Ok((Vec::new(), resource("acknowledged:document:", *document_id)))
        },
        ProposedChange::ComplianceReport { report_id } => {
            Ok((Vec::new(), resource("acknowledged:compliance_report:", *report_id)))
        },
    }
}

/// Applies an approved change in memory, giving what it creates fresh
/// random identifiers, and returns the audit events that describe it and
/// the resource it touched; the caller commits them with the decision.
pub fn apply_change(workspace: &mut Workspace, change: &ProposedChange, role: RoleId, at: i64) -> (r: Result<
    (Vec<AuditEntry>, String),
    WorkspaceError,
>)
    requires
        change_fits(*change, at),
    ensures
        exists|fresh: Seq<u128>|
            fresh.len() == ids_needed(*change) && applied(
                *old(workspace),
                *change,
                role,
                at,
                fresh,
                *final(workspace),
                r,
            ),
        r is Err ==> *final(workspace) == *old(workspace),
        final(workspace).employees == old(workspace).employees,
        final(workspace).decisions == old(workspace).decisions,
{
    let mut fresh: Vec<u128> = Vec::new();
    match change {
        ProposedChange::OfferDraft { .. } | ProposedChange::InvoiceDraft { .. } => {
            fresh.push(new_id());
        },
        ProposedChange::DeliveryPlan { project_id, tasks, .. } => {
            if project_id.is_none() {
                fresh.push(new_id());
            }
            let mut i: usize = 0;
            while i < tasks.len()
                invariant
                    i <= tasks@.len(),
                    fresh@.len() == (if project_id is None {
                        1int
                    } else {
                        0int
                    }) + i,
                decreases tasks@.len() - i,
            {
                fresh.push(new_id());
                i += 1;
            }
        },
        _ => {},
    }
    let r = apply_change_with(workspace, change, role, at, &fresh);
    assert(fresh@.len() == ids_needed(*change));
    r
}

} // verus!
