//! The snapshot one employee run may read: only the facts its role is
//! allowed, assembled from the workspace. Missing prerequisites are
//! reported plainly, never filled in by guessing.
use vstd::prelude::*;

use crate::crew::RoleId;
use crate::crew_draft::{CustomerFacts, DocumentFacts, ProjectFacts, RoleInput};
use crate::erp::{Project, ProjectStatus, Task};
use crate::text::{chars_of, owned, starts_with, starts_with_str, string_views};
use crate::types::{Customer, Document, DocumentKind, Workspace, WorkspaceError};

verus! {

/// Which record an employee should look at when it runs.
#[derive(Debug, Clone, Copy, Default)]
pub struct RunSubject {
    pub customer_id: Option<u128>,
    pub document_id: Option<u128>,
    pub project_id: Option<u128>,
}

/// The first customer with this id.
pub open spec fn find_customer(cs: Seq<Customer>, id: u128) -> Option<Customer>
    decreases cs.len(),
{
    if cs.len() == 0 {
        None
    } else if cs[0].id == id {
        Some(cs[0])
    } else {
        find_customer(cs.drop_first(), id)
    }
}

/// The first document with this id.
pub open spec fn find_document(ds: Seq<Document>, id: u128) -> Option<Document>
    decreases ds.len(),
{
    if ds.len() == 0 {
        None
    } else if ds[0].id == id {
        Some(ds[0])
    } else {
        find_document(ds.drop_first(), id)
    }
}

/// The first project with this id.
pub open spec fn find_project(ps: Seq<Project>, id: u128) -> Option<Project>
    decreases ps.len(),
{
    if ps.len() == 0 {
        None
    } else if ps[0].id == id {
        Some(ps[0])
    } else {
        find_project(ps.drop_first(), id)
    }
}

pub(crate) fn customer_at(cs: &Vec<Customer>, id: u128) -> (r: Option<usize>)
    ensures
        match find_customer(cs@, id) {
            Some(c) => r matches Some(i) && i < cs@.len() && cs@[i as int] == c,
            None => r is None,
        },
        r matches Some(i) ==> cs@[i as int].id == id && forall|j: int| 0 <= j < i ==> cs@[j].id != id,
        r is None ==> forall|j: int| 0 <= j < cs@.len() ==> cs@[j].id != id,
{
    let mut i: usize = 0;
    assert(cs@.skip(0) =~= cs@);
    while i < cs.len()
        invariant
            i <= cs@.len(),
            find_customer(cs@.skip(i as int), id) == find_customer(cs@, id),
            forall|j: int| 0 <= j < i ==> cs@[j].id != id,
        decreases cs@.len() - i,
    {
        assert(cs@.skip(i as int).drop_first() =~= cs@.skip(i + 1));
        if cs[i].id == id {
            return Some(i);
        }
        i += 1;
    }
    None
}

pub(crate) fn document_at(ds: &Vec<Document>, id: u128) -> (r: Option<usize>)
    ensures
        match find_document(ds@, id) {
            Some(d) => r matches Some(i) && i < ds@.len() && ds@[i as int] == d,
            None => r is None,
        },
        r matches Some(i) ==> ds@[i as int].id == id && forall|j: int| 0 <= j < i ==> ds@[j].id != id,
        r is None ==> forall|j: int| 0 <= j < ds@.len() ==> ds@[j].id != id,
{
    let mut i: usize = 0;
    assert(ds@.skip(0) =~= ds@);
    while i < ds.len()
        invariant
            i <= ds@.len(),
            find_document(ds@.skip(i as int), id) == find_document(ds@, id),
            forall|j: int| 0 <= j < i ==> ds@[j].id != id,
        decreases ds@.len() - i,
    {
        assert(ds@.skip(i as int).drop_first() =~= ds@.skip(i + 1));
        if ds[i].id == id {
            return Some(i);
        }
        i += 1;
    }
    None
}

pub(crate) fn project_at(ps: &Vec<Project>, id: u128) -> (r: Option<usize>)
    ensures
        match find_project(ps@, id) {
            Some(p) => r matches Some(i) && i < ps@.len() && ps@[i as int] == p,
            None => r is None,
        },
        r matches Some(i) ==> ps@[i as int].id == id && forall|j: int| 0 <= j < i ==> ps@[j].id != id,
        r is None ==> forall|j: int| 0 <= j < ps@.len() ==> ps@[j].id != id,
{
    let mut i: usize = 0;
    assert(ps@.skip(0) =~= ps@);
    while i < ps.len()
        invariant
            i <= ps@.len(),
            find_project(ps@.skip(i as int), id) == find_project(ps@, id),
            forall|j: int| 0 <= j < i ==> ps@[j].id != id,
        decreases ps@.len() - i,
    {
        assert(ps@.skip(i as int).drop_first() =~= ps@.skip(i + 1));
        if ps[i].id == id {
            return Some(i);
        }
        i += 1;
    }
    None
}

/// The customer has an offer in the workspace.
pub open spec fn has_offer(ds: Seq<Document>, id: u128) -> bool {
    exists|i: int| 0 <= i < ds.len() && (#[trigger] ds[i]).customer_id == id && ds[i].kind == DocumentKind::Offer
}

/// What a role may know of a customer.
pub open spec fn customer_facts_of(f: CustomerFacts, ws: Workspace, c: Customer) -> bool {
    &&& f.id == c.id
    &&& f.name@ == c.name@
    &&& f.stage == c.stage
    &&& f.notes@ == c.notes@
    &&& f.discovery_notes@ == c.discovery_notes@
    &&& f.has_offer == has_offer(ws.documents@, c.id)
}

/// What a role may know of a document.
pub open spec fn document_facts_of(f: DocumentFacts, d: Document) -> bool {
    &&& f.id == d.id
    &&& f.kind == d.kind
    &&& f.title@ == d.title@
    &&& f.body@ == d.body@
    &&& f.amount_cents == d.amount_cents
    &&& f.status == d.status
    &&& f.revision == d.revision
    &&& f.accepted == d.accepted_at is Some
}

pub open spec fn tasks_of(ts: Seq<Task>, project: u128) -> nat
    decreases ts.len(),
{
    if ts.len() == 0 {
        0
    } else {
        tasks_of(ts.drop_last(), project) + if ts.last().project_id == project {
            1nat
        } else {
            0nat
        }
    }
}

pub open spec fn open_tasks_of(ts: Seq<Task>, project: u128) -> nat
    decreases ts.len(),
{
    if ts.len() == 0 {
        0
    } else {
        open_tasks_of(ts.drop_last(), project) + if ts.last().project_id == project
            && ts.last().done_at is None {
            1nat
        } else {
            0nat
        }
    }
}

/// What a role may know of a project: its tasks counted, and the amount of
/// the offer it delivers.
pub open spec fn project_facts_of(f: ProjectFacts, ws: Workspace, p: Project) -> bool {
    &&& f.id == p.id
    &&& f.name@ == p.name@
    &&& f.status == p.status
    &&& f.budget_cents == p.budget_cents
    &&& f.tasks_total == tasks_of(ws.tasks@, p.id)
    &&& f.tasks_open == open_tasks_of(ws.tasks@, p.id)
    &&& f.offer_amount_cents == (match p.offer_id {
        Some(id) => match find_document(ws.documents@, id) {
            Some(d) => d.amount_cents,
            None => None,
        },
        None => None,
    })
}

fn customer_facts(ws: &Workspace, c: &Customer) -> (f: CustomerFacts)
    ensures
        customer_facts_of(f, *ws, *c),
{
    let mut found = false;
    let mut i: usize = 0;
    while i < ws.documents.len()
        invariant
            i <= ws.documents@.len(),
            found == exists|k: int|
                0 <= k < i && (#[trigger] ws.documents@[k]).customer_id == c.id && ws.documents@[k].kind
                    == DocumentKind::Offer,
        decreases ws.documents@.len() - i,
    {
        if ws.documents[i].customer_id == c.id && ws.documents[i].kind == DocumentKind::Offer {
            found = true;
        }
        i += 1;
    }
    CustomerFacts {
        id: c.id,
        name: c.name.clone(),
        stage: c.stage,
        notes: c.notes.clone(),
        discovery_notes: c.discovery_notes.clone(),
        has_offer: found,
    }
}

fn document_facts(d: &Document) -> (f: DocumentFacts)
    ensures
        document_facts_of(f, *d),
{
    DocumentFacts {
        id: d.id,
        kind: d.kind,
        title: d.title.clone(),
        body: d.body.clone(),
        amount_cents: d.amount_cents,
        status: d.status,
        revision: d.revision,
        accepted: d.accepted_at.is_some(),
    }
}

fn project_facts(ws: &Workspace, p: &Project) -> (f: ProjectFacts)
    ensures
        project_facts_of(f, *ws, *p),
{
    let mut total: usize = 0;
    let mut open: usize = 0;
    let mut i: usize = 0;
    while i < ws.tasks.len()
        invariant
            i <= ws.tasks@.len(),
            total == tasks_of(ws.tasks@.take(i as int), p.id),
            open == open_tasks_of(ws.tasks@.take(i as int), p.id),
            total <= i,
            open <= i,
        decreases ws.tasks@.len() - i,
    {
        assert(ws.tasks@.take(i + 1).drop_last() =~= ws.tasks@.take(i as int));
        if ws.tasks[i].project_id == p.id {
            total += 1;
            if ws.tasks[i].done_at.is_none() {
                open += 1;
            }
        }
        i += 1;
    }
    assert(ws.tasks@.take(i as int) =~= ws.tasks@);
    let offer_amount_cents = match p.offer_id {
        Some(id) => match document_at(&ws.documents, id) {
            Some(k) => ws.documents[k].amount_cents,
            None => None,
        },
        None => None,
    };
    ProjectFacts {
        id: p.id,
        name: p.name.clone(),
        status: p.status,
        budget_cents: p.budget_cents,
        tasks_total: total,
        tasks_open: open,
        offer_amount_cents,
    }
}

/// The offer key a planner prefers: accepted before not, then newer.
pub open spec fn offer_key_ge(a: Document, b: Document) -> bool {
    (a.accepted_at is Some && b.accepted_at is None) || ((a.accepted_at is Some) == (b.accepted_at
        is Some) && a.created_at >= b.created_at)
}

/// The customer's preferred offer: the greatest by (accepted, created), the
/// last of equals.
pub open spec fn best_offer(ds: Seq<Document>, cid: u128) -> Option<Document>
    decreases ds.len(),
{
    if ds.len() == 0 {
        None
    } else {
        let b = best_offer(ds.drop_last(), cid);
        let d = ds.last();
        if d.customer_id == cid && d.kind == DocumentKind::Offer && (b is None || offer_key_ge(d, b->0)) {
            Some(d)
        } else {
            b
        }
    }
}

/// `done_at` ordered as `Option` orders it: no date before any date.
pub open spec fn done_ge(a: Option<i64>, b: Option<i64>) -> bool {
    match (a, b) {
        (_, None) => true,
        (None, Some(_)) => false,
        (Some(x), Some(y)) => x >= y,
    }
}

/// The customer's latest finished project, the last of equals.
pub open spec fn latest_done(ps: Seq<Project>, cid: u128) -> Option<Project>
    decreases ps.len(),
{
    if ps.len() == 0 {
        None
    } else {
        let b = latest_done(ps.drop_last(), cid);
        let p = ps.last();
        if p.customer_id == cid && p.status == ProjectStatus::Done && (b is None || done_ge(p.done_at, b->0.done_at)) {
            Some(p)
        } else {
            b
        }
    }
}

/// The first project delivering this offer.
pub open spec fn project_for_offer(ps: Seq<Project>, offer: u128) -> Option<Project>
    decreases ps.len(),
{
    if ps.len() == 0 {
        None
    } else if ps[0].offer_id == Some(offer) {
        Some(ps[0])
    } else {
        project_for_offer(ps.drop_first(), offer)
    }
}

fn best_offer_at(ds: &Vec<Document>, cid: u128) -> (r: Option<usize>)
    ensures
        match best_offer(ds@, cid) {
            Some(d) => r matches Some(i) && i < ds@.len() && ds@[i as int] == d,
            None => r is None,
        },
{
    let mut best: Option<usize> = None;
    let mut i: usize = 0;
    while i < ds.len()
        invariant
            i <= ds@.len(),
            match best_offer(ds@.take(i as int), cid) {
                Some(d) => best matches Some(k) && k < i && ds@[k as int] == d,
                None => best is None,
            },
        decreases ds@.len() - i,
    {
        assert(ds@.take(i + 1).drop_last() =~= ds@.take(i as int));
        let d = &ds[i];
        if d.customer_id == cid && d.kind == DocumentKind::Offer {
            let take = match best {
                None => true,
                Some(k) => {
                    let b = &ds[k];
                    (d.accepted_at.is_some() && b.accepted_at.is_none()) || (d.accepted_at.is_some()
                        == b.accepted_at.is_some() && d.created_at >= b.created_at)
                },
            };
            if take {
                best = Some(i);
            }
        }
        i += 1;
    }
    assert(ds@.take(i as int) =~= ds@);
    best
}

fn latest_done_at(ps: &Vec<Project>, cid: u128) -> (r: Option<usize>)
    ensures
        match latest_done(ps@, cid) {
            Some(p) => r matches Some(i) && i < ps@.len() && ps@[i as int] == p,
            None => r is None,
        },
{
    let mut best: Option<usize> = None;
    let mut i: usize = 0;
    while i < ps.len()
        invariant
            i <= ps@.len(),
            match latest_done(ps@.take(i as int), cid) {
                Some(p) => best matches Some(k) && k < i && ps@[k as int] == p,
                None => best is None,
            },
        decreases ps@.len() - i,
    {
        assert(ps@.take(i + 1).drop_last() =~= ps@.take(i as int));
        let p = &ps[i];
        if p.customer_id == cid && p.status == ProjectStatus::Done {
            let take = match best {
                None => true,
                Some(k) => match (p.done_at, ps[k].done_at) {
                    (_, None) => true,
                    (None, Some(_)) => false,
                    (Some(x), Some(y)) => x >= y,
                },
            };
            if take {
                best = Some(i);
            }
        }
        i += 1;
    }
    assert(ps@.take(i as int) =~= ps@);
    best
}

fn project_for_offer_at(ps: &Vec<Project>, offer: u128) -> (r: Option<usize>)
    ensures
        match project_for_offer(ps@, offer) {
            Some(p) => r matches Some(i) && i < ps@.len() && ps@[i as int] == p,
            None => r is None,
        },
{
    let mut i: usize = 0;
    assert(ps@.skip(0) =~= ps@);
    while i < ps.len()
        invariant
            i <= ps@.len(),
            project_for_offer(ps@.skip(i as int), offer) == project_for_offer(ps@, offer),
        decreases ps@.len() - i,
    {
        assert(ps@.skip(i as int).drop_first() =~= ps@.skip(i + 1));
        if ps[i].offer_id == Some(offer) {
            return Some(i);
        }
        i += 1;
    }
    None
}


pub open spec fn invalid_with(r: Result<RoleInput, WorkspaceError>, m: Seq<char>) -> bool {
    r matches Err(WorkspaceError::Invalid(x)) && x@ == m
}

pub open spec fn missing_with(r: Result<RoleInput, WorkspaceError>, m: Seq<char>) -> bool {
    r matches Err(WorkspaceError::NotFound(x)) && x@ == m
}

/// The input carries the company's facts for the role, in the language
/// asked for (`zh` for any Chinese tag, else `en`).
pub open spec fn base_of(i: RoleInput, ws: Workspace, role: RoleId, lang: Seq<char>) -> bool {
    let v = ws.venture->0;
    &&& i.role == role
    &&& i.lang@ == (if starts_with(lang, "zh"@) {
        "zh"@
    } else {
        "en"@
    })
    &&& i.venture_name@ == v.name@
    &&& i.service@ == v.service@
    &&& i.currency@ == v.currency@
    &&& i.gst_registered == v.gst_registered
}

pub open spec fn with_customer(i: RoleInput, ws: Workspace, c: Customer) -> bool {
    i.customer matches Some(f) && customer_facts_of(f, ws, c)
}

pub open spec fn with_document(i: RoleInput, d: Document) -> bool {
    i.document matches Some(f) && document_facts_of(f, d)
}

pub open spec fn with_project(i: RoleInput, ws: Workspace, p: Project) -> bool {
    i.project matches Some(f) && project_facts_of(f, ws, p)
}

pub open spec fn evidence_is(i: RoleInput, extra: Seq<Seq<char>>) -> bool {
    string_views(i.evidence@) == seq!["venture.name"@, "venture.service"@] + extra
}

/// The input a run of `role` on `subject` reads, or why it cannot run.
pub open spec fn built(ws: Workspace, role: RoleId, subject: RunSubject, lang: Seq<char>, r: Result<RoleInput, WorkspaceError>) -> bool {
    if ws.venture is None {
        invalid_with(r, "set up the company profile first"@)
    } else {
        match role {
            RoleId::Analyst | RoleId::ProposalWriter => match subject.customer_id {
                None => invalid_with(r, "choose a customer for this employee"@),
                Some(cid) => match find_customer(ws.customers@, cid) {
                    None => missing_with(r, "customer not found"@),
                    Some(c) => r matches Ok(i) && base_of(i, ws, role, lang) && with_customer(i, ws, c)
                        && i.document is None && i.project is None && evidence_is(
                        i,
                        seq!["customer.name"@, "customer.notes"@, "customer.discovery_notes"@],
                    ),
                },
            },
            RoleId::DeliveryPlanner => match subject.customer_id {
                None => invalid_with(r, "choose a customer for this employee"@),
                Some(cid) => match find_customer(ws.customers@, cid) {
                    None => missing_with(r, "customer not found"@),
                    Some(c) => {
                        let offer = match subject.document_id {
                            Some(id) => find_document(ws.documents@, id),
                            None => best_offer(ws.documents@, cid),
                        };
                        if subject.document_id is Some && offer is None {
                            missing_with(r, "document not found"@)
                        } else if offer matches Some(o) && (o.kind != DocumentKind::Offer || o.customer_id != cid) {
                            invalid_with(r, "that document is not this customer's offer"@)
                        } else {
                            r matches Ok(i) && base_of(i, ws, role, lang) && with_customer(i, ws, c) && match offer {
                                Some(o) => with_document(i, o) && match project_for_offer(ws.projects@, o.id) {
                                    Some(p) => with_project(i, ws, p),
                                    None => i.project is None,
                                } && evidence_is(i, seq!["offer.title"@, "offer.body"@, "customer.discovery_notes"@]),
                                None => i.document is None && i.project is None && evidence_is(
                                    i,
                                    seq!["customer.discovery_notes"@],
                                ),
                            }
                        }
                    },
                },
            },
            RoleId::InvoiceClerk => {
                let project = match subject.project_id {
                    Some(id) => find_project(ws.projects@, id),
                    None => match subject.customer_id {
                        Some(cid) => latest_done(ws.projects@, cid),
                        None => None,
                    },
                };
                if subject.project_id is Some && project is None {
                    missing_with(r, "project not found"@)
                } else if subject.project_id is None && subject.customer_id is None {
                    invalid_with(r, "choose a finished project for this employee"@)
                } else if project is None {
                    invalid_with(r, "no finished project for this customer yet"@)
                } else {
                    let p = project->0;
                    match find_customer(ws.customers@, p.customer_id) {
                        None => missing_with(r, "customer not found"@),
                        Some(c) => r matches Ok(i) && base_of(i, ws, role, lang) && with_customer(i, ws, c)
                            && with_project(i, ws, p) && i.document is None && evidence_is(
                            i,
                            seq!["project.name"@, "project.budget"@, "offer.amount"@, "venture.gst_registered"@],
                        ),
                    }
                }
            },
            RoleId::QualityChecker => match subject.document_id {
                None => invalid_with(r, "choose a draft for this employee"@),
                Some(id) => match find_document(ws.documents@, id) {
                    None => missing_with(r, "document not found"@),
                    Some(d) => match find_customer(ws.customers@, d.customer_id) {
                        None => missing_with(r, "customer not found"@),
                        Some(c) => r matches Ok(i) && base_of(i, ws, role, lang) && with_customer(i, ws, c)
                            && with_document(i, d) && i.project is None && evidence_is(
                            i,
                            seq!["document.title"@, "document.body"@, "document.amount"@, "customer.name"@],
                        ),
                    },
                },
            },
            RoleId::ComplianceChecker => r matches Ok(i) && base_of(i, ws, role, lang) && i.customer is None
                && i.document is None && i.project is None && evidence_is(
                i,
                seq![
                    "venture.jurisdiction"@,
                    "venture.registration"@,
                    "customers.jurisdiction"@,
                    "invoices.issued"@,
                ],
            ),
        }
    }
}

fn strings(parts: &[&str]) -> (r: Vec<String>)
    ensures
        string_views(r@) == crate::compliance::str_views(parts@),
{
    crate::compliance::owned_all(parts)
}

fn invalid(m: &str) -> (e: WorkspaceError)
    ensures
        e matches WorkspaceError::Invalid(x) && x@ == m@,
{
    WorkspaceError::Invalid(owned(m))
}

fn missing(m: &str) -> (e: WorkspaceError)
    ensures
        e matches WorkspaceError::NotFound(x) && x@ == m@,
{
    WorkspaceError::NotFound(owned(m))
}

/// Assembles the snapshot one run of `role` may read.
pub fn build_input(workspace: &Workspace, role: RoleId, subject: RunSubject, lang: &str) -> (r: Result<RoleInput, WorkspaceError>)
    ensures
        built(*workspace, role, subject, lang@, r),
{
    let v = match &workspace.venture {
        Some(v) => v,
        None => {
            return Err(invalid("set up the company profile first"));
        },
    };
    let zh = starts_with_str(&chars_of(lang), "zh");
    let mut input = RoleInput {
        role,
        lang: if zh {
            owned("zh")
        } else {
            owned("en")
        },
        venture_name: v.name.clone(),
        service: v.service.clone(),
        currency: v.currency.clone(),
        gst_registered: v.gst_registered,
        customer: None,
        document: None,
        project: None,
        evidence: Vec::new(),
    };
    match role {
        RoleId::Analyst | RoleId::ProposalWriter => {
            let cid = match subject.customer_id {
                Some(c) => c,
                None => {
                    return Err(invalid("choose a customer for this employee"));
                },
            };
            let k = match customer_at(&workspace.customers, cid) {
                Some(k) => k,
                None => {
                    return Err(missing("customer not found"));
                },
            };
            input.customer = Some(customer_facts(workspace, &workspace.customers[k]));
            input.evidence = strings(&["venture.name", "venture.service", "customer.name", "customer.notes", "customer.discovery_notes"]);
            proof {
                reveal_strlit("");
            }
            assert(string_views(input.evidence@) =~= seq!["venture.name"@, "venture.service"@] + seq![
                "customer.name"@,
                "customer.notes"@,
                "customer.discovery_notes"@,
            ]);
        },
        RoleId::DeliveryPlanner => {
            let cid = match subject.customer_id {
                Some(c) => c,
                None => {
                    return Err(invalid("choose a customer for this employee"));
                },
            };
            let k = match customer_at(&workspace.customers, cid) {
                Some(k) => k,
                None => {
                    return Err(missing("customer not found"));
                },
            };
            input.customer = Some(customer_facts(workspace, &workspace.customers[k]));
            let offer = match subject.document_id {
                Some(id) => match document_at(&workspace.documents, id) {
                    Some(j) => Some(j),
                    None => {
                        return Err(missing("document not found"));
                    },
                },
                None => best_offer_at(&workspace.documents, cid),
            };
            match offer {
                Some(j) => {
                    let o = &workspace.documents[j];
                    if o.kind != DocumentKind::Offer || o.customer_id != cid {
                        return Err(invalid("that document is not this customer's offer"));
                    }
                    input.document = Some(document_facts(o));
                    match project_for_offer_at(&workspace.projects, o.id) {
                        Some(pi) => {
                            input.project = Some(project_facts(workspace, &workspace.projects[pi]));
                        },
                        None => {},
                    }
                    input.evidence = strings(&["venture.name", "venture.service", "offer.title", "offer.body", "customer.discovery_notes"]);
                    assert(string_views(input.evidence@) =~= seq!["venture.name"@, "venture.service"@] + seq![
                        "offer.title"@,
                        "offer.body"@,
                        "customer.discovery_notes"@,
                    ]);
                },
                None => {
                    input.evidence = strings(&["venture.name", "venture.service", "customer.discovery_notes"]);
                    assert(string_views(input.evidence@) =~= seq!["venture.name"@, "venture.service"@] + seq![
                        "customer.discovery_notes"@,
                    ]);
                },
            }
        },
        RoleId::InvoiceClerk => {
            let pi = match subject.project_id {
                Some(id) => match project_at(&workspace.projects, id) {
                    Some(pi) => pi,
                    None => {
                        return Err(missing("project not found"));
                    },
                },
                None => {
                    let cid = match subject.customer_id {
                        Some(c) => c,
                        None => {
                            return Err(invalid("choose a finished project for this employee"));
                        },
                    };
                    match latest_done_at(&workspace.projects, cid) {
                        Some(pi) => pi,
                        None => {
                            return Err(invalid("no finished project for this customer yet"));
                        },
                    }
                },
            };
            let p = &workspace.projects[pi];
            let k = match customer_at(&workspace.customers, p.customer_id) {
                Some(k) => k,
                None => {
                    return Err(missing("customer not found"));
                },
            };
            input.customer = Some(customer_facts(workspace, &workspace.customers[k]));
            input.project = Some(project_facts(workspace, p));
            input.evidence = strings(&["venture.name", "venture.service", "project.name", "project.budget", "offer.amount", "venture.gst_registered"]);
            assert(string_views(input.evidence@) =~= seq!["venture.name"@, "venture.service"@] + seq![
                "project.name"@,
                "project.budget"@,
                "offer.amount"@,
                "venture.gst_registered"@,
            ]);
        },
        RoleId::QualityChecker => {
            let id = match subject.document_id {
                Some(id) => id,
                None => {
                    return Err(invalid("choose a draft for this employee"));
                },
            };
            let j = match document_at(&workspace.documents, id) {
                Some(j) => j,
                None => {
                    return Err(missing("document not found"));
                },
            };
            let d = &workspace.documents[j];
            let k = match customer_at(&workspace.customers, d.customer_id) {
                Some(k) => k,
                None => {
                    return Err(missing("customer not found"));
                },
            };
            input.customer = Some(customer_facts(workspace, &workspace.customers[k]));
            input.document = Some(document_facts(d));
            input.evidence = strings(&["venture.name", "venture.service", "document.title", "document.body", "document.amount", "customer.name"]);
            assert(string_views(input.evidence@) =~= seq!["venture.name"@, "venture.service"@] + seq![
                "document.title"@,
                "document.body"@,
                "document.amount"@,
                "customer.name"@,
            ]);
        },
        RoleId::ComplianceChecker => {
            input.evidence = strings(&["venture.name", "venture.service", "venture.jurisdiction", "venture.registration", "customers.jurisdiction", "invoices.issued"]);
            assert(string_views(input.evidence@) =~= seq!["venture.name"@, "venture.service"@] + seq![
                "venture.jurisdiction"@,
                "venture.registration"@,
                "customers.jurisdiction"@,
                "invoices.issued"@,
            ]);
        },
    }
    Ok(input)
}

} // verus!
