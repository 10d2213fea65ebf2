use sovereign_cli::business::{
    add_follow_up, add_project, add_task, complete_follow_up, complete_task, receivable_rows, record_offer_accepted,
    record_payment, set_project_status, update_customer, update_document, update_venture_profile, customer_timeline,
    timeline_subjects, LedgerEvent,
};
use sovereign_cli::crew_apply::{AuditEntry, AuditPayload};
use sovereign_cli::erp::{CustomerInput, CustomerStage, ProjectStatus, VentureProfileInput};
use sovereign_cli::types::{Customer, Document, DocumentKind, DocumentStatus, Workspace, WorkspaceError};

const NOW: i64 = 1_780_000_000;

fn actions(events: &[AuditEntry]) -> Vec<&str> {
    events.iter().map(|e| e.action.as_str()).collect()
}

fn document(id: u128, kind: DocumentKind, status: DocumentStatus, amount: Option<u64>) -> Document {
    Document {
        id,
        kind,
        customer_id: 1,
        title: "Reporting clarity sprint".into(),
        body: "Scope".into(),
        amount_cents: amount,
        status,
        created_at: 0,
        updated_at: 0,
        revision: 1,
        due_at: Some(NOW + 86_400),
        project_id: None,
        accepted_at: None,
    }
}

/// One lead, a sent offer (10) and an issued invoice (11) for 3,500.00.
fn seeded() -> Workspace {
    Workspace {
        venture: None,
        customers: vec![Customer {
            id: 1,
            name: "Acme Ltd".into(),
            email: String::new(),
            notes: String::new(),
            created_at: 0,
            stage: CustomerStage::Lead,
            discovery_notes: String::new(),
            jurisdiction: String::new(),
            personal_data_consent: false,
            updated_at: 0,
        }],
        documents: vec![
            document(10, DocumentKind::Offer, DocumentStatus::Delivered, Some(350_000)),
            document(11, DocumentKind::Invoice, DocumentStatus::Delivered, Some(350_000)),
        ],
        projects: vec![],
        tasks: vec![],
        payments: vec![],
        follow_ups: vec![],
        employees: vec![],
        decisions: vec![],
    }
}

fn invalid(r: Result<Vec<AuditEntry>, WorkspaceError>) -> String {
    match r {
        Err(WorkspaceError::Invalid(m)) | Err(WorkspaceError::NotFound(m)) => m,
        _ => panic!("expected a refusal"),
    }
}

#[test]
fn the_profile_cleans_its_codes_and_defaults_its_year_end() {
    let mut ws = seeded();
    let input = VentureProfileInput {
        name: "Acme Consulting".into(),
        service: "Reporting sprints".into(),
        jurisdiction: "sg".into(),
        currency: "".into(),
        uen: "202412345A".into(),
        gst_registered: true,
        incorporated_at: Some(1_700_000_000),
        fiscal_year_end_month: Some(3),
        revenue_estimate_cents: Some(50_000_000),
    };
    let events = update_venture_profile(&mut ws, input.clone(), NOW).unwrap();
    assert_eq!(actions(&events), ["venture.update"]);
    let v = ws.venture.clone().unwrap();
    assert_eq!(v.jurisdiction, "SG");
    assert_eq!(v.currency, "SGD");
    assert!(v.gst_registered);
    assert_eq!(v.fiscal_year_end_month, 3);
    assert_eq!(v.uen, "202412345A");
    let bad = VentureProfileInput { jurisdiction: "singapore".into(), ..input.clone() };
    assert_eq!(invalid(update_venture_profile(&mut ws, bad, NOW)), "jurisdiction must be a 2–3 letter code");
    let bad = VentureProfileInput { fiscal_year_end_month: Some(13), ..input.clone() };
    assert_eq!(invalid(update_venture_profile(&mut ws, bad, NOW)), "fiscal_year_end_month must be 1-12");
    let bad = VentureProfileInput { uen: "x".repeat(33), ..input.clone() };
    assert_eq!(invalid(update_venture_profile(&mut ws, bad, NOW)), "uen is too long");
    let bad = VentureProfileInput { currency: "dollars".into(), ..input.clone() };
    assert_eq!(invalid(update_venture_profile(&mut ws, bad, NOW)), "currency must be a 3-letter code");
    assert_eq!(ws.venture.unwrap().fiscal_year_end_month, 3);
    let mut fresh = seeded();
    update_venture_profile(&mut fresh, VentureProfileInput { fiscal_year_end_month: None, ..input }, NOW).unwrap();
    assert_eq!(fresh.venture.unwrap().fiscal_year_end_month, 12);
}

#[test]
fn customer_edits_are_recorded_and_a_no_op_save_records_nothing() {
    let mut ws = seeded();
    let input = CustomerInput {
        name: "Acme Ltd".into(),
        email: "alex@example.com".into(),
        notes: "".into(),
        discovery_notes: "  Weekly reporting takes six hours.  ".into(),
        stage: None,
        jurisdiction: "sg".into(),
        personal_data_consent: true,
    };
    let events = update_customer(&mut ws, 1, input.clone(), NOW).unwrap();
    assert_eq!(actions(&events), ["customer.update"]);
    assert!(matches!(&events[0].payload, AuditPayload::FieldsChanged { changed }
        if changed == &["email", "discovery_notes", "jurisdiction", "personal_data_consent"]));
    let c = &ws.customers[0];
    assert_eq!(c.email, "alex@example.com");
    assert_eq!(c.jurisdiction, "SG");
    assert_eq!(c.discovery_notes, "Weekly reporting takes six hours.");
    assert!(c.personal_data_consent);
    assert_eq!(c.updated_at, NOW);
    assert!(update_customer(&mut ws, 1, input.clone(), NOW + 5).unwrap().is_empty());
    assert_eq!(ws.customers[0].updated_at, NOW);
    assert_eq!(invalid(update_customer(&mut ws, 9, input.clone(), NOW)), "customer not found");
    let bad = CustomerInput { discovery_notes: "a\u{7}b".into(), ..input };
    assert_eq!(invalid(update_customer(&mut ws, 1, bad, NOW)), "body contains control characters");
}

#[test]
fn draft_edits_bump_the_revision_and_sent_documents_stay_as_sent() {
    let mut ws = seeded();
    ws.documents.push(document(12, DocumentKind::Offer, DocumentStatus::Draft, None));
    let events = update_document(&mut ws, 12, "New title".into(), "Scope: assess and improve.", None, NOW).unwrap();
    assert_eq!(actions(&events), ["document.update"]);
    assert!(matches!(&events[0].payload, AuditPayload::DocumentRevised { changed, revision: 2 } if changed == &["title", "body"]));
    assert_eq!(ws.documents[2].revision, 2);
    assert_eq!(ws.documents[2].title, "New title");
    assert!(update_document(&mut ws, 12, "New title".into(), "Scope: assess and improve.", None, NOW).unwrap().is_empty());
    assert!(invalid(update_document(&mut ws, 10, "Changed after send".into(), "x", None, NOW)).contains("only drafts"));
    assert_eq!(ws.documents[0].title, "Reporting clarity sprint");
    ws.documents.push(document(13, DocumentKind::Invoice, DocumentStatus::Draft, Some(1000)));
    assert_eq!(invalid(update_document(&mut ws, 13, "Invoice".into(), "x", None, NOW)), "invoice needs an amount");
}

#[test]
fn accepting_a_sent_offer_promotes_the_lead_and_projects_close_only_when_done() {
    let mut ws = seeded();
    let events = record_offer_accepted(&mut ws, 10, NOW).unwrap();
    assert_eq!(actions(&events), ["offer.accepted", "customer.update"]);
    assert_eq!(ws.documents[0].accepted_at, Some(NOW));
    assert_eq!(ws.customers[0].stage, CustomerStage::Customer);
    assert_eq!(invalid(record_offer_accepted(&mut ws, 10, NOW)), "offer already accepted");
    assert_eq!(invalid(record_offer_accepted(&mut ws, 11, NOW)), "only offers can be accepted");

    add_project(&mut ws, 1, &"Reporting clarity sprint".to_owned(), Some(10), Some(350_000), 20, NOW).unwrap();
    assert_eq!(ws.projects[0].status, ProjectStatus::Proposed);
    assert_eq!(invalid(add_project(&mut ws, 1, &"x".to_owned(), Some(11), None, 21, NOW)), "offer does not belong to this customer");
    set_project_status(&mut ws, 20, ProjectStatus::Active, NOW).unwrap();
    assert_eq!(ws.projects[0].status, ProjectStatus::Active);
    assert!(set_project_status(&mut ws, 20, ProjectStatus::Active, NOW).unwrap().is_empty());

    add_task(&mut ws, 20, &"Interview the finance lead".to_owned(), Some(NOW + 86_400), 30, NOW).unwrap();
    assert_eq!(ws.tasks[0].origin, "founder");
    assert!(invalid(set_project_status(&mut ws, 20, ProjectStatus::Done, NOW)).contains("finish every task"));
    assert_eq!(actions(&complete_task(&mut ws, 30, NOW).unwrap()), ["task.done"]);
    assert!(complete_task(&mut ws, 30, NOW + 1).unwrap().is_empty());
    assert_eq!(ws.tasks[0].done_at, Some(NOW));
    set_project_status(&mut ws, 20, ProjectStatus::Done, NOW + 2).unwrap();
    assert_eq!(ws.projects[0].done_at, Some(NOW + 2));
    assert_eq!(invalid(set_project_status(&mut ws, 20, ProjectStatus::Active, NOW)), "a closed project cannot change status");
    assert_eq!(invalid(add_task(&mut ws, 20, &"late".to_owned(), None, 31, NOW)), "the project is closed");
}

#[test]
fn payments_never_exceed_the_invoice_and_receivables_add_up() {
    let mut ws = seeded();
    let owed = receivable_rows(&ws, NOW);
    assert_eq!(owed.len(), 1);
    assert_eq!(owed[0].outstanding_cents, 350_000);
    assert_eq!(owed[0].status, "open");
    assert_eq!(owed[0].customer_name, "Acme Ltd");

    let events = record_payment(&mut ws, 11, 100_000, NOW, &"deposit".to_owned(), 40, NOW).unwrap();
    assert!(matches!(&events[0].payload, AuditPayload::PaymentRecorded { amount_cents: 100_000, paid_total_cents: 100_000 }));
    assert_eq!(invalid(record_payment(&mut ws, 11, 300_000, NOW, &"too much".to_owned(), 41, NOW)), "payment exceeds the invoice amount");
    assert_eq!(invalid(record_payment(&mut ws, 11, 0, NOW, &"nothing".to_owned(), 41, NOW)), "payment must be positive");
    assert_eq!(invalid(record_payment(&mut ws, 11, 1, 0, &"".to_owned(), 41, NOW)), "received_at must be a unix timestamp");
    let owed = receivable_rows(&ws, NOW);
    assert_eq!(owed[0].paid_cents, 100_000);
    assert_eq!(owed[0].status, "partial");
    assert_eq!(receivable_rows(&ws, NOW + 2 * 86_400)[0].status, "overdue");
    record_payment(&mut ws, 11, 250_000, NOW, &"balance".to_owned(), 42, NOW).unwrap();
    let owed = receivable_rows(&ws, NOW);
    assert_eq!(owed[0].status, "paid");
    assert_eq!(owed[0].paid_cents + owed[0].outstanding_cents, owed[0].amount_cents);

    ws.documents.push(document(12, DocumentKind::Invoice, DocumentStatus::Draft, Some(1000)));
    assert_eq!(invalid(record_payment(&mut ws, 12, 100, NOW, &"".to_owned(), 43, NOW)), "only an issued invoice can receive payments");
    assert_eq!(receivable_rows(&ws, NOW).len(), 1);
    assert_eq!(ws.payments.len(), 2);
}

#[test]
fn follow_ups_are_dated_and_done_once() {
    let mut ws = seeded();
    assert_eq!(invalid(add_follow_up(&mut ws, 1, 0, &"x".to_owned(), 50, NOW)), "due_at must be a unix timestamp");
    assert_eq!(invalid(add_follow_up(&mut ws, 9, NOW, &"x".to_owned(), 50, NOW)), "customer not found");
    let events = add_follow_up(&mut ws, 1, NOW - 3600, &"chase the scoping call".to_owned(), 50, NOW).unwrap();
    assert!(matches!(&events[0].payload, AuditPayload::FollowUpCreate { customer_id: 1, origin, .. } if origin == "founder"));
    assert_eq!(actions(&complete_follow_up(&mut ws, 50, NOW).unwrap()), ["follow_up.done"]);
    assert!(complete_follow_up(&mut ws, 50, NOW + 1).unwrap().is_empty());
    assert_eq!(ws.follow_ups[0].done_at, Some(NOW));
}

fn event(at: i64, action: &str, resource: &str) -> LedgerEvent {
    LedgerEvent { at, action: action.into(), resource: resource.into() }
}

#[test]
fn the_timeline_lists_only_signed_events_about_the_customers_records() {
    let mut ws = seeded();
    add_project(&mut ws, 1, &"Sprint".to_owned(), Some(10), None, 20, NOW).unwrap();
    add_task(&mut ws, 20, &"Kick-off".to_owned(), None, 30, NOW).unwrap();
    add_follow_up(&mut ws, 1, NOW, &"call back".to_owned(), 50, NOW).unwrap();
    let subjects = timeline_subjects(&ws, 1).unwrap();
    let resources: Vec<&str> = subjects.iter().map(|(r, _)| r.as_str()).collect();
    let u = |id: u128| uuid::Uuid::from_u128(id).to_string();
    assert_eq!(
        resources,
        [
            format!("customer:{}", u(1)),
            format!("document:{}", u(10)),
            format!("document:{}", u(11)),
            format!("project:{}", u(20)),
            format!("task:{}", u(30)),
            format!("follow_up:{}", u(50)),
        ]
    );
    let events = vec![
        event(1, "customer.create", &format!("customer:{}", u(1))),
        event(2, "customer.create", &format!("customer:{}", u(2))),
        event(3, "task.create", &format!("task:{}", u(30))),
    ];
    let t = customer_timeline(&events, &subjects);
    assert_eq!(t.len(), 2);
    assert_eq!(t[0].subject, "Acme Ltd");
    assert_eq!(t[1].subject, "Kick-off");
    assert_eq!(t[1].at, 3);
    assert!(matches!(timeline_subjects(&ws, 9), Err(WorkspaceError::NotFound(m)) if m == "customer not found"));
}
