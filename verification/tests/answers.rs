use sovereign_cli::crew::{role_card, Rejection, RoleId};
use sovereign_cli::crew_answer::{
    answer_start, decision_title, settle_draft, validate_answer, AnalystAnswer, FindingAnswer,
    InvoiceAnswer, ModelAnswer, PlanAnswer, ProposalAnswer, ReviewAnswer, TaskAnswer,
};
use sovereign_cli::crew_draft::{
    deterministic_change, summarize_change, CustomerFacts, ProjectFacts, ProposedChange, RoleInput,
};
use sovereign_cli::crew_input::{build_input, RunSubject};
use sovereign_cli::erp::{CustomerStage, Project, ProjectStatus, Task};
use sovereign_cli::types::{Customer, Document, DocumentKind, DocumentStatus, Venture, Workspace, WorkspaceError};

fn facts() -> CustomerFacts {
    CustomerFacts {
        id: 5,
        name: "Acme Ltd".into(),
        stage: CustomerStage::Customer,
        notes: String::new(),
        discovery_notes: "budget SGD 3,000–5,000".into(),
        has_offer: false,
    }
}

fn input(role: RoleId) -> RoleInput {
    RoleInput {
        role,
        lang: "en".into(),
        venture_name: "North Star".into(),
        service: "Reporting sprint".into(),
        currency: "SGD".into(),
        gst_registered: false,
        customer: Some(facts()),
        document: None,
        project: None,
        evidence: vec![],
    }
}

fn proposal(title: &str, body: &str, amount: Option<&str>, assumptions: usize) -> ModelAnswer {
    ModelAnswer::Proposal(ProposalAnswer {
        title: title.into(),
        body: body.into(),
        amount: amount.map(|a| a.into()),
        assumptions: (0..assumptions).map(|_| "a".to_owned()).collect(),
    })
}

#[test]
fn model_output_is_validated_before_it_becomes_a_proposal() {
    let i = input(RoleId::ProposalWriter);
    assert_eq!(
        validate_answer(&i, &proposal("x", "y", Some("abc"), 0)).unwrap_err(),
        Rejection::Field("amount")
    );
    match validate_answer(&i, &proposal(" x ", "y", Some(" null "), 0)).unwrap() {
        ProposedChange::OfferDraft { title, amount_cents, .. } => {
            assert_eq!(title, "x");
            assert_eq!(amount_cents, None);
        }
        _ => panic!("wrong kind"),
    }
    assert_eq!(
        validate_answer(&i, &proposal("", "y", None, 0)).unwrap_err(),
        Rejection::Field("title")
    );
    assert_eq!(
        validate_answer(&i, &proposal("x", "y", None, 13)).unwrap_err(),
        Rejection::Field("assumptions")
    );
    assert_eq!(answer_start("no json here").unwrap_err(), Rejection::NotJson);
    assert_eq!(answer_start("prose {\"a\":1} more").unwrap(), "{\"a\":1} more");

    let plan = input(RoleId::DeliveryPlanner);
    let plan_answer = |days: u32| {
        ModelAnswer::Plan(PlanAnswer {
            project_name: "p".into(),
            tasks: vec![TaskAnswer { title: "t".into(), due_in_days: days }],
            acceptance_criteria: vec![],
        })
    };
    assert_eq!(validate_answer(&plan, &plan_answer(0)).unwrap_err(), Rejection::Field("due_in_days"));
    assert!(validate_answer(&plan, &plan_answer(3)).is_ok());
    let empty = ModelAnswer::Plan(PlanAnswer { project_name: "p".into(), tasks: vec![], acceptance_criteria: vec![] });
    assert_eq!(validate_answer(&plan, &empty).unwrap_err(), Rejection::ListSize("tasks"));
}

#[test]
fn answers_in_the_wrong_shape_or_without_a_subject_are_refused() {
    let mut i = input(RoleId::Analyst);
    assert_eq!(
        validate_answer(&i, &proposal("x", "y", None, 0)).unwrap_err(),
        Rejection::WrongShape
    );
    let analyst = ModelAnswer::Analyst(AnalystAnswer {
        problems: vec!["slow reports".into()],
        constraints: vec![],
        budget: "  ".into(),
        open_questions: vec![],
        assumptions: vec![],
    });
    match validate_answer(&i, &analyst).unwrap() {
        ProposedChange::DiscoverySummary { budget, problems, .. } => {
            assert_eq!(budget, "not stated");
            assert_eq!(problems, vec!["slow reports"]);
        }
        _ => panic!("wrong kind"),
    }
    i.customer = None;
    assert_eq!(validate_answer(&i, &analyst).unwrap_err(), Rejection::MissingSubject("customer"));
    let c = input(RoleId::ComplianceChecker);
    assert_eq!(validate_answer(&c, &analyst).unwrap_err(), Rejection::NoModelPath);
}

#[test]
fn invoice_and_review_answers_are_checked_field_by_field() {
    let mut i = input(RoleId::InvoiceClerk);
    let invoice = |amount: &str, days: u32| {
        ModelAnswer::Invoice(InvoiceAnswer { title: "Invoice".into(), body: "Work done".into(), amount: amount.into(), due_in_days: days })
    };
    assert_eq!(validate_answer(&i, &invoice("10", 30)).unwrap_err(), Rejection::MissingSubject("project"));
    i.project = Some(ProjectFacts {
        id: 3,
        name: "Sprint".into(),
        status: ProjectStatus::Done,
        budget_cents: None,
        tasks_total: 0,
        tasks_open: 0,
        offer_amount_cents: None,
    });
    assert_eq!(validate_answer(&i, &invoice("0", 30)).unwrap_err(), Rejection::Field("amount"));
    assert_eq!(validate_answer(&i, &invoice("1,000", 30)).unwrap_err(), Rejection::Field("amount"));
    assert_eq!(validate_answer(&i, &invoice("10", 366)).unwrap_err(), Rejection::Field("due_in_days"));
    match validate_answer(&i, &invoice(" 4000.5 ", 14)).unwrap() {
        ProposedChange::InvoiceDraft { amount_cents, due_in_days, project_id, .. } => {
            assert_eq!(amount_cents, 400_050);
            assert_eq!(due_in_days, 14);
            assert_eq!(project_id, Some(3));
        }
        _ => panic!("wrong kind"),
    }
    let mut r = input(RoleId::QualityChecker);
    let review = |kind: &str| {
        ModelAnswer::Review(ReviewAnswer { findings: vec![FindingAnswer { kind: kind.into(), detail: "Quote: TBD".into() }] })
    };
    assert_eq!(validate_answer(&r, &review("gap")).unwrap_err(), Rejection::MissingSubject("document"));
    r.document = Some(sovereign_cli::crew_draft::DocumentFacts {
        id: 8,
        kind: DocumentKind::Offer,
        title: "Offer".into(),
        body: String::new(),
        amount_cents: None,
        status: DocumentStatus::Draft,
        revision: 1,
        accepted: false,
    });
    assert_eq!(validate_answer(&r, &review("nit")).unwrap_err(), Rejection::Field("finding.kind"));
    match validate_answer(&r, &review(" Placeholder ")).unwrap() {
        ProposedChange::ReviewFindings { findings, .. } => assert_eq!(findings[0].kind, "placeholder"),
        _ => panic!("wrong kind"),
    }
}

#[test]
fn a_stand_in_never_replaces_the_template_and_a_refused_answer_is_noted() {
    let i = input(RoleId::ProposalWriter);
    let (template, summary) = deterministic_change(&i).unwrap();
    let (change, s, backed) = settle_draft(&i, template.clone(), summary.clone(), "local-drafter", Some(Ok(proposal("x", "y", None, 0))), false);
    assert!(!backed);
    assert_eq!(s, summary);
    assert!(matches!(change, ProposedChange::OfferDraft { .. }));
    let (_, s, backed) = settle_draft(&i, template.clone(), summary.clone(), "ollama:qwen", Some(Ok(proposal("", "y", None, 0))), false);
    assert!(!backed);
    assert_eq!(s, format!("{summary} The model's output failed validation, so the template draft is used."));
    let (change, s, backed) = settle_draft(&i, template, summary, "ollama:qwen", Some(Ok(proposal("T", "B", Some("12.30"), 0))), false);
    assert!(backed);
    assert_eq!(s, "The model drafted \"T\" (12.30).");
    assert_eq!(summarize_change(&change, true), "模型起草了方案“T”(12.30)。");
    let card = role_card(RoleId::ProposalWriter);
    assert_eq!(decision_title(&card, &i, false), format!("{} · Acme Ltd", card.title_en));
}

fn venture() -> Venture {
    Venture {
        name: "North Star".into(),
        service: "Reporting sprint".into(),
        updated_at: 0,
        jurisdiction: "SG".into(),
        currency: "SGD".into(),
        uen: String::new(),
        gst_registered: true,
        incorporated_at: None,
        fiscal_year_end_month: 12,
        revenue_estimate_cents: None,
    }
}

fn customer(id: u128, name: &str) -> Customer {
    Customer {
        id,
        name: name.into(),
        email: String::new(),
        notes: "n".into(),
        created_at: 0,
        stage: CustomerStage::Customer,
        discovery_notes: String::new(),
        jurisdiction: String::new(),
        personal_data_consent: false,
        updated_at: 0,
    }
}

fn offer(id: u128, customer: u128, created_at: i64, accepted: bool) -> Document {
    Document {
        id,
        kind: DocumentKind::Offer,
        customer_id: customer,
        title: format!("Offer {id}"),
        body: String::new(),
        amount_cents: Some(100),
        status: DocumentStatus::Delivered,
        created_at,
        updated_at: created_at,
        revision: 1,
        due_at: None,
        project_id: None,
        accepted_at: if accepted { Some(created_at) } else { None },
    }
}

fn project(id: u128, customer: u128, offer: Option<u128>, done_at: Option<i64>) -> Project {
    Project {
        id,
        customer_id: customer,
        offer_id: offer,
        name: format!("Project {id}"),
        status: if done_at.is_some() { ProjectStatus::Done } else { ProjectStatus::Active },
        budget_cents: Some(500),
        created_at: 0,
        updated_at: 0,
        done_at,
        acceptance_criteria: Vec::new(),
    }
}

fn task(project: u128, done: bool) -> Task {
    Task { id: 0, project_id: project, title: "t".into(), due_at: None, done_at: if done { Some(1) } else { None }, created_at: 0, origin: "founder".into() }
}

fn subject(customer: Option<u128>, document: Option<u128>, project: Option<u128>) -> RunSubject {
    RunSubject { customer_id: customer, document_id: document, project_id: project }
}

fn message(r: Result<RoleInput, WorkspaceError>) -> String {
    match r {
        Err(WorkspaceError::Invalid(m)) | Err(WorkspaceError::NotFound(m)) => m,
        _ => panic!("expected an error"),
    }
}

#[test]
fn the_planner_reads_the_customers_preferred_offer_and_its_project() {
    let ws = Workspace {
        venture: Some(venture()),
        customers: vec![customer(1, "Acme"), customer(2, "Beta")],
        documents: vec![offer(10, 1, 5, true), offer(11, 1, 9, false), offer(12, 1, 3, true), offer(13, 2, 50, true)],
        projects: vec![project(20, 1, Some(10), None)],
        tasks: vec![task(20, false), task(20, true), task(21, false)],
        payments: vec![],
        follow_ups: vec![],
        employees: vec![],
        decisions: vec![],
    };
    let i = build_input(&ws, RoleId::DeliveryPlanner, subject(Some(1), None, None), "zh-TW").unwrap();
    assert_eq!(i.lang, "zh");
    let d = i.document.as_ref().unwrap();
    assert_eq!(d.id, 10);
    assert!(d.accepted);
    let p = i.project.as_ref().unwrap();
    assert_eq!((p.tasks_total, p.tasks_open), (2, 1));
    assert_eq!(p.offer_amount_cents, Some(100));
    assert!(i.customer.as_ref().unwrap().has_offer);
    assert_eq!(i.evidence, vec!["venture.name", "venture.service", "offer.title", "offer.body", "customer.discovery_notes"]);
    assert_eq!(
        message(build_input(&ws, RoleId::DeliveryPlanner, subject(Some(1), Some(13), None), "en")),
        "that document is not this customer's offer"
    );
    assert_eq!(message(build_input(&ws, RoleId::Analyst, subject(None, None, None), "en")), "choose a customer for this employee");
    assert_eq!(message(build_input(&ws, RoleId::Analyst, subject(Some(9), None, None), "en")), "customer not found");
}

#[test]
fn the_clerk_reads_the_latest_finished_project() {
    let ws = Workspace {
        venture: Some(venture()),
        customers: vec![customer(1, "Acme")],
        documents: vec![],
        projects: vec![project(20, 1, None, Some(7)), project(21, 1, None, Some(9)), project(22, 1, None, None)],
        tasks: vec![],
        payments: vec![],
        follow_ups: vec![],
        employees: vec![],
        decisions: vec![],
    };
    let i = build_input(&ws, RoleId::InvoiceClerk, subject(Some(1), None, None), "en").unwrap();
    assert_eq!(i.project.as_ref().unwrap().id, 21);
    assert_eq!(message(build_input(&ws, RoleId::InvoiceClerk, subject(None, None, None), "en")), "choose a finished project for this employee");
    assert_eq!(message(build_input(&ws, RoleId::InvoiceClerk, subject(Some(2), None, None), "en")), "no finished project for this customer yet");
    let mut none = ws.clone();
    none.venture = None;
    assert_eq!(message(build_input(&none, RoleId::ComplianceChecker, subject(None, None, None), "en")), "set up the company profile first");
    let c = build_input(&ws, RoleId::ComplianceChecker, subject(None, None, None), "en").unwrap();
    assert_eq!(c.evidence.len(), 6);
}
