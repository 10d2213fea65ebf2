use sovereign_cli::amounts::parse_amount_cents;
use sovereign_cli::crew::RoleId;
use sovereign_cli::crew_draft::{
    deterministic_change, CustomerFacts, DocumentFacts, ProjectFacts, ProposedChange, RoleInput,
};
use sovereign_cli::erp::{CustomerStage, ProjectStatus};
use sovereign_cli::types::{DocumentKind, DocumentStatus, WorkspaceError};

fn customer(discovery: &str, notes: &str) -> CustomerFacts {
    CustomerFacts {
        id: 5,
        name: "Acme Ltd".into(),
        stage: CustomerStage::Lead,
        notes: notes.into(),
        discovery_notes: discovery.into(),
        has_offer: false,
    }
}

fn input(role: RoleId, lang: &str) -> RoleInput {
    RoleInput {
        role,
        lang: lang.into(),
        venture_name: "North Star".into(),
        service: "Reporting sprint".into(),
        currency: "SGD".into(),
        gst_registered: false,
        customer: None,
        document: None,
        project: None,
        evidence: vec![],
    }
}

fn refused(r: Result<(ProposedChange, String), WorkspaceError>) -> String {
    match r {
        Err(WorkspaceError::Invalid(m)) => m,
        _ => panic!("expected a refusal"),
    }
}

#[test]
fn the_analyst_sorts_sentences_into_budget_constraints_and_problems() {
    let mut i = input(RoleId::Analyst, "en");
    assert_eq!(refused(deterministic_change(&i)), "choose a customer");
    i.customer = Some(customer(
        "Weekly reporting takes six hours. Budget SGD 3,000-5,000. Must launch by March",
        "Reports arrive late",
    ));
    let (change, summary) = deterministic_change(&i).unwrap();
    match change {
        ProposedChange::DiscoverySummary { customer_id, problems, constraints, budget, open_questions, assumptions } => {
            assert_eq!(customer_id, 5);
            assert_eq!(problems, vec!["Weekly reporting takes six hours", "Reports arrive late"]);
            assert_eq!(constraints, vec!["Must launch by March"]);
            assert_eq!(budget, "Budget SGD 3,000-5,000");
            assert_eq!(open_questions.len(), 3);
            assert_eq!(assumptions.len(), 1);
        }
        _ => panic!("wrong kind"),
    }
    assert_eq!(
        summary,
        "Sorted Acme Ltd's notes into 2 problem(s) and 1 constraint(s); budget: Budget SGD 3,000-5,000. Template analysis, not a model's."
    );
    i.customer = Some(customer("", ""));
    let (change, _) = deterministic_change(&i).unwrap();
    match change {
        ProposedChange::DiscoverySummary { budget, open_questions, .. } => {
            assert_eq!(budget, "not stated");
            assert_eq!(open_questions[0], "Capture discovery notes first; there is nothing to analyse yet.");
            assert_eq!(open_questions.len(), 4);
        }
        _ => panic!("wrong kind"),
    }
}

#[test]
fn the_proposal_writer_prices_at_the_budget_midpoint() {
    let mut i = input(RoleId::ProposalWriter, "en");
    i.customer = Some(customer("budget SGD 3,000–5,000", ""));
    let (change, summary) = deterministic_change(&i).unwrap();
    match change {
        ProposedChange::OfferDraft { title, body, amount_cents, .. } => {
            assert_eq!(title, "Proposal — Reporting sprint for Acme Ltd");
            assert_eq!(amount_cents, Some(400_000));
            assert!(body.starts_with("PROPOSAL (DRAFT — prepared by the AI Proposal Writer; review before sending)\n\nContext\nbudget SGD 3,000–5,000\n\nScope\n"));
            assert!(body.contains("Investment\nSGD 4000.00\n"));
        }
        _ => panic!("wrong kind"),
    }
    assert_eq!(summary, "Drafted a proposal for Acme Ltd (SGD 4000.00). Template draft, not a model's.");
    i.lang = "zh".into();
    i.customer = Some(customer(" ", ""));
    let (change, _) = deterministic_change(&i).unwrap();
    match change {
        ProposedChange::OfferDraft { title, body, amount_cents, .. } => {
            assert_eq!(title, "方案 — North Star 为 Acme Ltd 提供Reporting sprint");
            assert_eq!(amount_cents, None);
            assert!(body.contains("背景\n(尚无需求记录)\n"));
            assert!(body.contains("金额待确认"));
        }
        _ => panic!("wrong kind"),
    }
}

#[test]
fn the_planner_names_the_project_after_the_offer() {
    let mut i = input(RoleId::DeliveryPlanner, "en");
    i.customer = Some(customer("", ""));
    i.document = Some(DocumentFacts {
        id: 9,
        kind: DocumentKind::Offer,
        title: "Proposal — Reporting sprint for Acme Ltd".into(),
        body: String::new(),
        amount_cents: None,
        status: DocumentStatus::Delivered,
        revision: 1,
        accepted: true,
    });
    let (change, summary) = deterministic_change(&i).unwrap();
    match change {
        ProposedChange::DeliveryPlan { offer_id, project_id, project_name, tasks, acceptance_criteria, .. } => {
            assert_eq!(offer_id, Some(9));
            assert_eq!(project_id, None);
            assert_eq!(project_name, "Reporting sprint for Acme Ltd");
            assert_eq!(tasks.len(), 6);
            assert_eq!(tasks[0].title, "Kickoff and scoping call");
            assert_eq!(tasks[5].due_in_days, 28);
            assert_eq!(acceptance_criteria.len(), 3);
        }
        _ => panic!("wrong kind"),
    }
    assert_eq!(summary, "Planned 6 dated tasks and 3 acceptance criteria for Reporting sprint for Acme Ltd. Template plan, not a model's.");
}

#[test]
fn the_invoice_clerk_needs_a_project_with_an_amount() {
    let mut i = input(RoleId::InvoiceClerk, "en");
    i.customer = Some(customer("", ""));
    assert_eq!(refused(deterministic_change(&i)), "choose a finished project");
    let mut project = ProjectFacts {
        id: 3,
        name: "Sprint".into(),
        status: ProjectStatus::Done,
        budget_cents: Some(0),
        tasks_total: 0,
        tasks_open: 0,
        offer_amount_cents: None,
    };
    i.project = Some(project.clone());
    assert_eq!(
        refused(deterministic_change(&i)),
        "the project has no offer amount or budget; set one before invoicing"
    );
    project.budget_cents = Some(250_000);
    i.project = Some(project);
    let (change, summary) = deterministic_change(&i).unwrap();
    match change {
        ProposedChange::InvoiceDraft { project_id, title, body, amount_cents, due_in_days, .. } => {
            assert_eq!(project_id, Some(3));
            assert_eq!(title, "Invoice — Sprint");
            assert_eq!(amount_cents, 250_000);
            assert_eq!(due_in_days, 30);
            assert!(body.ends_with("Payment terms: 30 days\nNot GST-registered.\n"));
        }
        _ => panic!("wrong kind"),
    }
    assert_eq!(summary, "Drafted an invoice for Sprint (SGD 2500.00). Template draft, not a model's.");
}

#[test]
fn the_quality_checker_lists_gaps_and_placeholders() {
    let mut i = input(RoleId::QualityChecker, "en");
    assert_eq!(refused(deterministic_change(&i)), "choose a draft");
    i.customer = Some(customer("", ""));
    i.document = Some(DocumentFacts {
        id: 4,
        kind: DocumentKind::Offer,
        title: "Draft".into(),
        body: "Fees TBD".into(),
        amount_cents: None,
        status: DocumentStatus::Draft,
        revision: 2,
        accepted: false,
    });
    let (change, summary) = deterministic_change(&i).unwrap();
    match change {
        ProposedChange::ReviewFindings { document_id, findings } => {
            assert_eq!(document_id, 4);
            let kinds: Vec<&str> = findings.iter().map(|f| f.kind.as_str()).collect();
            assert_eq!(kinds, vec!["gap", "gap", "placeholder", "gap", "risk"]);
        }
        _ => panic!("wrong kind"),
    }
    assert_eq!(summary, "Checked \"Draft\" (revision 2): 5 finding(s). Template check, not a model's.");
}

#[test]
fn the_compliance_checker_has_no_template() {
    let i = input(RoleId::ComplianceChecker, "en");
    assert_eq!(refused(deterministic_change(&i)), "the compliance checker runs from the Compliance page");
}

#[test]
fn amounts_are_decimals_with_at_most_two_places() {
    assert_eq!(parse_amount_cents("3500.00").unwrap(), 350_000);
    assert_eq!(parse_amount_cents("5000").unwrap(), 500_000);
    assert_eq!(parse_amount_cents(" 12.5 ").unwrap(), 1_250);
    assert_eq!(parse_amount_cents("7.").unwrap(), 700);
    assert_eq!(parse_amount_cents("9999999999999999").unwrap(), 999_999_999_999_999_900);
    assert_eq!(parse_amount_cents("184467440737095516.15").unwrap(), u64::MAX);
    for bad in ["", "abc", "-1", "1.001", ".5", "1,000", "1.2.3", "184467440737095517"] {
        assert!(parse_amount_cents(bad).is_err(), "{bad}");
    }
}
