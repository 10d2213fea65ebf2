use sovereign_cli::calendar::{add_months, last_financial_year_end, Date};
use sovereign_cli::checks::{check_rule, Facts};
use sovereign_cli::compliance::{ComplianceFinding, FindingStatus};
use sovereign_cli::compliance_pack::singapore_demo_pack;
use sovereign_cli::compose::render_document;
use sovereign_cli::crew::Rejection;
use sovereign_cli::erp::{CustomerStage, Payment};
use sovereign_cli::report::{
    assess, check_summary, checked_profile, json_object_span, keep_report, parse_rejection, search_rules,
    Assessment, JsonFault, MAX_COMPLIANCE_REPORTS,
};
use sovereign_cli::types::{Customer, Document, DocumentKind, DocumentStatus, Venture, Workspace};

fn date(year: i32, month: u32, day: u32) -> Date {
    Date { year, month, day }
}

fn financial_year_math() {
    let today = date(2026, 9, 10);
    assert_eq!(last_financial_year_end(today, 12), date(2025, 12, 31));
    assert_eq!(last_financial_year_end(today, 6), date(2026, 6, 30));
    assert_eq!(add_months(date(2025, 12, 31), 3), date(2026, 3, 31));
    assert_eq!(add_months(date(2026, 1, 31), 1), date(2026, 2, 28));
}

#[test]
fn compliance_financial_year_math_is_calendar_correct() {
    financial_year_math();
}

#[test]
fn tests_financial_year_math_is_calendar_correct() {
    financial_year_math();
}

/// A model answer read the way the runtime reads it: the object span, the
/// JSON parse, then the field checks.
fn validate_summary(text: &str, allowed: &Vec<String>) -> Result<String, Rejection> {
    let span = json_object_span(text)?;
    let value: serde_json::Value = serde_json::from_str(&span).map_err(|error| {
        parse_rejection(match error.classify() {
            serde_json::error::Category::Eof => JsonFault::Eof,
            serde_json::error::Category::Data => JsonFault::Data,
            serde_json::error::Category::Io => JsonFault::Io,
            serde_json::error::Category::Syntax => JsonFault::Syntax,
        })
    })?;
    let summary = value
        .get("summary")
        .and_then(|s| s.as_str())
        .ok_or(Rejection::WrongShape)?;
    check_summary(summary, allowed)
}

fn model_summaries() {
    let allowed = vec!["SG-GST-01".to_owned()];
    assert!(validate_summary(r#"{"summary":"Register for GST (SG-GST-01)."}"#, &allowed).is_ok());
    assert_eq!(
        validate_summary(r#"{"summary":"See SG-FAKE-99."}"#, &allowed).unwrap_err(),
        Rejection::Field("citation")
    );
    assert_eq!(validate_summary("no json", &allowed).unwrap_err(), Rejection::NotJson);
    assert_eq!(
        validate_summary(r#"{"summary":""}"#, &allowed).unwrap_err(),
        Rejection::Field("summary")
    );
}

#[test]
fn compliance_model_summaries_may_only_cite_retrieved_rules() {
    model_summaries();
}

#[test]
fn tests_model_summaries_may_only_cite_retrieved_rules() {
    model_summaries();
}

#[test]
fn summary_checks_trim_bound_and_refuse_control_characters() {
    let allowed = vec!["SG-GST-01".to_owned()];
    assert_eq!(check_summary("  ok  ", &allowed).unwrap(), "ok");
    assert_eq!(check_summary(&"a".repeat(2001), &allowed).unwrap_err(), Rejection::Field("summary"));
    assert!(check_summary(&"a".repeat(2000), &allowed).is_ok());
    assert_eq!(check_summary("bad\u{7}bell", &allowed).unwrap_err(), Rejection::Field("summary"));
    assert!(check_summary("two\nlines", &allowed).is_ok());
    assert_eq!(json_object_span("x } {").unwrap_err(), Rejection::NotJson);
    assert_eq!(json_object_span("a {b} c {d} e").unwrap(), "{b} c {d}");
}

fn venture(jurisdiction: &str, gst: bool, revenue: Option<u64>, incorporated_at: Option<i64>) -> Venture {
    Venture {
        name: "Acme Consulting".into(),
        service: "Reporting clarity sprints".into(),
        updated_at: 0,
        jurisdiction: jurisdiction.into(),
        currency: "SGD".into(),
        uen: String::new(),
        gst_registered: gst,
        incorporated_at,
        fiscal_year_end_month: 12,
        revenue_estimate_cents: revenue,
    }
}

fn customer(id: u128, name: &str, email: &str, jurisdiction: &str, consent: bool) -> Customer {
    Customer {
        id,
        name: name.into(),
        email: email.into(),
        notes: String::new(),
        created_at: 0,
        stage: CustomerStage::Customer,
        discovery_notes: String::new(),
        jurisdiction: jurisdiction.into(),
        personal_data_consent: consent,
        updated_at: 0,
    }
}

fn workspace(v: &Venture, customers: Vec<Customer>, documents: Vec<Document>, payments: Vec<Payment>) -> Workspace {
    Workspace {
        venture: Some(v.clone()),
        customers,
        documents,
        projects: vec![],
        tasks: vec![],
        payments,
        follow_ups: vec![],
        employees: vec![],
        decisions: vec![],
    }
}

/// 2026-05-28 12:26:40 UTC.
const NOW: i64 = 1_780_000_000;

fn status_of(a: &Assessment, rule_id: &str) -> FindingStatus {
    finding(a, rule_id).status
}

fn finding<'a>(a: &'a Assessment, rule_id: &str) -> &'a ComplianceFinding {
    a.findings
        .iter()
        .find(|f| f.rule_id == rule_id)
        .unwrap_or_else(|| panic!("no finding for {rule_id}"))
}

#[test]
fn an_unknown_jurisdiction_yields_an_unknown_assessment_and_never_a_pass() {
    let v = venture("", false, None, None);
    let ws = workspace(&v, vec![], vec![], vec![]);
    let a = assess(&ws, &v, NOW, None, false).unwrap();
    assert_eq!(a.coverage, "unknown_jurisdiction");
    assert_eq!(a.overall, "unknown");
    assert_eq!(a.findings.len(), 1);
    assert_eq!(a.findings[0].rule_id, "SG-COV-01");
    assert_eq!(a.findings[0].status, FindingStatus::Unknown);
    assert!(a.pack_id.is_empty());
}

#[test]
fn an_uncovered_jurisdiction_is_reported_not_guessed() {
    let v = venture("US", false, None, None);
    let ws = workspace(&v, vec![], vec![], vec![]);
    let a = assess(&ws, &v, NOW, None, true).unwrap();
    assert_eq!(a.coverage, "not_covered");
    assert_eq!(a.overall, "not_covered");
    assert_eq!(a.findings[0].status, FindingStatus::Unknown);
    assert!(a.findings[0].detail.contains("US"));
    assert_eq!(a.retrieved_rule_ids, vec!["COVERAGE"]);
}

#[test]
fn a_singapore_company_is_checked_for_gst_pdpa_contracts_and_deadlines() {
    let v = venture("sg", false, Some(120_000_000), Some(1_705_276_800));
    let acme = customer(1, "Acme Ltd", "alex@example.com", "", false);
    let berlin = customer(2, "Berlin GmbH", "", "DE", false);
    let mut offer = render_document(DocumentKind::Offer, &v, &acme, None, false, 10, 0);
    offer.status = DocumentStatus::Delivered;
    let ws = workspace(&v, vec![acme, berlin], vec![offer], vec![]);
    let a = assess(&ws, &v, NOW, None, false).unwrap();
    assert_eq!(a.coverage, "covered");
    assert_eq!(a.pack_id, "sg-consulting-demo");
    assert!(a.review_status.contains("Unreviewed"));
    assert_eq!(a.overall, "attention");
    // SG-COV-01 needs the jurisdiction as written, not its case.
    assert_eq!(status_of(&a, "SG-COV-01"), FindingStatus::Pass);
    assert_eq!(status_of(&a, "SG-GST-01"), FindingStatus::Attention);
    assert!(finding(&a, "SG-GST-01").detail.contains("SGD 1200000.00"));
    let pdpa = finding(&a, "SG-PDPA-01");
    assert_eq!(pdpa.status, FindingStatus::Attention);
    assert!(pdpa.detail.contains("1 of 1"));
    assert_eq!(status_of(&a, "SG-PDPA-02"), FindingStatus::NeedsReview);
    assert_eq!(status_of(&a, "SG-REC-01"), FindingStatus::NeedsReview);
    let contract = finding(&a, "SG-CON-01");
    assert_eq!(contract.status, FindingStatus::Attention);
    assert!(contract.detail.contains("confidentiality"));
    assert!(contract.detail.contains("liability"));
    let cross = finding(&a, "SG-COV-02");
    assert_eq!(cross.status, FindingStatus::NeedsReview);
    assert!(cross.detail.contains("Berlin GmbH (DE)"));
    // Financial year ended 2025-12-31: ECI was due 2026-03-31, the annual
    // return is due 2026-07-31, and May is outside the tax filing window.
    assert_eq!(status_of(&a, "SG-CIT-01"), FindingStatus::NeedsReview);
    assert!(finding(&a, "SG-CIT-01").detail.contains("2026-03-31"));
    assert_eq!(status_of(&a, "SG-ACRA-01"), FindingStatus::Attention);
    assert!(finding(&a, "SG-ACRA-01").detail.contains("2026-06-30"));
    assert_eq!(status_of(&a, "SG-CIT-02"), FindingStatus::Pass);
    assert!(a.findings.iter().all(|f| f.rule_id != "SG-GST-03"));
    assert!(a.findings.iter().all(|f| !f.source_title.is_empty() && !f.facts_used.is_empty()));
    assert!(a.findings.iter().any(|f| f.source_url.contains("iras.gov.sg")));
    for f in &a.findings {
        assert!(a.retrieved_rule_ids.contains(&f.rule_id));
    }
}

#[test]
fn receipts_of_the_last_year_count_toward_the_gst_threshold() {
    let v = venture("SG", false, None, None);
    let payment = |id: u128, amount: u64, at: i64| Payment {
        id,
        invoice_id: 0,
        amount_cents: amount,
        received_at: at,
        note: String::new(),
        created_at: at,
    };
    let old = payment(1, 90_000_000, NOW - 400 * 86_400);
    let recent = payment(2, 100_000_000, NOW - 10 * 86_400);
    // A payment older than a year does not count: with no estimate and no
    // recent receipts the threshold cannot be checked.
    let ws = workspace(&v, vec![], vec![], vec![old.clone()]);
    let a = assess(&ws, &v, NOW, None, false).unwrap();
    assert_eq!(status_of(&a, "SG-GST-01"), FindingStatus::NeedsReview);
    let small = payment(3, 5_000, NOW - 86_400);
    let ws = workspace(&v, vec![], vec![], vec![small]);
    let a = assess(&ws, &v, NOW, None, false).unwrap();
    assert_eq!(status_of(&a, "SG-GST-01"), FindingStatus::Pass);
    let ws = workspace(&v, vec![], vec![], vec![old, recent]);
    let a = assess(&ws, &v, NOW, None, false).unwrap();
    assert_eq!(status_of(&a, "SG-GST-01"), FindingStatus::Attention);
}

#[test]
fn an_invoice_subject_checks_essentials_and_gst_particulars() {
    let mut v = venture("SG", true, None, Some(1_705_276_800));
    let acme = customer(1, "Acme Ltd", "alex@example.com", "", true);
    let invoice = render_document(DocumentKind::Invoice, &v, &acme, Some(350_000), false, 11, 0);
    let ws = workspace(&v, vec![acme.clone()], vec![invoice.clone()], vec![]);
    let a = assess(&ws, &v, NOW, Some(&invoice), false).unwrap();
    let ids: Vec<&str> = a.findings.iter().map(|f| f.rule_id.as_str()).collect();
    assert!(ids.contains(&"SG-INV-01") && ids.contains(&"SG-GST-02"));
    assert!(!ids.contains(&"SG-GST-01") && !ids.contains(&"SG-PDPA-01"));
    assert_eq!(status_of(&a, "SG-INV-01"), FindingStatus::Pass);
    let gst = finding(&a, "SG-GST-02");
    assert_eq!(gst.status, FindingStatus::Attention);
    assert!(gst.detail.contains("UEN"));

    v.uen = "202401234A".into();
    let mut updated = invoice.clone();
    updated.body = format!("{}\nGST: to be added per IRAS tax invoice rules.", invoice.body);
    let ws = workspace(&v, vec![acme], vec![updated.clone()], vec![]);
    let a = assess(&ws, &v, NOW, Some(&updated), true).unwrap();
    assert_eq!(status_of(&a, "SG-GST-02"), FindingStatus::NeedsReview);
    assert_eq!(a.overall, "needs_review");
}

#[test]
fn an_invoice_missing_its_essentials_lists_them() {
    let v = venture("SG", false, None, None);
    let acme = customer(1, "Acme Ltd", "", "", true);
    let mut invoice = render_document(DocumentKind::Invoice, &v, &acme, None, false, 11, 0);
    invoice.body = "Thanks".into();
    let ws = workspace(&v, vec![acme], vec![invoice.clone()], vec![]);
    let pack = singapore_demo_pack();
    let facts = Facts::new(&ws, &v, NOW, Some(&invoice));
    let f = check_rule(&pack.rules[4], &facts, false).unwrap();
    assert_eq!(f.rule_id, "SG-INV-01");
    assert_eq!(
        f.detail,
        "The invoice is missing: the company name, the customer name, an amount, a description of what was delivered."
    );
}

#[test]
fn rule_search_returns_citations() {
    let hits = search_rules("GST registration threshold", "en");
    assert_eq!(hits[0].rule_id, "SG-GST-01");
    assert!(hits[0].source_url.starts_with("https://www.iras.gov.sg/"));
    assert!(hits[0].matched.contains(&"gst".to_owned()));
    assert!(search_rules("", "en").is_empty());
    assert_eq!(search_rules("个人资料 同意", "zh-CN")[0].rule_id, "SG-PDPA-01");
}

#[test]
fn months_are_added_across_several_years() {
    assert_eq!(add_months(date(2024, 1, 31), 25), date(2026, 2, 28));
    assert_eq!(add_months(date(2023, 11, 30), 27), date(2026, 2, 28));
    assert_eq!(add_months(date(2024, 2, 29), 48), date(2028, 2, 29));
    assert_eq!(add_months(date(2024, 5, 15), 0), date(2024, 5, 15));
}

#[test]
fn the_year_end_used_is_the_latest_one_passed() {
    assert_eq!(last_financial_year_end(date(2026, 12, 31), 12), date(2026, 12, 31));
    assert_eq!(last_financial_year_end(date(2026, 12, 30), 12), date(2025, 12, 31));
    assert_eq!(last_financial_year_end(date(2026, 3, 1), 2), date(2026, 2, 28));
    assert_eq!(last_financial_year_end(date(2024, 2, 28), 2), date(2023, 2, 28));
    assert_eq!(last_financial_year_end(date(2026, 9, 10), 0), date(2026, 1, 31));
    assert_eq!(last_financial_year_end(date(2026, 9, 10), 200), date(2025, 12, 31));
}

#[test]
fn the_consent_check_reports_how_many_of_the_contacts_lack_consent() {
    let v = venture("SG", false, None, None);
    let with_consent = customer(1, "A", "a@example.com", "", true);
    let without = customer(2, "B", "b@example.com", "", false);
    let also_without = customer(3, "C", " c@example.com ", "", false);
    let no_email = customer(4, "D", "  ", "", false);
    let ws = workspace(&v, vec![with_consent.clone(), without, also_without, no_email.clone()], vec![], vec![]);
    let a = assess(&ws, &v, NOW, None, false).unwrap();
    let pdpa = finding(&a, "SG-PDPA-01");
    assert_eq!(pdpa.status, FindingStatus::Attention);
    assert!(pdpa.detail.starts_with("2 of 3 contact(s)"), "{}", pdpa.detail);

    let ws = workspace(&v, vec![with_consent, no_email.clone()], vec![], vec![]);
    let a = assess(&ws, &v, NOW, None, false).unwrap();
    assert_eq!(status_of(&a, "SG-PDPA-01"), FindingStatus::Pass);

    let ws = workspace(&v, vec![no_email], vec![], vec![]);
    let a = assess(&ws, &v, NOW, None, false).unwrap();
    assert_eq!(status_of(&a, "SG-PDPA-01"), FindingStatus::NotApplicable);
}

#[test]
fn a_check_needs_a_company_profile_first() {
    let v = venture("SG", false, None, None);
    let mut ws = workspace(&v, vec![], vec![], vec![]);
    assert_eq!(checked_profile(&ws).unwrap().jurisdiction, "SG");
    ws.venture = None;
    match checked_profile(&ws) {
        Err(sovereign_cli::types::WorkspaceError::Invalid(m)) => assert_eq!(m, "set up the company profile first"),
        other => panic!("unexpected {:?}", other.map(|v| v.name.clone())),
    }
}

#[test]
fn the_report_history_keeps_the_latest_five_hundred() {
    let mut reports: Vec<usize> = Vec::new();
    for i in 0..MAX_COMPLIANCE_REPORTS {
        keep_report(&mut reports, i);
    }
    assert_eq!(reports.len(), 500);
    keep_report(&mut reports, 500);
    assert_eq!(reports.len(), 500);
    assert_eq!(reports[0], 1);
    assert_eq!(reports[499], 500);
}
