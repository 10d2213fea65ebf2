use sovereign_cli::crew_apply::AuditPayload;
use sovereign_cli::erp::CustomerStage;
use sovereign_cli::privacy::{
    missing_field, offered_fields, preset_change, preset_or_default, purpose_from, PreviewPurpose, StoredPreset,
};
use sovereign_cli::types::{Customer, Document, DocumentKind, DocumentStatus, Venture, Workspace, WorkspaceError};

fn workspace(with_venture: bool) -> Workspace {
    Workspace {
        venture: if with_venture {
            Some(Venture {
                name: "Acme Consulting".into(),
                service: "Reporting clarity sprints".into(),
                updated_at: 0,
                jurisdiction: "SG".into(),
                currency: "SGD".into(),
                uen: String::new(),
                gst_registered: false,
                incorporated_at: None,
                fiscal_year_end_month: 12,
                revenue_estimate_cents: None,
            })
        } else {
            None
        },
        customers: vec![Customer {
            id: 1,
            name: "Northwind Traders".into(),
            email: "ada.lovelace@northwind.test".into(),
            notes: "met at expo".into(),
            created_at: 0,
            stage: CustomerStage::Lead,
            discovery_notes: "six hours a week".into(),
            jurisdiction: "SG".into(),
            personal_data_consent: false,
            updated_at: 0,
        }],
        documents: vec![Document {
            id: 2,
            kind: DocumentKind::Offer,
            customer_id: 1,
            title: "Offer".into(),
            body: "Scope".into(),
            amount_cents: Some(400_005),
            status: DocumentStatus::Draft,
            created_at: 0,
            updated_at: 0,
            revision: 1,
            due_at: None,
            project_id: None,
            accepted_at: None,
        }],
        projects: vec![],
        tasks: vec![],
        payments: vec![],
        follow_ups: vec![],
        employees: vec![],
        decisions: vec![],
    }
}

#[test]
fn the_preset_defaults_to_auto_protect_and_only_a_change_is_audited() {
    assert_eq!(preset_or_default(None), StoredPreset::AutoProtect);
    assert_eq!(preset_or_default(Some(StoredPreset::LocalOnly)), StoredPreset::LocalOnly);
    assert!(preset_change(StoredPreset::AutoProtect, StoredPreset::AutoProtect).is_none());
    let e = preset_change(StoredPreset::AutoProtect, StoredPreset::LocalOnly).unwrap();
    assert_eq!(e.action, "privacy.preset");
    assert_eq!(e.resource, "device:policy");
    assert!(matches!(&e.payload, AuditPayload::PresetChanged { from, to } if from == "auto_protect" && to == "local_only"));
}

#[test]
fn purposes_are_read_by_their_stable_names() {
    assert_eq!(purpose_from("draft_proposal").unwrap(), PreviewPurpose::DraftProposal);
    assert_eq!(purpose_from("review_draft").unwrap(), PreviewPurpose::ReviewDraft);
    assert_eq!(purpose_from("draft_discovery_summary").unwrap(), PreviewPurpose::DraftDiscoverySummary);
    assert!(matches!(purpose_from("exfiltrate"), Err(WorkspaceError::Invalid(m)) if m == "unknown purpose exfiltrate"));
    assert!(matches!(missing_field("customer.name"), WorkspaceError::Invalid(m) if m == "customer.name is needed for this preview"));
}

#[test]
fn a_preview_is_offered_exactly_the_named_records() {
    let ws = workspace(true);
    let f = offered_fields(&ws, None, None).unwrap();
    let names: Vec<&str> = f.iter().map(|x| x.field.as_str()).collect();
    assert_eq!(names, ["venture.service", "venture.currency"]);
    assert!(f.iter().all(|x| !x.protected));
    let f = offered_fields(&ws, Some(1), Some(2)).unwrap();
    let names: Vec<&str> = f.iter().map(|x| x.field.as_str()).collect();
    assert_eq!(
        names,
        [
            "venture.service", "venture.currency", "customer.name", "customer.email",
            "customer.discovery_notes", "customer.notes", "document.body", "document.kind", "proposal.amount",
        ]
    );
    assert!(f[2].protected && f[3].protected && f[6].protected && !f[7].protected);
    assert_eq!(f[3].value, "ada.lovelace@northwind.test");
    assert_eq!(f[7].value, "offer");
    assert_eq!(f[8].value, "4000.05");
    assert!(matches!(offered_fields(&ws, Some(9), None), Err(WorkspaceError::NotFound(m)) if m == "customer not found"));
    assert!(matches!(offered_fields(&ws, None, Some(9)), Err(WorkspaceError::NotFound(m)) if m == "document not found"));
    assert!(matches!(offered_fields(&workspace(false), Some(1), None), Err(WorkspaceError::Invalid(m)) if m == "set up the company profile first"));
}
