//! The data-sovereignty boundary as the product surfaces it: the device
//! preset the founder selects, and exactly which stored facts a preview of
//! an outbound request is offered. What may actually leave is decided by
//! the privacy compiler the preview is handed to, never here.
use vstd::prelude::*;

use crate::crew_apply::{copy_text, missing, refused, AuditEntry, AuditPayload};
use crate::crew_draft::{plain_amount, plain_amount_text};
use crate::crew_input::{customer_at, document_at, find_customer, find_document};
use crate::text::{owned, push_str};
use crate::types::{DocumentKind, Workspace, WorkspaceError};

verus! {

/// Where the founder's data may be sent, as stored on this device.
#[derive(Debug, Clone, Copy, PartialEq, Eq, Structural)]
pub enum StoredPreset {
    AutoProtect,
    LocalOnly,
}

/// The stored name of a preset.
pub open spec fn preset_name(p: StoredPreset) -> Seq<char> {
    match p {
        StoredPreset::AutoProtect => "auto_protect"@,
        StoredPreset::LocalOnly => "local_only"@,
    }
}

fn preset_text(p: StoredPreset) -> (r: String)
    ensures
        r@ == preset_name(p),
{
    match p {
        StoredPreset::AutoProtect => owned("auto_protect"),
        StoredPreset::LocalOnly => owned("local_only"),
    }
}

/// The device's preset: the stored one, `AutoProtect` when none is stored.
pub fn preset_or_default(stored: Option<StoredPreset>) -> (r: StoredPreset)
    ensures
        r == match stored {
            Some(p) => p,
            None => StoredPreset::AutoProtect,
        },
{
    match stored {
        Some(p) => p,
        None => StoredPreset::AutoProtect,
    }
}

/// The audit event a preset change leaves; keeping the preset leaves none
/// and writes nothing.
pub fn preset_change(previous: StoredPreset, requested: StoredPreset) -> (r: Option<AuditEntry>)
    ensures
        previous == requested ==> r is None,
        previous != requested ==> (r matches Some(e) && e.action@ == "privacy.preset"@ && e.resource@
            == "device:policy"@ && (e.payload matches AuditPayload::PresetChanged { from, to } && from@
            == preset_name(previous) && to@ == preset_name(requested))),
{
    if previous == requested {
        return None;
    }
    Some(
        AuditEntry {
            action: owned("privacy.preset"),
            resource: owned("device:policy"),
            payload: AuditPayload::PresetChanged { from: preset_text(previous), to: preset_text(requested) },
        },
    )
}

/// What an outbound request is for.
#[derive(Debug, Clone, Copy, PartialEq, Eq, Structural)]
pub enum PreviewPurpose {
    DraftDiscoverySummary,
    DraftProposal,
    ReviewDraft,
}

/// The purpose named by its stable text.
pub open spec fn purpose_named(text: Seq<char>) -> Option<PreviewPurpose> {
    if text == "draft_discovery_summary"@ {
        Some(PreviewPurpose::DraftDiscoverySummary)
    } else if text == "draft_proposal"@ {
        Some(PreviewPurpose::DraftProposal)
    } else if text == "review_draft"@ {
        Some(PreviewPurpose::ReviewDraft)
    } else {
        None
    }
}

/// Reads a purpose; an unknown one is refused by name.
pub fn purpose_from(text: &str) -> (r: Result<PreviewPurpose, WorkspaceError>)
    ensures
        match purpose_named(text@) {
            Some(p) => r == Ok::<PreviewPurpose, WorkspaceError>(p),
            None => r matches Err(WorkspaceError::Invalid(m)) && m@ == "unknown purpose "@ + text@,
        },
{
    let t = owned(text);
    if t == owned("draft_discovery_summary") {
        Ok(PreviewPurpose::DraftDiscoverySummary)
    } else if t == owned("draft_proposal") {
        Ok(PreviewPurpose::DraftProposal)
    } else if t == owned("review_draft") {
        Ok(PreviewPurpose::ReviewDraft)
    } else {
        let mut m = owned("unknown purpose ");
        push_str(&mut m, text);
        Err(WorkspaceError::Invalid(m))
    }
}

/// One stored fact offered to the privacy compiler: its field path, its
/// value, and whether it is the owner's protected data (otherwise public
/// content).
#[derive(Debug, Clone)]
pub struct OfferedField {
    pub field: String,
    pub value: String,
    pub protected: bool,
}

pub open spec fn field_view(f: OfferedField) -> (Seq<char>, Seq<char>, bool) {
    (f.field@, f.value@, f.protected)
}

pub open spec fn field_views(v: Seq<OfferedField>) -> Seq<(Seq<char>, Seq<char>, bool)> {
    v.map_values(|f: OfferedField| field_view(f))
}

/// Every fact a preview is offered: the company's service and currency, the
/// customer's name, email and notes when one is named, and the document's
/// body, kind and amount when one is named. Offering is not permission: the
/// transform's allowlist still decides.
pub open spec fn offered(ws: Workspace, customer_id: Option<u128>, document_id: Option<u128>) -> Result<
    Seq<(Seq<char>, Seq<char>, bool)>,
    Seq<char>,
> {
    match ws.venture {
        None => Err("set up the company profile first"@),
        Some(v) => {
            let base = seq![("venture.service"@, v.service@, false), ("venture.currency"@, v.currency@, false)];
            let with_customer = match customer_id {
                None => Ok(base),
                Some(id) => match find_customer(ws.customers@, id) {
                    None => Err("customer not found"@),
                    Some(c) => Ok(
                        base + seq![
                            ("customer.name"@, c.name@, true),
                            ("customer.email"@, c.email@, true),
                            ("customer.discovery_notes"@, c.discovery_notes@, true),
                            ("customer.notes"@, c.notes@, true),
                        ],
                    ),
                },
            };
            match with_customer {
                Err(m) => Err(m),
                Ok(fields) => match document_id {
                    None => Ok(fields),
                    Some(id) => match find_document(ws.documents@, id) {
                        None => Err("document not found"@),
                        Some(d) => {
                            let with_body = fields + seq![
                                ("document.body"@, d.body@, true),
                                (
                                    "document.kind"@,
                                    match d.kind {
                                        DocumentKind::Offer => "offer"@,
                                        DocumentKind::Invoice => "invoice"@,
                                    },
                                    false,
                                ),
                            ];
                            match d.amount_cents {
                                Some(a) => Ok(with_body.push(("proposal.amount"@, plain_amount(a), false))),
                                None => Ok(with_body),
                            }
                        },
                    },
                },
            }
        },
    }
}

fn offer_field(out: &mut Vec<OfferedField>, field: &str, value: String, protected: bool)
    ensures
        field_views(final(out)@) == field_views(old(out)@).push((field@, value@, protected)),
{
    let ghost before = out@;
    out.push(OfferedField { field: owned(field), value, protected });
    assert(field_views(out@) =~= field_views(before).push((field@, value@, protected)));
}

/// The facts a preview of an outbound request is offered.
pub fn offered_fields(workspace: &Workspace, customer_id: Option<u128>, document_id: Option<u128>) -> (r: Result<
    Vec<OfferedField>,
    WorkspaceError,
>)
    ensures
        match offered(*workspace, customer_id, document_id) {
            Ok(fields) => r matches Ok(v) && field_views(v@) == fields,
            Err(m) => if m == "set up the company profile first"@ {
                r matches Err(WorkspaceError::Invalid(x)) && x@ == m
            } else {
                r matches Err(WorkspaceError::NotFound(x)) && x@ == m
            },
        },
{
    let v = match &workspace.venture {
        Some(v) => v,
        None => {
            return Err(refused("set up the company profile first"));
        },
    };
    let mut out: Vec<OfferedField> = Vec::new();
    offer_field(&mut out, "venture.service", copy_text(&v.service), false);
    offer_field(&mut out, "venture.currency", copy_text(&v.currency), false);
    if let Some(id) = customer_id {
        match customer_at(&workspace.customers, id) {
            Some(k) => {
                let c = &workspace.customers[k];
                offer_field(&mut out, "customer.name", copy_text(&c.name), true);
                offer_field(&mut out, "customer.email", copy_text(&c.email), true);
                offer_field(&mut out, "customer.discovery_notes", copy_text(&c.discovery_notes), true);
                offer_field(&mut out, "customer.notes", copy_text(&c.notes), true);
            },
            None => {
                proof {
                    reveal_strlit("customer not found");
                    reveal_strlit("set up the company profile first");
                    assert("customer not found"@.len() != "set up the company profile first"@.len());
                    assert(offered(*workspace, customer_id, document_id) == Err::<Seq<(Seq<char>, Seq<char>, bool)>, Seq<char>>("customer not found"@));
                }
                return Err(missing("customer not found"));
            },
        }
    }
    if let Some(id) = document_id {
        match document_at(&workspace.documents, id) {
            Some(k) => {
                let d = &workspace.documents[k];
                offer_field(&mut out, "document.body", copy_text(&d.body), true);
                let kind = match d.kind {
                    DocumentKind::Offer => owned("offer"),
                    DocumentKind::Invoice => owned("invoice"),
                };
                offer_field(&mut out, "document.kind", kind, false);
                if let Some(a) = d.amount_cents {
                    offer_field(&mut out, "proposal.amount", plain_amount_text(a), false);
                }
            },
            None => {
                proof {
                    reveal_strlit("document not found");
                    reveal_strlit("set up the company profile first");
                    assert("document not found"@.len() != "set up the company profile first"@.len());
                    assert(offered(*workspace, customer_id, document_id) == Err::<Seq<(Seq<char>, Seq<char>, bool)>, Seq<char>>("document not found"@));
                }
                return Err(missing("document not found"));
            },
        }
    }
    assert(field_views(out@) =~= offered(*workspace, customer_id, document_id)->Ok_0);
    Ok(out)
}

/// The refusal when the transform needs a fact that was not offered.
pub fn missing_field(field: &str) -> (e: WorkspaceError)
    ensures
        e matches WorkspaceError::Invalid(m) && m@ == field@ + " is needed for this preview"@,
{
    let mut m = owned(field);
    push_str(&mut m, " is needed for this preview");
    WorkspaceError::Invalid(m)
}

/// One field's fate, in the founder's terms.
#[derive(Debug, Clone)]
pub struct PreviewField {
    pub field: String,
    pub outcome: String,
    pub note: String,
    pub placeholder: Option<String>,
    pub warning: Option<String>,
}

/// A local, on-screen answer to "what would leave this device". It carries
/// exact values because that is the point; it is never persisted or logged.
#[derive(Debug, Clone)]
pub struct ExposureView {
    pub purpose: String,
    pub transform_id: String,
    pub fields: Vec<PreviewField>,
    pub outbound_text: String,
    pub outbound_bytes: usize,
    pub outbound_digest: String,
    pub expires_at_unix: i64,
    /// The placement the current preset would choose, and why.
    pub placement: String,
    pub placement_reason: Option<String>,
    /// True while no public provider is configured, which is the case today.
    pub dispatch_available: bool,
}

} // verus!
