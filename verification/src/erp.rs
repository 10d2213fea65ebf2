//! Business-graph entities for the consultant loop: funnel stage and
//! discovery on customers, projects and tasks, follow-ups, payments, and the
//! read models derived from them. Identifiers are the 128-bit values of the
//! records' UUIDs.
use vstd::prelude::*;

use crate::text::{
    ascii_alpha, ascii_upper, chars_of, has_no_control_but, is_ascii_alpha, no_control_but, owned,
    string_of, to_ascii_upper, trim, trimmed, utf8_len_exceeds, utf8_len_seq,
};
use crate::types::WorkspaceError;

verus! {

/// Where a contact sits in the consulting funnel.
#[derive(Debug, Clone, Copy, PartialEq, Eq, Structural)]
pub enum CustomerStage {
    Lead,
    Customer,
}

impl Default for CustomerStage {
    /// Records written before stages existed were called customers.
    fn default() -> (r: Self)
        ensures
            r == CustomerStage::Customer,
    {
        CustomerStage::Customer
    }
}

#[derive(Debug, Clone, Copy, PartialEq, Eq, Structural)]
pub enum ProjectStatus {
    Proposed,
    Active,
    Done,
}

/// An engagement: the delivery side of an accepted offer.
#[derive(Debug, Clone)]
pub struct Project {
    pub id: u128,
    pub customer_id: u128,
    /// The offer this project delivers, when it came from one.
    pub offer_id: Option<u128>,
    pub name: String,
    pub status: ProjectStatus,
    pub budget_cents: Option<u64>,
    pub created_at: i64,
    pub updated_at: i64,
    pub done_at: Option<i64>,
    /// What the customer agreed delivery is judged by, in the order added.
    pub acceptance_criteria: Vec<String>,
}

/// One unit of delivery work. `origin` records who proposed it.
#[derive(Debug, Clone)]
pub struct Task {
    pub id: u128,
    pub project_id: u128,
    pub title: String,
    pub due_at: Option<i64>,
    pub done_at: Option<i64>,
    pub created_at: i64,
    pub origin: String,
}

/// A dated reminder to contact a customer.
#[derive(Debug, Clone)]
pub struct FollowUp {
    pub id: u128,
    pub customer_id: u128,
    pub due_at: i64,
    pub note: String,
    pub done_at: Option<i64>,
    pub created_at: i64,
    pub origin: String,
}

/// Money the founder records as received against an issued invoice.
#[derive(Debug, Clone)]
pub struct Payment {
    pub id: u128,
    pub invoice_id: u128,
    pub amount_cents: u64,
    pub received_at: i64,
    pub note: String,
    pub created_at: i64,
}

/// Read model: what is still owed on one issued invoice.
#[derive(Debug, Clone)]
pub struct Receivable {
    pub invoice_id: u128,
    pub customer_id: u128,
    pub customer_name: String,
    pub title: String,
    pub amount_cents: u64,
    pub paid_cents: u64,
    pub outstanding_cents: u64,
    /// `open`, `partial`, `paid`, or `overdue` (open or partial past `due_at`).
    pub status: String,
    pub due_at: Option<i64>,
}

/// Read model: one signed event on the audit chain that touched a customer.
#[derive(Debug, Clone)]
pub struct TimelineEntry {
    pub at: i64,
    pub action: String,
    pub resource: String,
    pub subject: String,
}

/// Input for the company profile.
#[derive(Debug, Clone, Default)]
pub struct VentureProfileInput {
    pub name: String,
    pub service: String,
    pub jurisdiction: String,
    pub currency: String,
    pub uen: String,
    pub gst_registered: bool,
    pub incorporated_at: Option<i64>,
    pub fiscal_year_end_month: Option<u8>,
    pub revenue_estimate_cents: Option<u64>,
}

/// Input for editing a customer. Every field is replaced, not patched.
#[derive(Debug, Clone, Default)]
pub struct CustomerInput {
    pub name: String,
    pub email: String,
    pub notes: String,
    pub discovery_notes: String,
    pub stage: Option<CustomerStage>,
    pub jurisdiction: String,
    pub personal_data_consent: bool,
}

/// The cleaned jurisdiction: empty (unknown), or a two- or three-letter
/// code upper-cased.
pub open spec fn clean_jurisdiction_spec(value: Seq<char>) -> Option<Seq<char>> {
    let v = trimmed(value).map_values(|c: char| ascii_upper(c));
    if v.len() == 0 {
        Some(v)
    } else if 2 <= v.len() <= 3 && forall|i: int| 0 <= i < v.len() ==> is_ascii_alpha(#[trigger] v[i]) {
        Some(v)
    } else {
        None
    }
}

/// The cleaned currency: `SGD` when empty, else a three-letter code
/// upper-cased.
pub open spec fn clean_currency_spec(value: Seq<char>) -> Option<Seq<char>> {
    let v = trimmed(value).map_values(|c: char| ascii_upper(c));
    if v.len() == 0 {
        Some("SGD"@)
    } else if v.len() == 3 && forall|i: int| 0 <= i < v.len() ==> is_ascii_alpha(#[trigger] v[i]) {
        Some(v)
    } else {
        None
    }
}

fn all_ascii_alpha(v: &Vec<char>) -> (r: bool)
    ensures
        r == forall|i: int| 0 <= i < v@.len() ==> is_ascii_alpha(#[trigger] v@[i]),
{
    let mut i: usize = 0;
    while i < v.len()
        invariant
            i <= v.len(),
            forall|k: int| 0 <= k < i ==> is_ascii_alpha(#[trigger] v@[k]),
        decreases v.len() - i,
    {
        if !ascii_alpha(v[i]) {
            return false;
        }
        i += 1;
    }
    true
}

/// Jurisdiction codes are founder-entered facts: empty (unknown) or a
/// short alphabetic code, upper-cased. Nothing is inferred.
pub fn clean_jurisdiction(value: &str) -> (r: Result<String, WorkspaceError>)
    ensures
        r is Ok <==> clean_jurisdiction_spec(value@) is Some,
        r matches Ok(s) ==> clean_jurisdiction_spec(value@) == Some(s@),
        r matches Err(e) ==> e matches WorkspaceError::Invalid(m) && m@
            == "jurisdiction must be a 2–3 letter code"@,
{
    let v = to_ascii_upper(&trim(&chars_of(value)));
    if v.len() == 0 {
        return Ok(string_of(&v));
    }
    if !(2 <= v.len() && v.len() <= 3) || !all_ascii_alpha(&v) {
        return Err(WorkspaceError::Invalid(owned("jurisdiction must be a 2–3 letter code")));
    }
    Ok(string_of(&v))
}

pub fn clean_currency(value: &str) -> (r: Result<String, WorkspaceError>)
    ensures
        r is Ok <==> clean_currency_spec(value@) is Some,
        r matches Ok(s) ==> clean_currency_spec(value@) == Some(s@),
        r matches Err(e) ==> e matches WorkspaceError::Invalid(m) && m@
            == "currency must be a 3-letter code"@,
{
    let v = to_ascii_upper(&trim(&chars_of(value)));
    if v.len() == 0 {
        return Ok(owned("SGD"));
    }
    if v.len() != 3 || !all_ascii_alpha(&v) {
        return Err(WorkspaceError::Invalid(owned("currency must be a 3-letter code")));
    }
    Ok(string_of(&v))
}

/// Document bodies may be long, so they get their own ceiling in bytes;
/// control characters other than newline and tab are still refused.
pub const MAX_BODY_BYTES: usize = 32 * 1024;

pub open spec fn clean_body_spec(value: Seq<char>) -> Result<Seq<char>, Seq<char>> {
    let v = trimmed(value);
    if utf8_len_seq(v) > MAX_BODY_BYTES {
        Err("body is too long"@)
    } else if !no_control_but(v, true, true) {
        Err("body contains control characters"@)
    } else {
        Ok(v)
    }
}

pub fn clean_body(value: &str) -> (r: Result<String, WorkspaceError>)
    ensures
        r matches Ok(s) ==> clean_body_spec(value@) == Ok::<Seq<char>, Seq<char>>(s@),
        r matches Err(e) ==> e matches WorkspaceError::Invalid(m) && clean_body_spec(value@) == Err::<
            Seq<char>,
            Seq<char>,
        >(m@),
{
    let v = trim(&chars_of(value));
    if utf8_len_exceeds(&v, MAX_BODY_BYTES) {
        return Err(WorkspaceError::Invalid(owned("body is too long")));
    }
    if !has_no_control_but(&v, true, true) {
        return Err(WorkspaceError::Invalid(owned("body contains control characters")));
    }
    Ok(string_of(&v))
}

} // verus!
