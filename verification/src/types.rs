//! The workspace records the library reads: the company profile, customers,
//! and documents, with their identifiers as the 128-bit values of their UUIDs.
use vstd::prelude::*;

use crate::crew_desk::{Decision, Employee};
use crate::erp::{CustomerStage, FollowUp, Payment, Project, Task};

verus! {

/// Why a workspace operation was refused.
#[derive(Debug, Clone)]
pub enum WorkspaceError {
    Invalid(String),
    NotFound(String),
    PolicyDenied(String),
    Storage(String),
    LimitedRecovery(String),
}

/// The company profile. Jurisdiction and registration facts feed the
/// compliance checks; they are founder-entered facts, not inferred.
#[derive(Debug, Clone)]
pub struct Venture {
    pub name: String,
    pub service: String,
    pub updated_at: i64,
    pub jurisdiction: String,
    pub currency: String,
    pub uen: String,
    pub gst_registered: bool,
    pub incorporated_at: Option<i64>,
    pub fiscal_year_end_month: u8,
    pub revenue_estimate_cents: Option<u64>,
}

#[derive(Debug, Clone)]
pub struct Customer {
    pub id: u128,
    pub name: String,
    pub email: String,
    pub notes: String,
    pub created_at: i64,
    pub stage: CustomerStage,
    pub discovery_notes: String,
    pub jurisdiction: String,
    pub personal_data_consent: bool,
    pub updated_at: i64,
}

#[derive(Debug, Clone, Copy, PartialEq, Eq, Structural)]
pub enum DocumentKind {
    Offer,
    Invoice,
}

#[derive(Debug, Clone, Copy, PartialEq, Eq, Structural)]
pub enum DocumentStatus {
    Draft,
    PendingApproval,
    ApprovedPendingDelivery,
    Delivered,
}

#[derive(Debug, Clone)]
pub struct Document {
    pub id: u128,
    pub kind: DocumentKind,
    pub customer_id: u128,
    pub title: String,
    pub body: String,
    pub amount_cents: Option<u64>,
    pub status: DocumentStatus,
    pub created_at: i64,
    pub updated_at: i64,
    pub revision: u32,
    pub due_at: Option<i64>,
    pub project_id: Option<u128>,
    pub accepted_at: Option<i64>,
}

/// The business records the checks and employees read.
#[derive(Debug, Clone)]
pub struct Workspace {
    pub venture: Option<Venture>,
    pub customers: Vec<Customer>,
    pub documents: Vec<Document>,
    pub projects: Vec<Project>,
    pub tasks: Vec<Task>,
    pub payments: Vec<Payment>,
    /// Reminders to get back to a customer.
    pub follow_ups: Vec<FollowUp>,
    /// The AI employees the founder hired.
    pub employees: Vec<Employee>,
    /// Their proposals, pending or decided.
    pub decisions: Vec<Decision>,
}

} // verus!
