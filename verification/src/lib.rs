//! Verified core of the Sovereign Founder OS command-line runtime.
pub mod text;
pub mod compliance;
pub mod compliance_pack;
pub mod crew;
pub mod calendar;
pub mod erp;
pub mod types;
pub mod checks;
pub mod report;
pub mod crew_draft;
pub mod crew_answer;
pub mod crew_input;
pub mod compose;
pub mod amounts;
pub mod demo;
pub mod model_config;
pub mod ui;
pub mod crew_apply;
pub mod crew_desk;
pub mod privacy;
pub mod business;
pub mod crew_prompt;
pub mod gauntlet_report;
pub mod request_fields;
pub mod laws;
