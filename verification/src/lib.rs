//! Orchestration engine for the SAS-to-AWIN advertiser migration workflow.
//!
//! The crate models the closed vocabulary of workflow phases and lifecycle
//! states, the decoding and encoding of status tokens, the construction of the
//! wire-exact request paths and bodies, the classification of remote responses,
//! and the step-by-step decision logic of the orchestration controller.
pub mod advertiser;
pub mod config;
pub mod publisher;
pub mod orchestration_status;
pub mod orchestrator;
pub mod request;
pub mod sas_data_import;
pub mod sas_migration_api;
pub mod setup;
pub mod terms_and_conditions;
pub mod text;
