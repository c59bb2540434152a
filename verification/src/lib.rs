//! Decisions of the fraud check that runs after a payment was authorised.
//!
//! The crate holds what the check decides; the calls to the payment core, to the fraud service
//! and to the store are made by the caller. Each operation of [`FraudCheckPost`] hands out the
//! call to make and takes its answer back.

pub mod outside;
pub mod records;
pub mod fraud_check;
pub mod frm;
pub mod payments;
pub mod operation;
pub mod labels;
pub mod update_tracker;
pub mod sale;
pub mod post_tasks;
pub mod get_trackers;
pub mod laws;
pub mod tracker_laws;
pub mod sale_laws;
pub mod task_laws;
pub mod update_laws;

pub use crate::operation::FraudCheckPost;
