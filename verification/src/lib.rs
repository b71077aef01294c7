//! Turns the history of a continuous-integration pipeline (workflows, their
//! runs, and the jobs of each run) into the spans of a distributed trace.
//!
//! The library decides and computes; it does not talk to anyone. Whoever
//! uses it asks the source for pages, hands the answers in, and passes the
//! spans that come out on to the tracing backend.
//!
//! - [`ident`] encodes the identifiers of runs and jobs as trace and span
//!   identifiers.
//! - [`record`] flattens a metadata record into span attributes.
//! - [`paginate`] collects the pages of a listing.
//! - [`reconcile`] derives the end of a run from its jobs.
//! - [`trace`] builds the spans of one run.
//! - [`workflow`] processes the runs of one workflow, one after another.
//! - [`batch`] plans one task for each workflow of a repository and sums up
//!   what the tasks report.

pub mod batch;
pub mod error;
pub mod ident;
pub mod model;
pub mod paginate;
pub mod reconcile;
pub mod record;
pub mod text;
pub mod timestamp;
pub mod trace;
pub mod workflow;
