//! The operations of the backup tool. Each is a machine: a state and the answer to what was asked
//! for last lead to the next state and the next thing that is asked for.
pub mod check_plan;
pub mod common;
pub mod laws;
pub mod outcome_laws;
pub mod query;
pub mod run;
pub mod step;
pub mod verify;

pub use check_plan::{check_job, plan_job};
pub use query::{history_job, status_job};
pub use run::{run_job, RunRequest};
pub use verify::{verify_job, VerifyRequest};
