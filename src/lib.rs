//! Validation and dispatch of limit-computation requests.
//!
//! Raw textual inputs are checked for dimensional consistency, turned into a
//! request payload or an argument list for a companion executable, and the
//! outcome reported by either transport is normalised into one result.
pub mod dispatch;
pub mod error;
pub mod json;
pub mod laws;
pub mod payload;
pub mod text;
pub mod validate;

pub use dispatch::{
    get_executable_path, local_outcome, plan_dispatch, remote_outcome, Dispatch, ProcessReport,
    RemoteReport,
};
pub use error::{Failure, Field, LimitError};
pub use payload::Credentials;
pub use validate::{check_consistency, validate, LimitRequest};
pub use text::{decimal_text, integer_text, is_positive_number_text};
