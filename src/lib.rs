//! Verified core of an interactive Rust session shell: input validation,
//! diagnostic rendering, result reporting, read-loop decisions, line
//! highlighting and output forwarding.

pub mod validator;
pub mod text;
pub mod render;
pub mod diagnostics;
pub mod session;
pub mod highlight;
pub mod forward;
