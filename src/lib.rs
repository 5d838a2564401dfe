//! Verified core of a C boundary over device service clients: error codes,
//! the decisions of each boundary call, log record marshaling, and the plan
//! that frees a marshaled record.
pub mod error;
pub mod handles;
pub mod marshal;
pub mod outcome;
pub mod release;
