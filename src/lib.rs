//! Inheritance plans: creation and editing under basis-point allocation
//! rules, time-gated claims recorded at most once per beneficiary, identity
//! verification gated by a single administrator, an audit trail and a
//! schema version.

pub mod digest;
pub mod error;
pub mod allocation;
pub mod eligibility;
pub mod text;
pub mod model;
pub mod contract;
pub mod service;
pub mod laws;
