//! Outdated-package checks for maintainers of build-service packages.

pub mod coordinator;
pub mod decision;
pub mod eligibility;
pub mod entry;
pub mod error;
pub mod lookup;
pub mod macros;
pub mod registry;
pub mod scan;
pub mod text;
pub mod unit;
