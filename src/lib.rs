//! The principal and capability model of a confidential-computing policy:
//! who may touch which file, with which rights, and how identities and
//! pipelines are admitted.

pub mod entities;
pub mod error;
pub mod file_rights;
pub mod framing;
pub mod identity;
pub mod nitro;
pub mod pipeline;
pub mod principal;
pub mod rights;
pub mod sock;
pub mod table;

pub use entities::{FileHash, NativeModule, Program};
pub use error::PolicyError;
pub use file_rights::{FileRights, RightsMap};
pub use identity::{CertificateTime, Identity, ValidityPeriod};
pub use pipeline::Pipeline;
pub use principal::{ExecutionStrategy, Principal};
pub use rights::Rights;
pub use table::RightsTable;
