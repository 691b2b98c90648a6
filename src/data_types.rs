//! The entities of the store, one per table.
use vstd::prelude::*;

pub mod diagnostics;
pub mod header;
pub mod par_meta;
pub mod process_meta;
pub mod pulsar_meta;
pub mod raw_meta;
pub mod telescope;
pub mod template_meta;
pub mod toa_info;
pub mod user;

pub use header::RawFileHeader;
pub use diagnostics::{DiagnosticFloat, DiagnosticPlot};
pub use par_meta::ParMeta;
pub use process_meta::ProcessInfo;
pub use pulsar_meta::PulsarMeta;
pub use raw_meta::{IntakeAction, IntakeEvent, IntakeStage, RawIntake, RawMeta};
pub use telescope::{ObsSystem, TelescopeId};
pub use template_meta::TemplateMeta;
pub use toa_info::{Measurement, TOAInfo};
pub use user::User;
