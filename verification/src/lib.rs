//! Decision logic of a resumable updater: which archives an installation
//! still needs, how an interrupted transfer resumes, how progress is
//! rendered, and how a run over the needed archives is sequenced.

pub mod format;
pub mod ledger;
pub mod link;
pub mod notice;
pub mod orchestrator;
pub mod text;
pub mod transfer;
pub mod version;
