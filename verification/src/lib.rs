//! Declarative artifact reconciliation: canonical records are rendered through
//! fixed templates into configuration files, and the rendered files are
//! published into a version-controlled store without spurious writes.

pub mod artifact;
pub mod context;
pub mod engine;
pub mod errors;
pub mod helpers;
pub mod json;
pub mod orchestrator;
pub mod partition;
pub mod publish;
pub mod records;
pub mod renderer;
pub mod report;
pub mod templates;
