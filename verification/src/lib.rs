//! Instance isolation and spawn orchestration for a single-instance desktop
//! application: release of the target's named exclusivity object, per-platform
//! isolation strategies (bundle cloning, sandbox profiles), sequential spawn
//! accounting, and the live-instance registry.

pub mod cloner;
pub mod orchestrator;
pub mod paths;
pub mod registry;
pub mod scanner;
pub mod text;
pub mod wecom_manager;
pub mod windows_sandbox;
