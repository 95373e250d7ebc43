//! Build automation for native Android projects: host and toolchain
//! detection, package installation planning, project scenario analysis and
//! the build pipeline, with their decisions verified.

pub mod build_driver;
pub mod env_scanner;
pub mod output_validator;
pub mod paths;
pub mod plugin_api;
pub mod project_analyzer;
pub mod text;
pub mod toolchain_mgr;
pub mod types;
pub mod zip_archive;
