//! Local git repositories: where they are, what they are called, and which
//! commits they hold.

pub mod batch;
pub mod branch;
pub mod config;
pub mod discovery;
pub mod errors;
pub mod git;
pub mod hosting;
pub mod naming;
pub mod paths;
pub mod results;
pub mod scan;
pub mod text;
pub mod walk;

pub use batch::scan_config;
pub use batch::scan_paths;
pub use batch::ScanFailure;
pub use batch::ScanReport;
pub use branch::get_default_branch;
pub use config::Config;
pub use config::TreeConfig;
pub use discovery::ConfigRepoIter;
pub use discovery::TreeRepoIter;
pub use errors::RepoIterError;
pub use errors::ScanError;
pub use results::ScanResult;
pub use scan::scan;
pub use scan::scan_repo;
