//! A verified core for a repository file-watching service.
//!
//! The library models the decision logic of a watcher that observes a set of
//! repository roots, debounces bursts of change events per root, filters out
//! changes to version-control metadata, and hot-reloads its watched set when
//! the backing configuration file changes. Filesystem paths are modelled as
//! sequences of byte segments; the surrounding process supplies events,
//! timestamps and parsed configurations, and performs the snapshots that the
//! decisions here call for.

pub mod config;
pub mod debounce;
pub mod laws;
pub mod paths;
pub mod watch;

pub use config::Error;
pub use config::RepoConfig;
pub use config::WatchConfig;
pub use config::WatchMode;
pub use watch::RepoWatcher;
