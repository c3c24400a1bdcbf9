//! Install orchestration for compatibility-tool releases: choosing the
//! archives of a release, the messages that download and install workers
//! report, and the state machine that turns those messages into an
//! installation status.
pub mod pipeline;
pub mod manager;
pub mod release;
pub mod workers;

pub use release::{Asset, Release, WorkItem, ARCHIVE_MEDIA_TYPE};
pub use pipeline::{InstallState, PipelineMessage, StagedArtifact};
pub use manager::{ManagerView, ProtonGEManager};
pub use workers::{
    download_message, install_dir, install_message, install_target, staging_path,
    status_failure, INSTALL_SUBDIR, NO_HOME_DIR, STAGING_DIR,
};
