//! The site's settings.

use vstd::prelude::*;

verus! {

/// Settings of the site, the picture store and deployment.
#[derive(Debug)]
pub struct GlobalConfig {
    pub title: String,
    pub subtitle: String,
    pub foot: String,
    pub bei_an: Option<String>,
    pub url: String,
    pub robot: Option<String>,
    pub pic_cloud_prefix: String,
    /// The directory of the picture store.
    pub pic_local: String,
    /// Pictures larger than this many bytes are recompressed.
    pub pic_compress_threshold: u64,
    pub pic_replace_prefix: String,
    pub scp_server: String,
    pub scp_pic_path: String,
    pub scp_web_path: String,
    pub deploy_auto: bool,
    /// Seconds between two ticks of the publish timer.
    pub deploy_interval: Option<u64>,
}

} // verus!
