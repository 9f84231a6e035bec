//! Image manifest value types.
//!
//! These mirror the Image Manifest V2 Schema 2 documents: the fat manifest
//! (manifest list), the per-image manifest with its ordered layer list, and
//! the image configuration.  Layer order is significant and is preserved
//! end-to-end; the same digest may appear in several layers.

use crate::digest::Digest;
use vstd::prelude::*;

verus! {

/// The "fat manifest": an index of per-platform image manifests.
#[derive(Debug)]
pub struct ManifestList {
    pub schema_version: i32,
    pub media_type: String,
    pub manifests: Vec<ManifestItem>,
}

/// One entry of a [`ManifestList`], naming the manifest for one platform.
#[derive(Debug)]
pub struct ManifestItem {
    pub media_type: String,
    pub size: usize,
    pub digest: Digest,
    pub platform: Platform,
}

/// The platform an image runs on.
#[derive(Debug)]
pub struct Platform {
    pub architecture: String,
    pub os: String,
    pub os_version: Option<String>,
    pub os_features: Option<Vec<String>>,
    pub variant: Option<String>,
    pub features: Option<Vec<String>>,
}

/// An image manifest: a configuration reference and an ordered layer list.
#[derive(Debug)]
pub struct Manifest {
    pub schema_version: i32,
    pub media_type: String,
    pub config: ManifestConfig,
    pub layers: Vec<Layer>,
}

/// Reference to the configuration object of a container image.
#[derive(Debug)]
pub struct ManifestConfig {
    pub media_type: String,
    pub size: usize,
    pub digest: Digest,
}

/// Reference to one layer blob, by digest, with its declared size.
#[derive(Debug)]
pub struct Layer {
    pub media_type: String,
    pub size: usize,
    pub digest: Digest,
}

impl Clone for Layer {
    /// A clone carries the same media type, size and digest.
    fn clone(&self) -> (r: Layer)
        ensures
            r.media_type@ == self.media_type@,
            r.size == self.size,
            r.digest@ == self.digest@,
    {
        Layer {
            media_type: self.media_type.clone(),
            size: self.size,
            digest: self.digest.clone(),
        }
    }
}

/// Image configuration: creation data and runtime defaults.
#[derive(Debug)]
pub struct Image {
    pub architecture: String,
    pub os: String,
    pub created: Option<String>,
    pub author: Option<String>,
    pub config: Option<ImageConfig>,
    pub rootfs: RootFS,
    pub history: Option<Vec<LayerHistory>>,
}

/// Image execution default parameters.  Port and volume maps are carried as
/// their key lists; labels as key-value pairs.
#[derive(Debug)]
pub struct ImageConfig {
    pub user: Option<String>,
    pub exposed_ports: Option<Vec<String>>,
    pub env: Option<Vec<String>>,
    pub entrypoint: Option<Vec<String>>,
    pub cmd: Option<Vec<String>>,
    pub volumes: Option<Vec<String>>,
    pub working_dir: Option<String>,
    pub labels: Option<Vec<(String, String)>>,
    pub stop_signal: Option<String>,
}

/// The root filesystem description of an image configuration.
#[derive(Debug)]
pub struct RootFS {
    pub fs_type: String,
    pub diff_ids: Vec<String>,
}

/// One step of a layer's history.
#[derive(Debug)]
pub struct LayerHistory {
    pub created: Option<String>,
    pub author: Option<String>,
    pub created_by: Option<String>,
    pub comment: Option<String>,
    pub empty_layer: Option<bool>,
}

} // verus!
