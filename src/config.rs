//! Process configuration: database coordinates, object-store backend selection
//! and the directories that the cache, the assembly engine and the web server use.
use vstd::prelude::*;

use crate::cache::{join_path, Cache};
use crate::errors::RepoError;

verus! {

/// Which object-store backend holds the packages.
#[derive(Clone, Copy, Debug, PartialEq, Eq, Structural)]
pub enum ObjectStoreType {
    /// An S3-compatible bucket.
    S3,
    /// A local-filesystem prefix, rooted at the object cache directory.
    Local,
    /// No remote: only the cache serves.
    CacheOnly,
}

/// Credentials and coordinates of an S3-compatible bucket.
#[derive(Clone, Debug)]
pub struct S3StoreConfig {
    pub s3_bucket: String,
    pub s3_region: String,
    pub s3_access_key: String,
    pub s3_secret_key: String,
    pub s3_endpoint: String,
}

/// The process configuration.
#[derive(Clone, Debug)]
pub struct Config {
    pub host: String,
    pub surreal_db: String,
    pub surreal_ns: String,
    pub s3_config: Option<S3StoreConfig>,
    pub object_store_type: ObjectStoreType,
    /// Delete packages when they are marked unavailable.
    pub delete_when_prune: bool,
    /// Root of the local object cache.
    pub cache_dir: String,
    /// Staging root for assembled repositories.
    pub repo_cache_dir: String,
    /// Where backend fetches are written before they move into the cache.
    pub object_cache_dir: String,
    /// Root of the symlinks that the web server serves.
    pub export_dir: String,
    /// HTTP bind address.
    pub listen_addr: String,
}

impl Config {
    /// The cache rooted at the configured cache directory.
    pub fn cache(&self) -> (r: Cache)
        ensures
            r.cache_dir@ == self.cache_dir@,
    {
        Cache::new(self.cache_dir.clone())
    }

    /// Checks that the backend selection is complete: the S3 backend needs its
    /// credentials.
    pub fn validate(&self) -> (r: Result<(), RepoError>)
        ensures
            r is Err <==> (self.object_store_type == ObjectStoreType::S3 && self.s3_config is None),
            r is Err ==> r == Err::<(), RepoError>(RepoError::BadRequest),
    {
        if self.object_store_type == ObjectStoreType::S3 && self.s3_config.is_none() {
            Err(RepoError::BadRequest)
        } else {
            Ok(())
        }
    }
}

/// The cache of the configuration `config`.
pub fn cache(config: &Config) -> (r: Cache)
    ensures
        r.cache_dir@ == config.cache_dir@,
{
    config.cache()
}

/// The directory where a backend writes the objects it fetches.
pub fn object_cache_dir(config: &Config) -> (r: String)
    ensures
        r@ == config.object_cache_dir@,
{
    config.object_cache_dir.clone()
}

/// The path of `name` under the export root.
pub fn export_path(config: &Config, name: &str) -> (r: String)
    ensures
        r@ == join_path(config.export_dir@, name@),
{
    crate::cache::join(config.export_dir.as_str(), name)
}

} // verus!
