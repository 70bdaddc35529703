//! The repository a host offers for builds and cached stats.

use vstd::prelude::*;
use crate::parts::Build;
use crate::stats::effective::EffectiveStats;

verus! {

/// Access to stored builds and to the cache of their effective stats.
pub trait BuildRepository: Send + Sync {
    fn load_build(&self, id: &str) -> Option<Build>;

    fn save_build(&self, build: &Build) -> Result<(), String>;

    fn list_builds(&self) -> Vec<String>;

    fn load_effective_cache(&self, build_id: &str, balance_version: u32) -> Option<EffectiveStats>;

    fn save_effective_cache(
        &self,
        build_id: &str,
        stats: &EffectiveStats,
        balance_version: u32,
    ) -> Result<(), String>;
}

} // verus!
