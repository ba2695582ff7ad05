//! The storage engine as the bus layer sees it.

use vstd::prelude::*;

use crate::errors::EngineError;

verus! {

/// A pool as the engine lists it at startup: its identity and those of its
/// filesystems and block devices.
#[derive(Clone, Debug)]
pub struct PoolSummary {
    pub uuid: u128,
    pub filesystems: Vec<u128>,
    pub blockdevs: Vec<u128>,
}

/// The mathematical value of a `PoolSummary`.
pub struct PoolView {
    pub uuid: u128,
    pub filesystems: Seq<u128>,
    pub blockdevs: Seq<u128>,
}

impl View for PoolSummary {
    type V = PoolView;

    open spec fn view(&self) -> PoolView {
        PoolView { uuid: self.uuid, filesystems: self.filesystems@, blockdevs: self.blockdevs@ }
    }
}

impl PoolSummary {
    pub fn new(uuid: u128, filesystems: Vec<u128>, blockdevs: Vec<u128>) -> (r: PoolSummary)
        ensures
            r.uuid == uuid,
            r.filesystems == filesystems,
            r.blockdevs == blockdevs,
    {
        PoolSummary { uuid, filesystems, blockdevs }
    }
}

/// The values of a list of pools.
pub open spec fn pools_view(s: Seq<PoolSummary>) -> Seq<PoolView> {
    s.map_values(|p: PoolSummary| p@)
}

/// The operations of a storage engine that the bus layer calls. The engine
/// owns the storage topology; an implementation decides every outcome.
pub trait Engine {
    /// Creates a pool named `name` on the given devices, with an optional
    /// redundancy level; `force` overrides soft checks.
    fn create_pool(
        &mut self,
        name: &str,
        blockdev_paths: &Vec<String>,
        redundancy: Option<u16>,
        force: bool,
    ) -> Result<u128, EngineError>;

    /// Destroys a pool; `Ok(false)` where there was nothing to do.
    fn destroy_pool(&mut self, uuid: u128) -> Result<bool, EngineError>;

    /// Sets how often the simulated engine injects a failure.
    fn configure_simulator(&mut self, denominator: u32) -> Result<(), EngineError>;

    /// The block devices of a pool, or `None` where there is no such pool.
    fn pool_blockdevs(&self, uuid: u128) -> Option<Vec<u128>>;

    /// Every pool, with its filesystems and block devices.
    fn pools(&self) -> Vec<PoolSummary>;
}

} // verus!
