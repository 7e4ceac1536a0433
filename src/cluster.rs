use vstd::prelude::*;

verus! {

/// The shard that serves a guild: the guild id's timestamp part (the bits
/// above the lowest 22) modulo the number of shards.
pub open spec fn shard_of(guild_id: u64, total_shards: nat) -> int {
    (guild_id >> 22u64) as int % total_shards as int
}

/// A set of gateway shards.
pub trait ClusterExt {
    spec fn shard_count(&self) -> nat;

    fn total_shards(&self) -> (r: usize)
        ensures
            r == self.shard_count(),
    ;

    /// Gets the shard ID for a guild.
    fn shard_id(&self, guild_id: u64) -> (r: usize)
        requires
            self.shard_count() > 0,
        ensures
            r == shard_of(guild_id, self.shard_count()),
    {
        let n = self.total_shards();
        ((guild_id >> 22u64) % (n as u64)) as usize
    }
}

impl<T> ClusterExt for Vec<T> {
    open spec fn shard_count(&self) -> nat {
        self@.len()
    }

    fn total_shards(&self) -> (r: usize) {
        self.len()
    }
}

} // verus!
