//! What follows from the sector size: the node count, the partition count, the
//! scheme-selection parameter and the public parameters of the update proof.

use vstd::prelude::*;
use crate::types::{HSelect, PoRepConfig, UpdateProofPartitions};

verus! {

/// The number of bytes in one node of a sector.
pub const NODE_SIZE: u64 = 32;

/// The largest sector, measured in nodes, that the proof scheme knows.
pub const MAX_SECTOR_NODES: u64 = 0x8000_0000;

/// The number of nodes in a sector of `sector_bytes` bytes.
pub open spec fn nodes_count_spec(sector_bytes: int) -> int {
    sector_bytes / 32
}

/// The number of partition proofs for a sector of `nodes` nodes.
pub open spec fn partition_count_spec(nodes: int) -> int {
    if nodes <= 0x100 {
        1
    } else if nodes <= 0x400 {
        2
    } else if nodes <= 0x8_0000 {
        4
    } else {
        16
    }
}

/// The default `h` for a sector of `nodes` nodes.
pub open spec fn h_default_spec(nodes: int) -> int {
    if nodes <= 0x400 {
        1
    } else {
        10
    }
}

/// The number of challenges of one partition proof.
pub open spec fn challenge_count_spec(nodes: int) -> int {
    if nodes <= 0x8_0000 {
        10
    } else {
        86
    }
}

/// The number of leaves of each partition's apex tree.
pub open spec fn apex_leaf_count_spec(nodes: int) -> int {
    if nodes <= 0x100 {
        8
    } else {
        128
    }
}

/// Whether the proof scheme is defined for sectors of `nodes` nodes.
pub open spec fn is_allowed_sector_nodes(nodes: int) -> bool {
    ||| nodes == 0x20
    ||| nodes == 0x40
    ||| nodes == 0x80
    ||| nodes == 0x100
    ||| nodes == 0x200
    ||| nodes == 0x400
    ||| nodes == 0x4_0000
    ||| nodes == 0x8_0000
    ||| nodes == 0x100_0000
    ||| nodes == 0x4000_0000
    ||| nodes == 0x8000_0000
}

/// Whether the proof scheme is defined for sectors of `sector_bytes` bytes.
pub open spec fn is_allowed_sector_size(sector_bytes: int) -> bool {
    sector_bytes % 32 == 0 && is_allowed_sector_nodes(sector_bytes / 32)
}

/// The exponent `e` with `2^e == n`, for the powers of two up to `2^31`; 0 elsewhere.
pub open spec fn log2_spec(n: int) -> int
    decreases n,
{
    if 2 <= n <= 0x8000_0000 && n % 2 == 0 {
        1 + log2_spec(n / 2)
    } else {
        0
    }
}

/// The public parameters of the update proof, all derived from the sector size.
#[derive(Clone, Copy, Debug, PartialEq, Eq)]
pub struct PublicParams {
    /// The sector size in nodes.
    pub sector_nodes: u64,
    /// The number of challenges per partition proof.
    pub challenge_count: u64,
    /// The number of bits of a challenge: the height of the data tree.
    pub challenge_bit_len: u64,
    /// The number of partition proofs.
    pub partition_count: u64,
    /// The number of bits of a partition index.
    pub partition_bit_len: u64,
    /// The number of leaves of each partition's apex tree.
    pub apex_leaf_count: u64,
    /// The height of each partition's apex tree.
    pub apex_leaf_bit_len: u64,
}

/// The public parameters for a sector of `sector_bytes` bytes.
pub open spec fn public_params_spec(sector_bytes: int) -> PublicParams {
    let nodes = sector_bytes / 32;
    PublicParams {
        sector_nodes: nodes as u64,
        challenge_count: challenge_count_spec(nodes) as u64,
        challenge_bit_len: log2_spec(nodes) as u64,
        partition_count: partition_count_spec(nodes) as u64,
        partition_bit_len: log2_spec(partition_count_spec(nodes)) as u64,
        apex_leaf_count: apex_leaf_count_spec(nodes) as u64,
        apex_leaf_bit_len: log2_spec(apex_leaf_count_spec(nodes)) as u64,
    }
}

/// `storage_proofs_update::constants::partition_count`: 1, 2, 4 or 16
/// partitions, by the thresholds of 256, 1024 and 524288 nodes.
#[verifier::external_body]
fn scheme_partition_count(sector_nodes: usize) -> (n: usize)
    ensures
        n == partition_count_spec(sector_nodes as int),
{
    storage_proofs_update::constants::partition_count(sector_nodes)
}

/// `storage_proofs_update::constants::h_default`: 1 up to 1024 nodes, 10 above.
#[verifier::external_body]
fn scheme_h_default(sector_nodes: usize) -> (h: usize)
    ensures
        h == h_default_spec(sector_nodes as int),
{
    storage_proofs_update::constants::h_default(sector_nodes)
}

/// `storage_proofs_update::PublicParams::from_sector_size`, with its seven
/// fields copied out. The outside function panics on a sector size that it does
/// not know; on the others it counts the nodes and derives the rest from them.
#[verifier::external_body]
fn scheme_public_params(sector_bytes: u64) -> (p: PublicParams)
    requires
        is_allowed_sector_size(sector_bytes as int),
        sector_bytes <= usize::MAX,
    ensures
        p == public_params_spec(sector_bytes as int),
{
    let p = storage_proofs_update::PublicParams::from_sector_size(sector_bytes);
    PublicParams {
        sector_nodes: p.sector_nodes as u64,
        challenge_count: p.challenge_count as u64,
        challenge_bit_len: p.challenge_bit_len as u64,
        partition_count: p.partition_count as u64,
        partition_bit_len: p.partition_bit_len as u64,
        apex_leaf_count: p.apex_leaf_count as u64,
        apex_leaf_bit_len: p.apex_leaf_bit_len as u64,
    }
}

/// A node count as the proof scheme takes it. Counts beyond the largest known
/// sector are all treated alike by the scheme, so they are held to that size.
fn scheme_nodes(nodes: u64) -> (n: usize)
    ensures
        n == if nodes <= MAX_SECTOR_NODES { nodes } else { MAX_SECTOR_NODES },
{
    if nodes <= MAX_SECTOR_NODES {
        nodes as usize
    } else {
        MAX_SECTOR_NODES as usize
    }
}

impl PoRepConfig {
    /// The number of nodes in the sector.
    pub fn nodes_count(&self) -> (n: u64)
        ensures
            n == nodes_count_spec(self.sector_bytes()),
    {
        self.sector_size.0 / NODE_SIZE
    }

    /// The scheme-selection parameter of the sector.
    pub open spec fn h_select_spec(self) -> HSelect {
        HSelect(h_default_spec(nodes_count_spec(self.sector_bytes())) as u64)
    }

    /// The scheme-selection parameter of the sector.
    pub fn h_select(&self) -> (h: HSelect)
        ensures
            h == self.h_select_spec(),
    {
        let h = scheme_h_default(scheme_nodes(self.nodes_count()));
        HSelect(h as u64)
    }

    /// The number of partitions of the sector's update proof.
    pub open spec fn update_partitions_spec(self) -> UpdateProofPartitions {
        UpdateProofPartitions(partition_count_spec(nodes_count_spec(self.sector_bytes())) as u8)
    }

    /// The number of partitions of the sector's update proof.
    pub fn update_partitions(&self) -> (p: UpdateProofPartitions)
        ensures
            p == self.update_partitions_spec(),
    {
        let p = scheme_partition_count(scheme_nodes(self.nodes_count()));
        UpdateProofPartitions(p as u8)
    }

    /// Whether the proof scheme has public parameters for the sector.
    pub open spec fn is_provable(self) -> bool {
        is_allowed_sector_size(self.sector_bytes()) && self.sector_bytes() <= usize::MAX
    }

    /// Whether the proof scheme has public parameters for the sector.
    pub fn check_provable(&self) -> (ok: bool)
        ensures
            ok == self.is_provable(),
    {
        let size = self.sector_size.0;
        let nodes = size / NODE_SIZE;
        let known = size % NODE_SIZE == 0 && (nodes == 0x20 || nodes == 0x40 || nodes == 0x80
            || nodes == 0x100 || nodes == 0x200 || nodes == 0x400 || nodes == 0x4_0000 || nodes
            == 0x8_0000 || nodes == 0x100_0000 || nodes == 0x4000_0000 || nodes == 0x8000_0000);
        known && size <= usize::MAX as u64
    }

    /// The public parameters of the sector's update proof.
    pub fn public_params(&self) -> (p: PublicParams)
        requires
            self.is_provable(),
        ensures
            p == public_params_spec(self.sector_bytes()),
    {
        scheme_public_params(self.sector_size.0)
    }
}

/// The public parameters name as many partitions as the configuration does.
pub proof fn lemma_public_params_partitions(config: PoRepConfig)
    ensures
        public_params_spec(config.sector_bytes()).partition_count
            == config.update_partitions_spec().0,
{
}

/// The partition count is 1, 2, 4 or 16: it is never zero and fits in a byte.
pub proof fn lemma_partition_count_values(nodes: int)
    ensures
        partition_count_spec(nodes) == 1 || partition_count_spec(nodes) == 2
            || partition_count_spec(nodes) == 4 || partition_count_spec(nodes) == 16,
{
}

/// More nodes never mean fewer partitions.
pub proof fn lemma_partition_count_monotonic(a: int, b: int)
    requires
        a <= b,
    ensures
        partition_count_spec(a) <= partition_count_spec(b),
{
}

} // verus!
