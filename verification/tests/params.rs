use sector_update::params::{PublicParams, MAX_SECTOR_NODES, NODE_SIZE};
use sector_update::types::{HSelect, PoRepConfig, SectorSize, UpdateProofPartitions};
use storage_proofs_update::constants;

fn config(sector_size: u64) -> PoRepConfig {
    PoRepConfig { sector_size: SectorSize(sector_size) }
}

const KNOWN_SECTOR_NODES: [u64; 11] = [
    1 << 5,
    1 << 6,
    1 << 7,
    1 << 8,
    1 << 9,
    1 << 10,
    1 << 18,
    1 << 19,
    1 << 24,
    1 << 30,
    1 << 31,
];

#[test]
fn node_size_is_that_of_the_proof_scheme() {
    assert_eq!(NODE_SIZE, 32);
    assert_eq!(NODE_SIZE as usize, storage_proofs_core::util::NODE_SIZE);
    assert_eq!(MAX_SECTOR_NODES as usize, constants::SECTOR_SIZE_64_GIB);
}

#[test]
fn nodes_count_is_the_sector_size_over_the_node_size() {
    assert_eq!(config(0).nodes_count(), 0);
    assert_eq!(config(31).nodes_count(), 0);
    assert_eq!(config(32).nodes_count(), 1);
    assert_eq!(config(2048).nodes_count(), 64);
    assert_eq!(config(2079).nodes_count(), 64);
    assert_eq!(config(34_359_738_368).nodes_count(), 1_073_741_824);
    assert_eq!(config(u64::MAX).nodes_count(), u64::MAX / 32);
}

#[test]
fn partitions_change_at_the_thresholds() {
    let expected: [(u64, u8); 9] = [
        (0, 1),
        (256, 1),
        (257, 2),
        (1024, 2),
        (1025, 4),
        (524_288, 4),
        (524_289, 16),
        (1 << 31, 16),
        (u64::MAX / 32, 16),
    ];
    for (nodes, partitions) in expected {
        assert_eq!(config(nodes * 32).update_partitions(), UpdateProofPartitions(partitions));
    }
}

#[test]
fn partitions_agree_with_the_proof_scheme() {
    for nodes in KNOWN_SECTOR_NODES {
        assert_eq!(
            config(nodes * 32).update_partitions().0 as usize,
            constants::partition_count(nodes as usize)
        );
    }
}

#[test]
fn h_select_changes_at_the_threshold() {
    let expected: [(u64, u64); 6] =
        [(0, 1), (32, 1), (1024, 1), (1025, 10), (1 << 30, 10), (u64::MAX / 32, 10)];
    for (nodes, h) in expected {
        assert_eq!(config(nodes * 32).h_select(), HSelect(h));
    }
}

#[test]
fn h_select_agrees_with_the_proof_scheme() {
    for nodes in KNOWN_SECTOR_NODES {
        assert_eq!(
            config(nodes * 32).h_select().0 as usize,
            constants::h_default(nodes as usize)
        );
        assert!(constants::hs(nodes as usize).contains(&(config(nodes * 32).h_select().0 as usize)));
    }
}

#[test]
fn only_known_sector_sizes_are_provable() {
    for nodes in KNOWN_SECTOR_NODES {
        assert!(config(nodes * 32).check_provable());
        assert!(!config(nodes * 32 + 1).check_provable());
        assert!(!config(nodes * 32 + 32).check_provable());
    }
    for size in [0u64, 1, 32, 512, 1023, 4096 * 1024, u64::MAX] {
        assert!(!config(size).check_provable());
    }
}

#[test]
fn public_params_of_a_2_kib_sector() {
    assert_eq!(
        config(2048).public_params(),
        PublicParams {
            sector_nodes: 64,
            challenge_count: 10,
            challenge_bit_len: 6,
            partition_count: 1,
            partition_bit_len: 0,
            apex_leaf_count: 8,
            apex_leaf_bit_len: 3,
        }
    );
}

#[test]
fn public_params_of_a_32_gib_sector() {
    assert_eq!(
        config(32 << 30).public_params(),
        PublicParams {
            sector_nodes: 1 << 30,
            challenge_count: 86,
            challenge_bit_len: 30,
            partition_count: 16,
            partition_bit_len: 4,
            apex_leaf_count: 128,
            apex_leaf_bit_len: 7,
        }
    );
}

#[test]
fn public_params_of_every_known_sector_size() {
    let expected: [(u64, u64, u64, u64, u64, u64, u64); 11] = [
        (1 << 5, 10, 5, 1, 0, 8, 3),
        (1 << 6, 10, 6, 1, 0, 8, 3),
        (1 << 7, 10, 7, 1, 0, 8, 3),
        (1 << 8, 10, 8, 1, 0, 8, 3),
        (1 << 9, 10, 9, 2, 1, 128, 7),
        (1 << 10, 10, 10, 2, 1, 128, 7),
        (1 << 18, 10, 18, 4, 2, 128, 7),
        (1 << 19, 10, 19, 4, 2, 128, 7),
        (1 << 24, 86, 24, 16, 4, 128, 7),
        (1 << 30, 86, 30, 16, 4, 128, 7),
        (1 << 31, 86, 31, 16, 4, 128, 7),
    ];
    for (nodes, challenges, bits, partitions, partition_bits, apex, apex_bits) in expected {
        let p = config(nodes * 32).public_params();
        assert_eq!(
            p,
            PublicParams {
                sector_nodes: nodes,
                challenge_count: challenges,
                challenge_bit_len: bits,
                partition_count: partitions,
                partition_bit_len: partition_bits,
                apex_leaf_count: apex,
                apex_leaf_bit_len: apex_bits,
            }
        );
        assert_eq!(p.partition_count, config(nodes * 32).update_partitions().0 as u64);
    }
}

#[test]
fn public_params_agree_with_the_proof_scheme() {
    for nodes in KNOWN_SECTOR_NODES {
        let p = config(nodes * 32).public_params();
        let outside = storage_proofs_update::PublicParams::from_sector_size(nodes * 32);
        assert_eq!(p.sector_nodes as usize, outside.sector_nodes);
        assert_eq!(p.challenge_count as usize, outside.challenge_count);
        assert_eq!(p.challenge_bit_len as usize, outside.challenge_bit_len);
        assert_eq!(p.partition_count as usize, outside.partition_count);
        assert_eq!(p.partition_bit_len as usize, outside.partition_bit_len);
        assert_eq!(p.apex_leaf_count as usize, outside.apex_leaf_count);
        assert_eq!(p.apex_leaf_bit_len as usize, outside.apex_leaf_bit_len);
    }
}
