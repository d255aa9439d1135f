use std::marker::PhantomData;
use std::path::PathBuf;

use filecoin_hashers::poseidon::PoseidonDomain;
use filecoin_hashers::sha256::Sha256Hasher;
use sector_update::aux_store::{
    load_persistent_aux, load_temporary_aux, repoint, repoint_config, temporary_aux_in,
    PersistentAux, StoreConfig, TemporaryAux,
};
use sector_update::types::{AuxFile, UpdateError};
use storage_proofs_porep::stacked;
use storage_proofs_update::constants::TreeRBaseTree;

fn outside_config(path: &str, id: &str, size: Option<usize>, rows: usize) -> merkletree::store::StoreConfig {
    merkletree::store::StoreConfig {
        path: PathBuf::from(path),
        id: id.to_string(),
        size,
        rows_to_discard: rows,
    }
}

fn outside_t_aux(dir: &str) -> stacked::TemporaryAux<TreeRBaseTree, Sha256Hasher> {
    stacked::TemporaryAux {
        labels: stacked::Labels::new(vec![
            outside_config(dir, "layer-1", Some(64), 0),
            outside_config(dir, "layer-2", Some(64), 0),
        ]),
        tree_d_config: outside_config(dir, "tree-d", Some(127), 0),
        tree_r_last_config: outside_config(dir, "tree-r-last", Some(73), 2),
        tree_c_config: outside_config(dir, "tree-c", None, 0),
        _g: PhantomData,
    }
}

fn config(path: &str, id: &str, size: Option<usize>, rows: usize) -> StoreConfig {
    StoreConfig { path: path.to_string(), id: id.to_string(), size, rows_to_discard: rows }
}

fn t_aux(dir: &str) -> TemporaryAux {
    TemporaryAux {
        labels: vec![config(dir, "layer-1", Some(64), 0), config(dir, "layer-2", Some(64), 0)],
        tree_d_config: config(dir, "tree-d", Some(127), 0),
        tree_r_last_config: config(dir, "tree-r-last", Some(73), 2),
        tree_c_config: config(dir, "tree-c", None, 0),
    }
}

fn counting(from: u8) -> [u8; 32] {
    let mut out = [0u8; 32];
    for (i, b) in out.iter_mut().enumerate() {
        *b = from.wrapping_add(i as u8);
    }
    out
}

#[test]
fn persistent_aux_is_the_first_64_bytes() {
    let mut bytes = Vec::new();
    bytes.extend_from_slice(&counting(1));
    bytes.extend_from_slice(&counting(101));
    let aux = load_persistent_aux("/cache", Some(&bytes)).unwrap();
    assert_eq!(aux, PersistentAux { comm_c: counting(1), comm_r_last: counting(101) });
}

#[test]
fn persistent_aux_agrees_with_the_serialized_record() {
    let record = stacked::PersistentAux {
        comm_c: PoseidonDomain::from(counting(7)),
        comm_r_last: PoseidonDomain::from(counting(200)),
    };
    let bytes = bincode::serialize(&record).unwrap();
    assert_eq!(bytes.len(), 64);
    let aux = load_persistent_aux("/cache", Some(&bytes)).unwrap();
    assert_eq!(aux.comm_c, counting(7));
    assert_eq!(aux.comm_r_last, counting(200));
}

#[test]
fn persistent_aux_ignores_what_follows_the_record() {
    let mut bytes = vec![9u8; 64];
    bytes.extend_from_slice(&[1, 2, 3]);
    let aux = load_persistent_aux("/cache", Some(&bytes)).unwrap();
    assert_eq!(aux, PersistentAux { comm_c: [9; 32], comm_r_last: [9; 32] });
}

#[test]
fn persistent_aux_accepts_bytes_outside_the_field() {
    let bytes = vec![255u8; 64];
    let aux = load_persistent_aux("/cache", Some(&bytes)).unwrap();
    assert_eq!(aux, PersistentAux { comm_c: [255; 32], comm_r_last: [255; 32] });
}

#[test]
fn short_persistent_aux_is_a_deserialize_error() {
    for len in [0usize, 1, 31, 32, 63] {
        let bytes = vec![5u8; len];
        assert_eq!(
            load_persistent_aux("/cache", Some(&bytes)),
            Err(UpdateError::Deserialize { dir: "/cache".to_string(), file: AuxFile::Persistent })
        );
    }
}

#[test]
fn unreadable_persistent_aux_is_an_io_error() {
    assert_eq!(
        load_persistent_aux("/cache", None),
        Err(UpdateError::Io { dir: "/cache".to_string(), file: AuxFile::Persistent })
    );
}

#[test]
fn temporary_aux_is_read_as_it_was_written() {
    let bytes = bincode::serialize(&outside_t_aux("/cache")).unwrap();
    assert_eq!(load_temporary_aux("/cache", Some(&bytes)), Ok(t_aux("/cache")));
}

#[test]
fn loaded_temporary_aux_points_to_the_directory_it_was_loaded_from() {
    let bytes = bincode::serialize(&outside_t_aux("/sealed/elsewhere")).unwrap();
    assert_eq!(load_temporary_aux("/cache", Some(&bytes)), Ok(t_aux("/cache")));
}

#[test]
fn temporary_aux_without_labels_is_read() {
    let mut record = outside_t_aux("/c");
    record.labels = stacked::Labels::new(Vec::new());
    let bytes = bincode::serialize(&record).unwrap();
    let mut expected = t_aux("/c");
    expected.labels = Vec::new();
    assert_eq!(load_temporary_aux("/c", Some(&bytes)), Ok(expected));
}

#[test]
fn truncated_temporary_aux_is_a_deserialize_error() {
    let bytes = bincode::serialize(&outside_t_aux("/cache")).unwrap();
    let err = Err(UpdateError::Deserialize { dir: "/cache".to_string(), file: AuxFile::Temporary });
    assert_eq!(load_temporary_aux("/cache", Some(&bytes[..bytes.len() - 1])), err);
    assert_eq!(load_temporary_aux("/cache", Some(&bytes[..3])), err);
    assert_eq!(load_temporary_aux("/cache", Some(&[])), err);
}

#[test]
fn unreadable_temporary_aux_is_an_io_error_that_names_it() {
    assert_eq!(
        load_temporary_aux("/cache", None),
        Err(UpdateError::Io { dir: "/cache".to_string(), file: AuxFile::Temporary })
    );
}

#[test]
fn temporary_aux_in_places_or_fails() {
    assert_eq!(temporary_aux_in("/new", Some(t_aux("/old"))), Ok(t_aux("/new")));
    assert_eq!(
        temporary_aux_in("/new", None),
        Err(UpdateError::Deserialize { dir: "/new".to_string(), file: AuxFile::Temporary })
    );
}

#[test]
fn repoint_replaces_every_path_and_nothing_else() {
    let record = t_aux("/old");
    let copy = repoint(&record, "/new");
    assert_eq!(copy, t_aux("/new"));
    assert_eq!(record, t_aux("/old"));
}

#[test]
fn repoint_agrees_with_set_cache_path() {
    let mut outside = outside_t_aux("/old");
    outside.set_cache_path("/new");
    let bytes = bincode::serialize(&outside).unwrap();
    let reread = load_temporary_aux("/new", Some(&bytes)).unwrap();
    assert_eq!(repoint(&t_aux("/old"), "/new"), reread);
}

#[test]
fn repoint_twice_keeps_the_last_directory() {
    let once = repoint(&t_aux("/a"), "/b");
    assert_eq!(repoint(&once, "/c"), repoint(&t_aux("/a"), "/c"));
    assert_eq!(repoint(&once, "/b"), once);
}

#[test]
fn repoint_config_keeps_identity_and_shape() {
    let c = config("/old", "tree-r-last", Some(73), 2);
    assert_eq!(repoint_config(&c, ""), config("", "tree-r-last", Some(73), 2));
}
