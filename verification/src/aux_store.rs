//! The auxiliary records of a sector: the persistent record with its two
//! commitments, and the temporary record with the storage configuration of the
//! sector's trees.
//!
//! Both are read from the bytes of their files. A temporary record can be
//! pointed at another cache directory: the tree layout stays, only the place
//! where the trees are looked for changes.

use vstd::prelude::*;
use filecoin_hashers::poseidon::PoseidonDomain;
use filecoin_hashers::sha256::Sha256Hasher;
use storage_proofs_core::cache_key::CacheKey;
use storage_proofs_porep::stacked;
use storage_proofs_update::constants::TreeRBaseTree;
use crate::types::{AuxFile, Commitment, UpdateError, UpdateErrorView};

verus! {

/// The persistent record: written once when the sector is sealed, read by
/// every transition.
#[derive(Clone, Copy, Debug, PartialEq, Eq)]
pub struct PersistentAux {
    pub comm_c: Commitment,
    pub comm_r_last: Commitment,
}

/// The mathematical value of a [`PersistentAux`].
pub struct PersistentAuxView {
    pub comm_c: Seq<u8>,
    pub comm_r_last: Seq<u8>,
}

impl View for PersistentAux {
    type V = PersistentAuxView;

    open spec fn view(&self) -> PersistentAuxView {
        PersistentAuxView { comm_c: self.comm_c@, comm_r_last: self.comm_r_last@ }
    }
}

/// Where and how one tree is stored.
#[derive(Debug, PartialEq, Eq)]
pub struct StoreConfig {
    /// The directory that holds the tree.
    pub path: String,
    /// The name of the tree within the directory.
    pub id: String,
    /// The number of elements stored, where it is known.
    pub size: Option<usize>,
    /// The number of tree rows that are not kept on disk.
    pub rows_to_discard: usize,
}

/// The mathematical value of a [`StoreConfig`].
pub struct StoreConfigView {
    pub path: Seq<char>,
    pub id: Seq<char>,
    pub size: Option<usize>,
    pub rows_to_discard: usize,
}

impl View for StoreConfig {
    type V = StoreConfigView;

    open spec fn view(&self) -> StoreConfigView {
        StoreConfigView {
            path: self.path@,
            id: self.id@,
            size: self.size,
            rows_to_discard: self.rows_to_discard,
        }
    }
}

impl StoreConfigView {
    /// The same tree, looked for in `dir`.
    pub open spec fn repoint(self, dir: Seq<char>) -> StoreConfigView {
        StoreConfigView { path: dir, ..self }
    }
}

/// The temporary record: the storage configuration of the label layers and of
/// the three trees of a sector.
#[derive(Debug, PartialEq, Eq)]
pub struct TemporaryAux {
    /// One configuration per label layer.
    pub labels: Vec<StoreConfig>,
    /// The data tree.
    pub tree_d_config: StoreConfig,
    /// The tree over the replica's last layer.
    pub tree_r_last_config: StoreConfig,
    /// The column-hash tree.
    pub tree_c_config: StoreConfig,
}

/// The mathematical value of a [`TemporaryAux`].
pub struct TemporaryAuxView {
    pub labels: Seq<StoreConfigView>,
    pub tree_d_config: StoreConfigView,
    pub tree_r_last_config: StoreConfigView,
    pub tree_c_config: StoreConfigView,
}

impl View for TemporaryAux {
    type V = TemporaryAuxView;

    open spec fn view(&self) -> TemporaryAuxView {
        TemporaryAuxView {
            labels: self.labels@.map_values(|c: StoreConfig| c@),
            tree_d_config: self.tree_d_config@,
            tree_r_last_config: self.tree_r_last_config@,
            tree_c_config: self.tree_c_config@,
        }
    }
}

impl TemporaryAuxView {
    /// The same record with every configuration looked for in `dir`.
    pub open spec fn repoint(self, dir: Seq<char>) -> TemporaryAuxView {
        TemporaryAuxView {
            labels: self.labels.map_values(|c: StoreConfigView| c.repoint(dir)),
            tree_d_config: self.tree_d_config.repoint(dir),
            tree_r_last_config: self.tree_r_last_config.repoint(dir),
            tree_c_config: self.tree_c_config.repoint(dir),
        }
    }

    /// Whether every configuration of the record is looked for in `dir`.
    pub open spec fn points_to(self, dir: Seq<char>) -> bool {
        &&& forall|i: int| 0 <= i < self.labels.len() ==> (#[trigger] self.labels[i]).path == dir
        &&& self.tree_d_config.path == dir
        &&& self.tree_r_last_config.path == dir
        &&& self.tree_c_config.path == dir
    }

    /// Whether two records describe the same trees, wherever they are stored.
    pub open spec fn same_layout(self, other: TemporaryAuxView) -> bool {
        self.repoint(Seq::empty()) == other.repoint(Seq::empty())
    }
}

/// The name of the file that holds a record within its cache directory.
pub open spec fn file_name_spec(file: AuxFile) -> Seq<char> {
    match file {
        AuxFile::Persistent => "p_aux"@,
        AuxFile::Temporary => "t_aux"@,
    }
}

/// The persistent record that `bytes` hold: the two commitments are the first
/// 64 bytes, `comm_c` before `comm_r_last`. Shorter input holds no record;
/// what follows the record is not looked at.
pub open spec fn persistent_aux_spec(bytes: Seq<u8>) -> Option<PersistentAuxView> {
    if bytes.len() >= 64 {
        Some(
            PersistentAuxView {
                comm_c: bytes.subrange(0, 32),
                comm_r_last: bytes.subrange(32, 64),
            },
        )
    } else {
        None
    }
}

/// The temporary record that `bytes` hold, as `bincode` reads it.
pub uninterp spec fn decoded_temporary_aux(bytes: Seq<u8>) -> Option<TemporaryAuxView>;

/// The outcome of loading the persistent record of `dir`, from what reading
/// its file gave.
pub open spec fn load_persistent_aux_spec(dir: Seq<char>, contents: Option<Seq<u8>>) -> Result<
    PersistentAuxView,
    UpdateErrorView,
> {
    match contents {
        None => Err(UpdateErrorView::Io { dir, file: AuxFile::Persistent }),
        Some(bytes) => match persistent_aux_spec(bytes) {
            None => Err(UpdateErrorView::Deserialize { dir, file: AuxFile::Persistent }),
            Some(aux) => Ok(aux),
        },
    }
}

/// The outcome of placing a decoded temporary record in `dir`.
pub open spec fn temporary_aux_in_spec(dir: Seq<char>, decoded: Option<TemporaryAuxView>) -> Result<
    TemporaryAuxView,
    UpdateErrorView,
> {
    match decoded {
        None => Err(UpdateErrorView::Deserialize { dir, file: AuxFile::Temporary }),
        Some(aux) => Ok(aux.repoint(dir)),
    }
}

/// The outcome of loading the temporary record of `dir`, from what reading its
/// file gave.
pub open spec fn load_temporary_aux_spec(dir: Seq<char>, contents: Option<Seq<u8>>) -> Result<
    TemporaryAuxView,
    UpdateErrorView,
> {
    match contents {
        None => Err(UpdateErrorView::Io { dir, file: AuxFile::Temporary }),
        Some(bytes) => temporary_aux_in_spec(dir, decoded_temporary_aux(bytes)),
    }
}

/// The views of a loading outcome.
pub open spec fn result_view<T: View>(r: Result<T, UpdateError>) -> Result<T::V, UpdateErrorView> {
    match r {
        Ok(v) => Ok(v@),
        Err(e) => Err(e@),
    }
}

/// `bincode::deserialize` of a `storage_proofs_porep::stacked::PersistentAux`
/// over the Poseidon domain, with the two commitments copied out. The record is
/// two arrays of 32 bytes, which `bincode` reads without a length in front; it
/// fails on input that ends before the 64th byte and ignores what follows it.
#[verifier::external_body]
fn bincode_persistent_aux(bytes: &[u8]) -> (r: Option<PersistentAux>)
    ensures
        match r {
            Some(aux) => persistent_aux_spec(bytes@) == Some(aux@),
            None => persistent_aux_spec(bytes@) is None,
        },
{
    match bincode::deserialize::<stacked::PersistentAux<PoseidonDomain>>(bytes) {
        Ok(aux) => Some(
            PersistentAux { comm_c: aux.comm_c.into(), comm_r_last: aux.comm_r_last.into() },
        ),
        Err(_) => None,
    }
}

/// `bincode::deserialize` of a `storage_proofs_porep::stacked::TemporaryAux`,
/// with its store configurations copied out field by field. The bytes do not
/// depend on the tree shape or the hasher that the outside type is
/// instantiated with. What comes back is a function of the bytes alone; the
/// contract gives it a name and says no more of it.
#[verifier::external_body]
fn bincode_temporary_aux(bytes: &[u8]) -> (r: Option<TemporaryAux>)
    ensures
        match r {
            Some(aux) => decoded_temporary_aux(bytes@) == Some(aux@),
            None => decoded_temporary_aux(bytes@) is None,
        },
{
    let conv = |c: &merkletree::store::StoreConfig| StoreConfig {
        path: c.path.to_string_lossy().into_owned(),
        id: c.id.clone(),
        size: c.size,
        rows_to_discard: c.rows_to_discard,
    };
    let t = bincode::deserialize::<stacked::TemporaryAux<TreeRBaseTree, Sha256Hasher>>(bytes).ok()?;
    Some(TemporaryAux {
        labels: t.labels.labels.iter().map(conv).collect(),
        tree_d_config: conv(&t.tree_d_config),
        tree_r_last_config: conv(&t.tree_r_last_config),
        tree_c_config: conv(&t.tree_c_config),
    })
}

/// The text that `storage_proofs_core::cache_key::CacheKey` displays for the
/// key of a record: `p_aux` for the persistent one, `t_aux` for the temporary
/// one.
#[verifier::external_body]
fn cache_key_name(file: AuxFile) -> (name: String)
    ensures
        name@ == file_name_spec(file),
{
    match file {
        AuxFile::Persistent => CacheKey::PAux.to_string(),
        AuxFile::Temporary => CacheKey::TAux.to_string(),
    }
}

/// The name of the file that holds the record `file` within a cache directory.
pub fn file_name(file: AuxFile) -> (name: String)
    ensures
        name@ == file_name_spec(file),
{
    cache_key_name(file)
}

/// A copy of `config` that is looked for in `dir`.
pub fn repoint_config(config: &StoreConfig, dir: &str) -> (r: StoreConfig)
    ensures
        r@ == config@.repoint(dir@),
{
    StoreConfig {
        path: dir.to_owned(),
        id: config.id.clone(),
        size: config.size,
        rows_to_discard: config.rows_to_discard,
    }
}

/// A copy of `t_aux` whose cache directory is `dir`.
///
/// The record that is handed in is left as it is. In the copy every store
/// configuration is looked for in `dir`; identifiers, sizes and discarded rows
/// are those of the record handed in. Nothing is read from disk and no tree is
/// checked.
pub fn repoint(t_aux: &TemporaryAux, dir: &str) -> (r: TemporaryAux)
    ensures
        r@ == t_aux@.repoint(dir@),
{
    let mut labels: Vec<StoreConfig> = Vec::new();
    let mut i: usize = 0;
    while i < t_aux.labels.len()
        invariant
            i <= t_aux.labels.len(),
            labels@.len() == i,
            forall|j: int| 0 <= j < i ==> (#[trigger] labels@[j])@ == t_aux.labels@[j]@.repoint(dir@),
        decreases t_aux.labels.len() - i,
    {
        labels.push(repoint_config(&t_aux.labels[i], dir));
        i += 1;
    }
    let r = TemporaryAux {
        labels,
        tree_d_config: repoint_config(&t_aux.tree_d_config, dir),
        tree_r_last_config: repoint_config(&t_aux.tree_r_last_config, dir),
        tree_c_config: repoint_config(&t_aux.tree_c_config, dir),
    };
    assert(r@.labels =~= t_aux@.repoint(dir@).labels);
    r
}

/// Loads the persistent record of the cache directory `dir` from the outcome
/// of reading its file: the contents, or `None` where the file could not be
/// read.
pub fn load_persistent_aux(dir: &str, contents: Option<&[u8]>) -> (r: Result<
    PersistentAux,
    UpdateError,
>)
    ensures
        result_view(r) == load_persistent_aux_spec(
            dir@,
            match contents {
                Some(bytes) => Some(bytes@),
                None => None,
            },
        ),
{
    match contents {
        None => Err(UpdateError::Io { dir: dir.to_owned(), file: AuxFile::Persistent }),
        Some(bytes) => match bincode_persistent_aux(bytes) {
            None => Err(UpdateError::Deserialize { dir: dir.to_owned(), file: AuxFile::Persistent }),
            Some(aux) => Ok(aux),
        },
    }
}

/// Places a decoded temporary record in the cache directory `dir`. `None`
/// stands for bytes that hold no record.
pub fn temporary_aux_in(dir: &str, decoded: Option<TemporaryAux>) -> (r: Result<
    TemporaryAux,
    UpdateError,
>)
    ensures
        result_view(r) == temporary_aux_in_spec(
            dir@,
            match decoded {
                Some(aux) => Some(aux@),
                None => None,
            },
        ),
{
    match decoded {
        None => Err(UpdateError::Deserialize { dir: dir.to_owned(), file: AuxFile::Temporary }),
        Some(aux) => Ok(repoint(&aux, dir)),
    }
}

/// Loads the temporary record of the cache directory `dir` from the outcome of
/// reading its file: the contents, or `None` where the file could not be read.
/// The record that comes back has `dir` as its cache directory.
pub fn load_temporary_aux(dir: &str, contents: Option<&[u8]>) -> (r: Result<
    TemporaryAux,
    UpdateError,
>)
    ensures
        result_view(r) == load_temporary_aux_spec(
            dir@,
            match contents {
                Some(bytes) => Some(bytes@),
                None => None,
            },
        ),
{
    match contents {
        None => Err(UpdateError::Io { dir: dir.to_owned(), file: AuxFile::Temporary }),
        Some(bytes) => temporary_aux_in(dir, bincode_temporary_aux(bytes)),
    }
}

/// A repointed record has the directory it was pointed at as its cache
/// directory, and the layout of the record it was made from.
pub proof fn lemma_repoint_points_to(t: TemporaryAuxView, dir: Seq<char>)
    ensures
        t.repoint(dir).points_to(dir),
        t.repoint(dir).same_layout(t),
        t.repoint(dir).labels.len() == t.labels.len(),
        forall|i: int|
            0 <= i < t.labels.len() ==> {
                &&& (#[trigger] t.repoint(dir).labels[i]).id == t.labels[i].id
                &&& t.repoint(dir).labels[i].size == t.labels[i].size
                &&& t.repoint(dir).labels[i].rows_to_discard == t.labels[i].rows_to_discard
            },
        t.repoint(dir).tree_d_config == (StoreConfigView { path: dir, ..t.tree_d_config }),
        t.repoint(dir).tree_r_last_config == (StoreConfigView { path: dir, ..t.tree_r_last_config }),
        t.repoint(dir).tree_c_config == (StoreConfigView { path: dir, ..t.tree_c_config }),
{
    assert(t.repoint(dir).repoint(Seq::empty()).labels =~= t.repoint(Seq::empty()).labels);
}

/// Only the last repointing counts: pointing a record at `first` and then at
/// `second` is pointing it at `second`.
pub proof fn lemma_repoint_last_wins(t: TemporaryAuxView, first: Seq<char>, second: Seq<char>)
    ensures
        t.repoint(first).repoint(second) == t.repoint(second),
{
    assert(t.repoint(first).repoint(second).labels =~= t.repoint(second).labels);
}

/// Repointing a record at the directory that it already points to changes
/// nothing.
pub proof fn lemma_repoint_idempotent(t: TemporaryAuxView, dir: Seq<char>)
    requires
        t.points_to(dir),
    ensures
        t.repoint(dir) == t,
{
    assert(t.repoint(dir).labels =~= t.labels);
}

/// Two views of one record, pointed at different directories, differ in
/// nothing but the directory.
pub proof fn lemma_repoint_views_share_layout(t: TemporaryAuxView, a: Seq<char>, b: Seq<char>)
    ensures
        t.repoint(a).same_layout(t.repoint(b)),
{
    lemma_repoint_last_wins(t, a, Seq::empty());
    lemma_repoint_last_wins(t, b, Seq::empty());
}

/// A loaded temporary record points at the directory it was loaded from.
pub proof fn lemma_loaded_temporary_aux_points_to(dir: Seq<char>, contents: Option<Seq<u8>>)
    ensures
        load_temporary_aux_spec(dir, contents) matches Ok(aux) ==> aux.points_to(dir),
{
    if let Some(bytes) = contents {
        if let Some(aux) = decoded_temporary_aux(bytes) {
            lemma_repoint_points_to(aux, dir);
        }
    }
}

} // verus!
