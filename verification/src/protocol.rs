//! What a transition asks of its driver, and what the driver answers.
//!
//! A transition never touches a file and never runs the proof scheme. It hands
//! out one [`Action`] at a time; the driver performs it and reports the
//! outcome as an [`Event`], on which the transition decides what comes next.

use vstd::prelude::*;
use crate::aux_store::{StoreConfig, TemporaryAux};
use crate::commitment::{is_zero, is_zero_spec, Domain};
use crate::params::PublicParams;
use crate::types::{
    AuxFile, Commitment, CommitmentRole, PieceInfo, SectorSize, UpdateError, UpdateErrorView,
};

verus! {

/// The arguments of the proof scheme's encode routine.
#[derive(Debug, PartialEq, Eq)]
pub struct EncodeRequest {
    pub nodes_count: u64,
    pub comm_c: Domain,
    pub comm_sector_key: Domain,
    pub new_replica_path: String,
    pub new_cache_path: String,
    pub sector_key_path: String,
    pub sector_key_cache_path: String,
    pub staged_data_path: String,
    pub h: u64,
}

/// The arguments of the proof scheme's decode routine.
#[derive(Debug, PartialEq, Eq)]
pub struct DecodeRequest {
    pub nodes_count: u64,
    pub out_data_path: String,
    pub replica_path: String,
    pub sector_key_path: String,
    pub sector_key_cache_path: String,
    pub comm_c: Domain,
    pub comm_d_new: Domain,
    pub comm_sector_key: Domain,
    pub h: u64,
}

/// The arguments of the proof scheme's remove-data routine.
#[derive(Debug, PartialEq, Eq)]
pub struct RemoveRequest {
    pub nodes_count: u64,
    pub sector_key_path: String,
    pub sector_key_cache_path: String,
    pub replica_path: String,
    pub replica_cache_path: String,
    pub data_path: String,
    pub comm_c: Domain,
    pub comm_d_new: Domain,
    pub comm_sector_key: Domain,
    pub h: u64,
}

/// What the verifier of an update proof must supply as well.
#[derive(Clone, Copy, Debug, PartialEq, Eq)]
pub struct PublicInputs {
    /// The number of partitions. The scheme sets the index of each partition
    /// itself while it proves them in turn.
    pub k: u64,
    pub comm_c: Domain,
    pub comm_r_old: Domain,
    pub comm_d_new: Domain,
    pub comm_r_new: Domain,
    pub h: u64,
}

/// What only the prover of an update proof knows, besides the cache that the
/// preceding [`Action::Hydrate`] opened over the sector key.
#[derive(Debug, PartialEq, Eq)]
pub struct PrivateInputs {
    /// The data tree of the new replica.
    pub tree_d_new_config: StoreConfig,
    /// The last-layer tree of the new replica.
    pub tree_r_new_config: StoreConfig,
    /// The new replica.
    pub replica_path: String,
}

/// The arguments of the proof scheme's partitioned proving routine.
#[derive(Debug, PartialEq, Eq)]
pub struct ProveRequest {
    pub public_params: PublicParams,
    pub public_inputs: PublicInputs,
    pub private_inputs: PrivateInputs,
    pub partition_count: u64,
}

/// One piece of outside work.
#[derive(Debug, PartialEq, Eq)]
pub enum Action {
    /// Read the whole file of the record `file` in the cache directory `dir`.
    /// Answered by [`Event::FileRead`] or [`Event::FileUnreadable`].
    ReadAux { dir: String, file: AuxFile },
    /// Open the tree storage that `t_aux` describes and bind it to the data
    /// file `replica_path`. Answered by [`Event::Hydrated`] or
    /// [`Event::HydrationFailed`].
    Hydrate { t_aux: TemporaryAux, replica_path: String },
    /// Run the encode routine over the cache that was hydrated last. Answered
    /// by [`Event::Encoded`] or [`Event::SchemeFailed`].
    Encode(EncodeRequest),
    /// Recompute the data root from the pieces and compare it with `comm_d`.
    /// Answered by [`Event::PiecesVerified`] or [`Event::SchemeFailed`].
    VerifyPieces { comm_d: Commitment, piece_infos: Vec<PieceInfo>, sector_size: SectorSize },
    /// Run the decode routine. Answered by [`Event::SchemeDone`] or
    /// [`Event::SchemeFailed`].
    Decode(DecodeRequest),
    /// Run the remove-data routine. Answered by [`Event::SchemeDone`] or
    /// [`Event::SchemeFailed`].
    Remove(RemoveRequest),
    /// Prove every partition, over the cache that was hydrated last. Answered
    /// by [`Event::SchemeDone`] or [`Event::SchemeFailed`].
    Prove(ProveRequest),
}

/// The outcome of one piece of outside work.
#[derive(Debug, PartialEq, Eq)]
pub enum Event {
    /// The file was read; these are its contents.
    FileRead(Vec<u8>),
    /// The file could not be read.
    FileUnreadable,
    /// The tree storage is open and fits the data file.
    Hydrated,
    /// The tree storage could not be opened, or does not fit the data file.
    HydrationFailed,
    /// The encode routine returned these three roots.
    Encoded { comm_r: Domain, comm_r_last: Domain, comm_d: Domain },
    /// The piece verification ran; the flag tells whether the pieces give the
    /// data root.
    PiecesVerified(bool),
    /// The routine ran to its end.
    SchemeDone,
    /// The routine, or the piece verification, reported a failure.
    SchemeFailed,
}

/// What a transition does after an event: go on with another action, or end.
#[derive(Debug, PartialEq, Eq)]
pub enum Step<S, T> {
    /// The transition goes on in the state `S` and asks for the action.
    Next(S, Action),
    /// The transition is over.
    Done(Result<T, UpdateError>),
}

/// Whether a step ended the transition with the error `e`.
pub open spec fn fails_with<S, T>(r: Step<S, T>, e: UpdateErrorView) -> bool {
    r matches Step::Done(Err(err)) && err@ == e
}

/// Whether an action asks for the record `file` of the directory `dir`.
pub open spec fn reads_aux(a: Action, dir: Seq<char>, file: AuxFile) -> bool {
    a matches Action::ReadAux { dir: d, file: f } && d@ == dir && f == file
}

/// The first of `comm_d`, `comm_r`, `comm_r_last`, in this order, that is
/// all-zero.
pub open spec fn first_zero_commitment(comm_r: Seq<u8>, comm_r_last: Seq<u8>, comm_d: Seq<u8>) -> Option<
    CommitmentRole,
> {
    if is_zero_spec(comm_d) {
        Some(CommitmentRole::CommD)
    } else if is_zero_spec(comm_r) {
        Some(CommitmentRole::CommR)
    } else if is_zero_spec(comm_r_last) {
        Some(CommitmentRole::CommRLast)
    } else {
        None
    }
}

/// The three roots of an encoding, none of which is all-zero.
#[derive(Debug, PartialEq, Eq)]
pub struct EncodedCommitments {
    comm_r: Commitment,
    comm_r_last: Commitment,
    comm_d: Commitment,
}

impl EncodedCommitments {
    #[verifier::type_invariant]
    spec fn no_zero_root(self) -> bool {
        first_zero_commitment(self.comm_r@, self.comm_r_last@, self.comm_d@) is None
    }

    /// The replica root.
    pub closed spec fn spec_comm_r(self) -> Seq<u8> {
        self.comm_r@
    }

    /// The root of the replica's last layer.
    pub closed spec fn spec_comm_r_last(self) -> Seq<u8> {
        self.comm_r_last@
    }

    /// The data root.
    pub closed spec fn spec_comm_d(self) -> Seq<u8> {
        self.comm_d@
    }

    /// Accepts three roots if none of them is all-zero. Otherwise the error
    /// names the first that is: the data root before the replica root before
    /// the root of the last layer.
    pub fn check(comm_r: Commitment, comm_r_last: Commitment, comm_d: Commitment) -> (r: Result<
        EncodedCommitments,
        UpdateError,
    >)
        ensures
            match r {
                Ok(c) => {
                    &&& first_zero_commitment(comm_r@, comm_r_last@, comm_d@) is None
                    &&& c.spec_comm_r() == comm_r@
                    &&& c.spec_comm_r_last() == comm_r_last@
                    &&& c.spec_comm_d() == comm_d@
                },
                Err(e) => first_zero_commitment(comm_r@, comm_r_last@, comm_d@) matches Some(role)
                    && e == (UpdateError::Integrity { role }),
            },
    {
        if is_zero(&comm_d) {
            Err(UpdateError::Integrity { role: CommitmentRole::CommD })
        } else if is_zero(&comm_r) {
            Err(UpdateError::Integrity { role: CommitmentRole::CommR })
        } else if is_zero(&comm_r_last) {
            Err(UpdateError::Integrity { role: CommitmentRole::CommRLast })
        } else {
            Ok(EncodedCommitments { comm_r, comm_r_last, comm_d })
        }
    }

    /// The data root.
    pub fn comm_d(&self) -> (c: Commitment)
        ensures
            c@ == self.spec_comm_d(),
            !is_zero_spec(c@),
    {
        proof {
            use_type_invariant(self);
        }
        self.comm_d
    }

    /// The three roots: `comm_r`, `comm_r_last`, `comm_d`. None is all-zero.
    pub fn into_commitments(self) -> (r: (Commitment, Commitment, Commitment))
        ensures
            r.0@ == self.spec_comm_r(),
            r.1@ == self.spec_comm_r_last(),
            r.2@ == self.spec_comm_d(),
            !is_zero_spec(r.0@),
            !is_zero_spec(r.1@),
            !is_zero_spec(r.2@),
    {
        proof {
            use_type_invariant(&self);
        }
        (self.comm_r, self.comm_r_last, self.comm_d)
    }
}

} // verus!
