//! Plain data shared by every part of the library: commitments, the sector
//! configuration, and the error taxonomy.

use vstd::prelude::*;

verus! {

/// A raw commitment: the 32 bytes of a cryptographic digest, as callers hold it.
pub type Commitment = [u8; 32];

/// The size of a sector in bytes.
#[derive(Clone, Copy, Debug, PartialEq, Eq)]
pub struct SectorSize(pub u64);

/// What the transitions need to know about a sector.
#[derive(Clone, Copy, Debug, PartialEq, Eq)]
pub struct PoRepConfig {
    pub sector_size: SectorSize,
}

/// The scheme-selection parameter `h`: how many high bits of each challenge
/// select the randomness used to encode a node.
#[derive(Clone, Copy, Debug, PartialEq, Eq)]
pub struct HSelect(pub u64);

/// The number of partitions of an update proof.
#[derive(Clone, Copy, Debug, PartialEq, Eq)]
pub struct UpdateProofPartitions(pub u8);

/// One piece of client data inside a sector: its commitment and unpadded size.
#[derive(Clone, Copy, Debug, PartialEq, Eq)]
pub struct PieceInfo {
    pub commitment: Commitment,
    pub size: u64,
}

/// The two records persisted in a cache directory.
#[derive(Clone, Copy, Debug, PartialEq, Eq)]
pub enum AuxFile {
    /// The persistent record (`comm_c`, `comm_r_last`).
    Persistent,
    /// The temporary record (tree storage configuration).
    Temporary,
}

/// The commitments that an encoding produces.
#[derive(Clone, Copy, Debug, PartialEq, Eq)]
pub enum CommitmentRole {
    /// The data root.
    CommD,
    /// The replica root.
    CommR,
    /// The root of the replica's last layer.
    CommRLast,
}

/// Why an operation was abandoned. No error is recovered from: each aborts the
/// operation it occurs in.
#[derive(Debug, PartialEq, Eq)]
pub enum UpdateError {
    /// An auxiliary record could not be read from `dir`.
    Io { dir: String, file: AuxFile },
    /// The bytes of an auxiliary record in `dir` are not a valid record.
    Deserialize { dir: String, file: AuxFile },
    /// A raw commitment is not a valid domain element.
    InvalidCommitment,
    /// A computed commitment is the all-zero value.
    Integrity { role: CommitmentRole },
    /// The computed data root does not follow from the declared pieces.
    PieceMismatch,
    /// The tree cache is not consistent with the data file it was bound to.
    Hydration,
    /// The delegated proof-scheme routine, or the piece verification, failed.
    Scheme,
    /// The driver reported an outcome that the operation was not waiting for.
    UnexpectedEvent,
}

/// The mathematical value of an [`UpdateError`]: directories as sequences of
/// characters.
pub enum UpdateErrorView {
    Io { dir: Seq<char>, file: AuxFile },
    Deserialize { dir: Seq<char>, file: AuxFile },
    InvalidCommitment,
    Integrity { role: CommitmentRole },
    PieceMismatch,
    Hydration,
    Scheme,
    UnexpectedEvent,
}

impl View for UpdateError {
    type V = UpdateErrorView;

    open spec fn view(&self) -> UpdateErrorView {
        match *self {
            UpdateError::Io { dir, file } => UpdateErrorView::Io { dir: dir@, file },
            UpdateError::Deserialize { dir, file } => UpdateErrorView::Deserialize {
                dir: dir@,
                file,
            },
            UpdateError::InvalidCommitment => UpdateErrorView::InvalidCommitment,
            UpdateError::Integrity { role } => UpdateErrorView::Integrity { role },
            UpdateError::PieceMismatch => UpdateErrorView::PieceMismatch,
            UpdateError::Hydration => UpdateErrorView::Hydration,
            UpdateError::Scheme => UpdateErrorView::Scheme,
            UpdateError::UnexpectedEvent => UpdateErrorView::UnexpectedEvent,
        }
    }
}

impl PoRepConfig {
    /// The sector size in bytes.
    pub open spec fn sector_bytes(self) -> int {
        self.sector_size.0 as int
    }
}

} // verus!
