//! Encoding new data into an existing, empty replica.
//!
//! The transition loads both auxiliary records of the sector key, has the tree
//! cache opened over the sector key, has the data encoded, and then trusts the
//! three roots that come back only after two checks: none of them is all-zero,
//! and the data root follows from the declared pieces.

use vstd::prelude::*;
use vstd::slice::slice_to_vec;
use crate::aux_store::{
    lemma_loaded_temporary_aux_points_to, load_persistent_aux, load_persistent_aux_spec,
    load_temporary_aux, load_temporary_aux_spec, result_view, PersistentAux, PersistentAuxView,
    TemporaryAux, TemporaryAuxView,
};
use crate::commitment::{decode, encode, encode_spec, is_zero_spec, DomainView, HasherKind};
use crate::params::nodes_count_spec;
use crate::protocol::{
    fails_with, first_zero_commitment, reads_aux, Action, EncodeRequest, EncodedCommitments, Event,
    Step,
};
use crate::types::{
    AuxFile, Commitment, PieceInfo, PoRepConfig, UpdateError, UpdateErrorView,
};

verus! {

/// What an encoding is asked to do.
#[derive(Debug, PartialEq, Eq)]
pub struct EncodeArguments {
    pub config: PoRepConfig,
    pub new_replica_path: String,
    pub new_cache_path: String,
    pub sector_key_path: String,
    pub sector_key_cache_path: String,
    pub staged_data_path: String,
    pub piece_infos: Vec<PieceInfo>,
    pub comm_sector_key: Commitment,
}

/// How far an encoding has come: what it is waiting for.
#[derive(Debug, PartialEq, Eq)]
pub enum EncodeStage {
    /// The contents of the sector key's persistent record.
    LoadingPersistentAux,
    /// The contents of the sector key's temporary record.
    LoadingTemporaryAux { p_aux: PersistentAux },
    /// The tree cache over the sector key.
    Hydrating { p_aux: PersistentAux },
    /// The three roots of the encoding.
    Encoding,
    /// The verdict on the pieces.
    VerifyingPieces { commitments: EncodedCommitments },
}

/// An encoding under way: its arguments, and how far it has come.
#[derive(Debug, PartialEq, Eq)]
pub struct EncodeInto {
    pub arguments: EncodeArguments,
    pub stage: EncodeStage,
}

/// The outcome of a step of an encoding.
pub type EncodeStep = Step<EncodeInto, (Commitment, Commitment, Commitment)>;

impl EncodeArguments {
    /// Whether `req` is what the encode routine is handed, given the
    /// persistent record of the sector key.
    pub open spec fn requests(self, p_aux: PersistentAuxView, req: EncodeRequest) -> bool {
        &&& req.nodes_count == nodes_count_spec(self.config.sector_bytes())
        &&& req.comm_c@ == (DomainView { hasher: HasherKind::Poseidon, repr: p_aux.comm_c })
        &&& req.comm_sector_key@ == (DomainView {
            hasher: HasherKind::Poseidon,
            repr: self.comm_sector_key@,
        })
        &&& req.new_replica_path@ == self.new_replica_path@
        &&& req.new_cache_path@ == self.new_cache_path@
        &&& req.sector_key_path@ == self.sector_key_path@
        &&& req.sector_key_cache_path@ == self.sector_key_cache_path@
        &&& req.staged_data_path@ == self.staged_data_path@
        &&& req.h == self.config.h_select_spec().0
    }

    /// The arguments of the encode routine. Both commitments are decoded on
    /// the way; 32 bytes always decode, so the request is always made.
    pub fn request(&self, p_aux: &PersistentAux) -> (r: Result<EncodeRequest, UpdateError>)
        ensures
            r matches Ok(req) && self.requests(p_aux@, req),
    {
        Ok(
            EncodeRequest {
                nodes_count: self.config.nodes_count(),
                comm_c: decode(HasherKind::Poseidon, &p_aux.comm_c)?,
                comm_sector_key: decode(HasherKind::Poseidon, &self.comm_sector_key)?,
                new_replica_path: self.new_replica_path.clone(),
                new_cache_path: self.new_cache_path.clone(),
                sector_key_path: self.sector_key_path.clone(),
                sector_key_cache_path: self.sector_key_cache_path.clone(),
                staged_data_path: self.staged_data_path.clone(),
                h: self.config.h_select().0,
            },
        )
    }
}

impl EncodeInto {
    /// Whether `r` goes on with the same arguments, in a stage that meets
    /// `stage`, and asks for an action that meets `action`.
    pub open spec fn goes_on(
        self,
        r: EncodeStep,
        stage: spec_fn(EncodeStage) -> bool,
        action: spec_fn(Action) -> bool,
    ) -> bool {
        &&& r matches Step::Next(m, a)
        &&& m.arguments == self.arguments
        &&& stage(m.stage)
        &&& action(a)
    }

    /// Whether `r` is the step that this encoding takes once the temporary
    /// record is loaded, or could not be.
    pub open spec fn temporary_aux_loaded_spec(
        self,
        loaded: Result<TemporaryAuxView, UpdateErrorView>,
        r: EncodeStep,
    ) -> bool {
        match self.stage {
            EncodeStage::LoadingTemporaryAux { p_aux } => match loaded {
                Err(e) => fails_with(r, e),
                Ok(aux) => self.goes_on(
                    r,
                    |s: EncodeStage| s == (EncodeStage::Hydrating { p_aux }),
                    |a: Action|
                        a matches Action::Hydrate { t_aux, replica_path } && t_aux@ == aux
                            && replica_path@ == self.arguments.sector_key_path@,
                ),
            },
            _ => fails_with(r, UpdateErrorView::UnexpectedEvent),
        }
    }

    /// Whether `r` is the step that this encoding takes once the encode
    /// routine has returned the three roots with these raw commitments.
    pub open spec fn encoded_spec(
        self,
        comm_r: Seq<u8>,
        comm_r_last: Seq<u8>,
        comm_d: Seq<u8>,
        r: EncodeStep,
    ) -> bool {
        match first_zero_commitment(comm_r, comm_r_last, comm_d) {
            Some(role) => fails_with(r, UpdateErrorView::Integrity { role }),
            None => self.goes_on(
                r,
                |s: EncodeStage|
                    s matches EncodeStage::VerifyingPieces { commitments }
                        && commitments.spec_comm_r() == comm_r && commitments.spec_comm_r_last()
                        == comm_r_last && commitments.spec_comm_d() == comm_d,
                |a: Action|
                    a matches Action::VerifyPieces { comm_d: c, piece_infos, sector_size } && c@
                        == comm_d && piece_infos@ == self.arguments.piece_infos@ && sector_size
                        == self.arguments.config.sector_size,
            ),
        }
    }

    /// Whether `r` is the step that this encoding takes on `event`.
    ///
    /// Each stage waits for the answer to the action that led to it. The
    /// answer either ends the encoding with an error, or leads to the next
    /// stage and its action; the last one ends it with the three roots. An
    /// event that the stage does not wait for ends the encoding with
    /// [`UpdateError::UnexpectedEvent`].
    pub open spec fn step_spec(self, event: Event, r: EncodeStep) -> bool {
        let dir = self.arguments.sector_key_cache_path@;
        match (self.stage, event) {
            (EncodeStage::LoadingPersistentAux, Event::FileRead(bytes)) => match load_persistent_aux_spec(
                dir,
                Some(bytes@),
            ) {
                Err(e) => fails_with(r, e),
                Ok(aux) => self.goes_on(
                    r,
                    |s: EncodeStage|
                        s matches EncodeStage::LoadingTemporaryAux { p_aux } && p_aux@ == aux,
                    |a: Action| reads_aux(a, dir, AuxFile::Temporary),
                ),
            },
            (EncodeStage::LoadingPersistentAux, Event::FileUnreadable) => fails_with(
                r,
                UpdateErrorView::Io { dir, file: AuxFile::Persistent },
            ),
            (EncodeStage::LoadingTemporaryAux { .. }, Event::FileRead(bytes)) => self.temporary_aux_loaded_spec(
                load_temporary_aux_spec(dir, Some(bytes@)),
                r,
            ),
            (EncodeStage::LoadingTemporaryAux { .. }, Event::FileUnreadable) => self.temporary_aux_loaded_spec(
                load_temporary_aux_spec(dir, None),
                r,
            ),
            (EncodeStage::Hydrating { p_aux }, Event::Hydrated) => self.goes_on(
                r,
                |s: EncodeStage| s == EncodeStage::Encoding,
                |a: Action| a matches Action::Encode(req) && self.arguments.requests(p_aux@, req),
            ),
            (EncodeStage::Hydrating { .. }, Event::HydrationFailed) => fails_with(
                r,
                UpdateErrorView::Hydration,
            ),
            (EncodeStage::Encoding, Event::Encoded { comm_r, comm_r_last, comm_d }) => self.encoded_spec(
                encode_spec(comm_r@),
                encode_spec(comm_r_last@),
                encode_spec(comm_d@),
                r,
            ),
            (EncodeStage::Encoding, Event::SchemeFailed) => fails_with(r, UpdateErrorView::Scheme),
            (EncodeStage::VerifyingPieces { commitments }, Event::PiecesVerified(matching)) => if matching {
                &&& r matches Step::Done(Ok(roots))
                &&& roots.0@ == commitments.spec_comm_r()
                &&& roots.1@ == commitments.spec_comm_r_last()
                &&& roots.2@ == commitments.spec_comm_d()
            } else {
                fails_with(r, UpdateErrorView::PieceMismatch)
            },
            (EncodeStage::VerifyingPieces { .. }, Event::SchemeFailed) => fails_with(
                r,
                UpdateErrorView::Scheme,
            ),
            _ => fails_with(r, UpdateErrorView::UnexpectedEvent),
        }
    }

    /// Goes on with the temporary record of the sector key, or ends with the
    /// error that loading it gave. An encoding that is not waiting for the
    /// record ends with [`UpdateError::UnexpectedEvent`].
    pub fn temporary_aux_loaded(self, loaded: Result<TemporaryAux, UpdateError>) -> (r: EncodeStep)
        ensures
            self.temporary_aux_loaded_spec(result_view(loaded), r),
    {
        let EncodeInto { arguments, stage } = self;
        match stage {
            EncodeStage::LoadingTemporaryAux { p_aux } => match loaded {
                Err(e) => Step::Done(Err(e)),
                Ok(t_aux) => {
                    let replica_path = arguments.sector_key_path.clone();
                    Step::Next(
                        EncodeInto { arguments, stage: EncodeStage::Hydrating { p_aux } },
                        Action::Hydrate { t_aux, replica_path },
                    )
                },
            },
            _ => Step::Done(Err(UpdateError::UnexpectedEvent)),
        }
    }

    /// Takes the step that `event` calls for.
    ///
    /// Roots are handed out only at the end of a complete encoding, and none
    /// of them is ever all-zero.
    pub fn step(self, event: Event) -> (r: EncodeStep)
        ensures
            self.step_spec(event, r),
            r matches Step::Done(Ok(roots)) ==> {
                &&& self.stage is VerifyingPieces
                &&& event == Event::PiecesVerified(true)
                &&& !is_zero_spec(roots.0@)
                &&& !is_zero_spec(roots.1@)
                &&& !is_zero_spec(roots.2@)
            },
    {
        let EncodeInto { arguments, stage } = self;
        match (stage, event) {
            (EncodeStage::LoadingPersistentAux, Event::FileRead(bytes)) => {
                let dir = arguments.sector_key_cache_path.as_str();
                match load_persistent_aux(dir, Some(bytes.as_slice())) {
                    Err(e) => Step::Done(Err(e)),
                    Ok(p_aux) => {
                        let action = Action::ReadAux {
                            dir: arguments.sector_key_cache_path.clone(),
                            file: AuxFile::Temporary,
                        };
                        Step::Next(
                            EncodeInto {
                                arguments,
                                stage: EncodeStage::LoadingTemporaryAux { p_aux },
                            },
                            action,
                        )
                    },
                }
            },
            (EncodeStage::LoadingPersistentAux, Event::FileUnreadable) => {
                Step::Done(
                    Err(
                        UpdateError::Io {
                            dir: arguments.sector_key_cache_path,
                            file: AuxFile::Persistent,
                        },
                    ),
                )
            },
            (EncodeStage::LoadingTemporaryAux { p_aux }, Event::FileRead(bytes)) => {
                let loaded = load_temporary_aux(
                    arguments.sector_key_cache_path.as_str(),
                    Some(bytes.as_slice()),
                );
                EncodeInto {
                    arguments,
                    stage: EncodeStage::LoadingTemporaryAux { p_aux },
                }.temporary_aux_loaded(loaded)
            },
            (EncodeStage::LoadingTemporaryAux { p_aux }, Event::FileUnreadable) => {
                let loaded = load_temporary_aux(arguments.sector_key_cache_path.as_str(), None);
                EncodeInto {
                    arguments,
                    stage: EncodeStage::LoadingTemporaryAux { p_aux },
                }.temporary_aux_loaded(loaded)
            },
            (EncodeStage::Hydrating { p_aux }, Event::Hydrated) => {
                match arguments.request(&p_aux) {
                    Err(e) => Step::Done(Err(e)),
                    Ok(request) => Step::Next(
                        EncodeInto { arguments, stage: EncodeStage::Encoding },
                        Action::Encode(request),
                    ),
                }
            },
            (EncodeStage::Hydrating { .. }, Event::HydrationFailed) => {
                Step::Done(Err(UpdateError::Hydration))
            },
            (EncodeStage::Encoding, Event::Encoded { comm_r, comm_r_last, comm_d }) => {
                let raw_d = encode(&comm_d);
                let raw_r = encode(&comm_r);
                let raw_r_last = encode(&comm_r_last);
                match EncodedCommitments::check(raw_r, raw_r_last, raw_d) {
                    Err(e) => Step::Done(Err(e)),
                    Ok(commitments) => {
                        let action = Action::VerifyPieces {
                            comm_d: commitments.comm_d(),
                            piece_infos: slice_to_vec(arguments.piece_infos.as_slice()),
                            sector_size: arguments.config.sector_size,
                        };
                        Step::Next(
                            EncodeInto {
                                arguments,
                                stage: EncodeStage::VerifyingPieces { commitments },
                            },
                            action,
                        )
                    },
                }
            },
            (EncodeStage::Encoding, Event::SchemeFailed) => Step::Done(Err(UpdateError::Scheme)),
            (EncodeStage::VerifyingPieces { commitments }, Event::PiecesVerified(matching)) => {
                if matching {
                    Step::Done(Ok(commitments.into_commitments()))
                } else {
                    Step::Done(Err(UpdateError::PieceMismatch))
                }
            },
            (EncodeStage::VerifyingPieces { .. }, Event::SchemeFailed) => {
                Step::Done(Err(UpdateError::Scheme))
            },
            _ => Step::Done(Err(UpdateError::UnexpectedEvent)),
        }
    }
}

/// Begins to encode the staged data into the new replica.
///
/// Nothing has been read yet: the encoding waits for the persistent record of
/// the sector key's cache directory.
pub fn encode_into(
    porep_config: PoRepConfig,
    new_replica_path: &str,
    new_cache_path: &str,
    sector_key_path: &str,
    sector_key_cache_path: &str,
    staged_data_path: &str,
    piece_infos: &[PieceInfo],
    comm_sector_key: Commitment,
) -> (r: (EncodeInto, Action))
    ensures
        r.0.arguments.config == porep_config,
        r.0.arguments.new_replica_path@ == new_replica_path@,
        r.0.arguments.new_cache_path@ == new_cache_path@,
        r.0.arguments.sector_key_path@ == sector_key_path@,
        r.0.arguments.sector_key_cache_path@ == sector_key_cache_path@,
        r.0.arguments.staged_data_path@ == staged_data_path@,
        r.0.arguments.piece_infos@ == piece_infos@,
        r.0.arguments.comm_sector_key@ == comm_sector_key@,
        r.0.stage == EncodeStage::LoadingPersistentAux,
        reads_aux(r.1, sector_key_cache_path@, AuxFile::Persistent),
{
    let arguments = EncodeArguments {
        config: porep_config,
        new_replica_path: new_replica_path.to_owned(),
        new_cache_path: new_cache_path.to_owned(),
        sector_key_path: sector_key_path.to_owned(),
        sector_key_cache_path: sector_key_cache_path.to_owned(),
        staged_data_path: staged_data_path.to_owned(),
        piece_infos: slice_to_vec(piece_infos),
        comm_sector_key,
    };
    let action = Action::ReadAux {
        dir: sector_key_cache_path.to_owned(),
        file: AuxFile::Persistent,
    };
    (EncodeInto { arguments, stage: EncodeStage::LoadingPersistentAux }, action)
}

/// Pieces that do not give the data root end the encoding with
/// [`UpdateError::PieceMismatch`]: no root is handed out.
pub proof fn lemma_piece_mismatch_returns_no_commitment(m: EncodeInto, r: EncodeStep)
    requires
        m.stage is VerifyingPieces,
        m.step_spec(Event::PiecesVerified(false), r),
    ensures
        fails_with(r, UpdateErrorView::PieceMismatch),
        !(r matches Step::Done(Ok(_))),
        !(r is Next),
{
}

/// An encoding ends well in one way only: the pieces were found to give the
/// data root. Every other step goes on or fails.
pub proof fn lemma_roots_only_after_piece_check(m: EncodeInto, event: Event, r: EncodeStep)
    requires
        m.step_spec(event, r),
        r matches Step::Done(Ok(_)),
    ensures
        m.stage is VerifyingPieces,
        event == Event::PiecesVerified(true),
{
}

/// A root that is all-zero never reaches the piece check: the encoding ends
/// with [`UpdateError::Integrity`] as soon as the encode routine returns it.
pub proof fn lemma_zero_root_ends_the_encoding(
    m: EncodeInto,
    comm_r: Seq<u8>,
    comm_r_last: Seq<u8>,
    comm_d: Seq<u8>,
    r: EncodeStep,
)
    requires
        m.encoded_spec(comm_r, comm_r_last, comm_d, r),
        is_zero_spec(comm_r) || is_zero_spec(comm_r_last) || is_zero_spec(comm_d),
    ensures
        r matches Step::Done(Err(UpdateError::Integrity { .. })),
{
}

/// The encode routine is asked for only once the tree cache is open, and the
/// tree cache only once both records are loaded: each action follows from
/// exactly one stage and one answer, and the arguments never change.
pub proof fn lemma_actions_follow_in_order(m: EncodeInto, event: Event, r: EncodeStep)
    requires
        m.step_spec(event, r),
        r is Next,
    ensures
        r->Next_0.arguments == m.arguments,
        r->Next_1 is ReadAux ==> m.stage is LoadingPersistentAux && event is FileRead
            && r->Next_0.stage is LoadingTemporaryAux,
        r->Next_1 is Hydrate ==> m.stage is LoadingTemporaryAux && event is FileRead
            && r->Next_0.stage is Hydrating,
        r->Next_1 is Encode ==> m.stage is Hydrating && event is Hydrated
            && r->Next_0.stage is Encoding,
        r->Next_1 is VerifyPieces ==> m.stage is Encoding && event is Encoded
            && r->Next_0.stage is VerifyingPieces,
        !(r->Next_1 is Decode) && !(r->Next_1 is Remove) && !(r->Next_1 is Prove),
{
}

/// Both records of an encoding are read from the sector key's cache
/// directory, and the tree cache is opened over the record as that directory
/// holds it: every tree is looked for there, and bound to the sector key.
pub proof fn lemma_records_come_from_the_sector_key_cache(
    m: EncodeInto,
    event: Event,
    r: EncodeStep,
)
    requires
        m.step_spec(event, r),
    ensures
        r matches Step::Next(_, Action::ReadAux { dir, file }) ==> dir@
            == m.arguments.sector_key_cache_path@ && file == AuxFile::Temporary,
        r matches Step::Next(_, Action::Hydrate { t_aux, replica_path }) ==> t_aux@.points_to(
            m.arguments.sector_key_cache_path@,
        ) && replica_path@ == m.arguments.sector_key_path@,
{
    if let (EncodeStage::LoadingTemporaryAux { .. }, Event::FileRead(bytes)) = (m.stage, event) {
        lemma_loaded_temporary_aux_points_to(m.arguments.sector_key_cache_path@, Some(bytes@));
    }
}

} // verus!
