//! Decoding a replica back into the data that was encoded into it.
//!
//! Only the persistent record of the sector key is needed: the decode routine
//! rebuilds the data from the stored labels, not from the tree cache. What the
//! routine writes is not checked again here; whoever asked for the data
//! verifies it.

use vstd::prelude::*;
use crate::aux_store::{
    load_persistent_aux, load_persistent_aux_spec, PersistentAux, PersistentAuxView,
};
use crate::commitment::{decode, DomainView, HasherKind};
use crate::params::nodes_count_spec;
use crate::protocol::{fails_with, reads_aux, Action, DecodeRequest, Event, Step};
use crate::types::{AuxFile, Commitment, PoRepConfig, UpdateError, UpdateErrorView};

verus! {

/// What a decoding is asked to do.
#[derive(Debug, PartialEq, Eq)]
pub struct DecodeArguments {
    pub config: PoRepConfig,
    pub out_data_path: String,
    pub replica_path: String,
    pub sector_key_path: String,
    pub sector_key_cache_path: String,
    pub comm_d_new: Commitment,
    pub comm_r_new: Commitment,
    pub comm_sector_key: Commitment,
}

/// How far a decoding has come: what it is waiting for.
#[derive(Clone, Copy, Debug, PartialEq, Eq)]
pub enum DecodeStage {
    /// The contents of the sector key's persistent record.
    LoadingPersistentAux,
    /// The end of the decode routine.
    Decoding,
}

/// A decoding under way: its arguments, and how far it has come.
#[derive(Debug, PartialEq, Eq)]
pub struct DecodeFrom {
    pub arguments: DecodeArguments,
    pub stage: DecodeStage,
}

/// The outcome of a step of a decoding.
pub type DecodeStep = Step<DecodeFrom, ()>;

impl DecodeArguments {
    /// Whether `req` is what the decode routine is handed, given the
    /// persistent record of the sector key. Of the record only `comm_c` is
    /// used, and the new replica root plays no part at all.
    pub open spec fn requests(self, p_aux: PersistentAuxView, req: DecodeRequest) -> bool {
        &&& req.nodes_count == nodes_count_spec(self.config.sector_bytes())
        &&& req.out_data_path@ == self.out_data_path@
        &&& req.replica_path@ == self.replica_path@
        &&& req.sector_key_path@ == self.sector_key_path@
        &&& req.sector_key_cache_path@ == self.sector_key_cache_path@
        &&& req.comm_c@ == (DomainView { hasher: HasherKind::Poseidon, repr: p_aux.comm_c })
        &&& req.comm_d_new@ == (DomainView { hasher: HasherKind::Sha256, repr: self.comm_d_new@ })
        &&& req.comm_sector_key@ == (DomainView {
            hasher: HasherKind::Poseidon,
            repr: self.comm_sector_key@,
        })
        &&& req.h == self.config.h_select_spec().0
    }

    /// The arguments of the decode routine. The commitments are decoded on the
    /// way; 32 bytes always decode, so the request is always made.
    pub fn request(&self, p_aux: &PersistentAux) -> (r: Result<DecodeRequest, UpdateError>)
        ensures
            r matches Ok(req) && self.requests(p_aux@, req),
    {
        Ok(
            DecodeRequest {
                nodes_count: self.config.nodes_count(),
                out_data_path: self.out_data_path.clone(),
                replica_path: self.replica_path.clone(),
                sector_key_path: self.sector_key_path.clone(),
                sector_key_cache_path: self.sector_key_cache_path.clone(),
                comm_c: decode(HasherKind::Poseidon, &p_aux.comm_c)?,
                comm_d_new: decode(HasherKind::Sha256, &self.comm_d_new)?,
                comm_sector_key: decode(HasherKind::Poseidon, &self.comm_sector_key)?,
                h: self.config.h_select().0,
            },
        )
    }
}

impl DecodeFrom {
    /// Whether `r` is the step that this decoding takes on `event`.
    ///
    /// The persistent record leads to the decode routine, and the end of the
    /// routine ends the decoding. An event that the stage does not wait for
    /// ends it with [`UpdateError::UnexpectedEvent`].
    pub open spec fn step_spec(self, event: Event, r: DecodeStep) -> bool {
        let dir = self.arguments.sector_key_cache_path@;
        match (self.stage, event) {
            (DecodeStage::LoadingPersistentAux, Event::FileRead(bytes)) => match load_persistent_aux_spec(
                dir,
                Some(bytes@),
            ) {
                Err(e) => fails_with(r, e),
                Ok(aux) => {
                    &&& r matches Step::Next(m, a)
                    &&& m.arguments == self.arguments
                    &&& m.stage == DecodeStage::Decoding
                    &&& a matches Action::Decode(req)
                    &&& self.arguments.requests(aux, req)
                },
            },
            (DecodeStage::LoadingPersistentAux, Event::FileUnreadable) => fails_with(
                r,
                UpdateErrorView::Io { dir, file: AuxFile::Persistent },
            ),
            (DecodeStage::Decoding, Event::SchemeDone) => r == DecodeStep::Done(Ok(())),
            (DecodeStage::Decoding, Event::SchemeFailed) => fails_with(r, UpdateErrorView::Scheme),
            _ => fails_with(r, UpdateErrorView::UnexpectedEvent),
        }
    }

    /// Takes the step that `event` calls for.
    pub fn step(self, event: Event) -> (r: DecodeStep)
        ensures
            self.step_spec(event, r),
    {
        let DecodeFrom { arguments, stage } = self;
        match (stage, event) {
            (DecodeStage::LoadingPersistentAux, Event::FileRead(bytes)) => {
                let dir = arguments.sector_key_cache_path.as_str();
                let p_aux = match load_persistent_aux(dir, Some(bytes.as_slice())) {
                    Ok(p_aux) => p_aux,
                    Err(e) => {
                        return Step::Done(Err(e));
                    },
                };
                match arguments.request(&p_aux) {
                    Err(e) => Step::Done(Err(e)),
                    Ok(request) => Step::Next(
                        DecodeFrom { arguments, stage: DecodeStage::Decoding },
                        Action::Decode(request),
                    ),
                }
            },
            (DecodeStage::LoadingPersistentAux, Event::FileUnreadable) => {
                Step::Done(
                    Err(
                        UpdateError::Io {
                            dir: arguments.sector_key_cache_path,
                            file: AuxFile::Persistent,
                        },
                    ),
                )
            },
            (DecodeStage::Decoding, Event::SchemeDone) => Step::Done(Ok(())),
            (DecodeStage::Decoding, Event::SchemeFailed) => Step::Done(Err(UpdateError::Scheme)),
            _ => Step::Done(Err(UpdateError::UnexpectedEvent)),
        }
    }
}

/// Begins to decode the replica into `out_data_path`.
///
/// Nothing has been read yet: the decoding waits for the persistent record of
/// the sector key's cache directory.
pub fn decode_from(
    porep_config: PoRepConfig,
    out_data_path: &str,
    replica_path: &str,
    sector_key_path: &str,
    sector_key_cache_path: &str,
    comm_d_new: Commitment,
    comm_r_new: Commitment,
    comm_sector_key: Commitment,
) -> (r: (DecodeFrom, Action))
    ensures
        r.0.arguments.config == porep_config,
        r.0.arguments.out_data_path@ == out_data_path@,
        r.0.arguments.replica_path@ == replica_path@,
        r.0.arguments.sector_key_path@ == sector_key_path@,
        r.0.arguments.sector_key_cache_path@ == sector_key_cache_path@,
        r.0.arguments.comm_d_new@ == comm_d_new@,
        r.0.arguments.comm_r_new@ == comm_r_new@,
        r.0.arguments.comm_sector_key@ == comm_sector_key@,
        r.0.stage == DecodeStage::LoadingPersistentAux,
        reads_aux(r.1, sector_key_cache_path@, AuxFile::Persistent),
{
    let arguments = DecodeArguments {
        config: porep_config,
        out_data_path: out_data_path.to_owned(),
        replica_path: replica_path.to_owned(),
        sector_key_path: sector_key_path.to_owned(),
        sector_key_cache_path: sector_key_cache_path.to_owned(),
        comm_d_new,
        comm_r_new,
        comm_sector_key,
    };
    let action = Action::ReadAux {
        dir: sector_key_cache_path.to_owned(),
        file: AuxFile::Persistent,
    };
    (DecodeFrom { arguments, stage: DecodeStage::LoadingPersistentAux }, action)
}

/// A decoding ends well exactly when the decode routine ran to its end: what
/// the routine wrote is handed on unchecked. The only action it ever asks for
/// after the first is the decode routine.
pub proof fn lemma_decode_ends_with_the_routine(m: DecodeFrom, event: Event, r: DecodeStep)
    requires
        m.step_spec(event, r),
    ensures
        r matches Step::Done(Ok(_)) <==> m.stage == DecodeStage::Decoding && event
            == Event::SchemeDone,
        r is Next ==> r->Next_1 is Decode && m.stage == DecodeStage::LoadingPersistentAux
            && r->Next_0.stage == DecodeStage::Decoding,
{
}

} // verus!
