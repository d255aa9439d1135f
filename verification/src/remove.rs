//! Removing the encoded data from a replica, which gives the sector key back.
//!
//! This is the last step in the life of an updated replica: once the data is
//! removed, it cannot be recovered from the replica any more. The persistent
//! record is that of the new replica's cache directory, not of the sector
//! key's.

use vstd::prelude::*;
use crate::aux_store::{
    load_persistent_aux, load_persistent_aux_spec, PersistentAux, PersistentAuxView,
};
use crate::commitment::{decode, DomainView, HasherKind};
use crate::params::nodes_count_spec;
use crate::protocol::{fails_with, reads_aux, Action, Event, RemoveRequest, Step};
use crate::types::{AuxFile, Commitment, PoRepConfig, UpdateError, UpdateErrorView};

verus! {

/// What a removal is asked to do.
#[derive(Debug, PartialEq, Eq)]
pub struct RemoveArguments {
    pub config: PoRepConfig,
    pub sector_key_path: String,
    pub sector_key_cache_path: String,
    pub replica_path: String,
    pub replica_cache_path: String,
    pub data_path: String,
    pub comm_d_new: Commitment,
    pub comm_r_old: Commitment,
    pub comm_sector_key: Commitment,
}

/// How far a removal has come: what it is waiting for.
#[derive(Clone, Copy, Debug, PartialEq, Eq)]
pub enum RemoveStage {
    /// The contents of the replica's persistent record.
    LoadingPersistentAux,
    /// The end of the remove-data routine.
    Removing,
}

/// A removal under way: its arguments, and how far it has come.
#[derive(Debug, PartialEq, Eq)]
pub struct RemoveEncodedData {
    pub arguments: RemoveArguments,
    pub stage: RemoveStage,
}

/// The outcome of a step of a removal.
pub type RemoveStep = Step<RemoveEncodedData, ()>;

impl RemoveArguments {
    /// Whether `req` is what the remove-data routine is handed, given the
    /// persistent record of the replica. Of the record only `comm_c` is used,
    /// and the old replica root plays no part at all.
    pub open spec fn requests(self, p_aux: PersistentAuxView, req: RemoveRequest) -> bool {
        &&& req.nodes_count == nodes_count_spec(self.config.sector_bytes())
        &&& req.sector_key_path@ == self.sector_key_path@
        &&& req.sector_key_cache_path@ == self.sector_key_cache_path@
        &&& req.replica_path@ == self.replica_path@
        &&& req.replica_cache_path@ == self.replica_cache_path@
        &&& req.data_path@ == self.data_path@
        &&& req.comm_c@ == (DomainView { hasher: HasherKind::Poseidon, repr: p_aux.comm_c })
        &&& req.comm_d_new@ == (DomainView { hasher: HasherKind::Sha256, repr: self.comm_d_new@ })
        &&& req.comm_sector_key@ == (DomainView {
            hasher: HasherKind::Poseidon,
            repr: self.comm_sector_key@,
        })
        &&& req.h == self.config.h_select_spec().0
    }

    /// The arguments of the remove-data routine. The commitments are decoded
    /// on the way; 32 bytes always decode, so the request is always made.
    pub fn request(&self, p_aux: &PersistentAux) -> (r: Result<RemoveRequest, UpdateError>)
        ensures
            r matches Ok(req) && self.requests(p_aux@, req),
    {
        Ok(
            RemoveRequest {
                nodes_count: self.config.nodes_count(),
                sector_key_path: self.sector_key_path.clone(),
                sector_key_cache_path: self.sector_key_cache_path.clone(),
                replica_path: self.replica_path.clone(),
                replica_cache_path: self.replica_cache_path.clone(),
                data_path: self.data_path.clone(),
                comm_c: decode(HasherKind::Poseidon, &p_aux.comm_c)?,
                comm_d_new: decode(HasherKind::Sha256, &self.comm_d_new)?,
                comm_sector_key: decode(HasherKind::Poseidon, &self.comm_sector_key)?,
                h: self.config.h_select().0,
            },
        )
    }
}

impl RemoveEncodedData {
    /// Whether `r` is the step that this removal takes on `event`.
    ///
    /// The persistent record leads to the remove-data routine, and the end of
    /// the routine ends the removal. An event that the stage does not wait for
    /// ends it with [`UpdateError::UnexpectedEvent`].
    pub open spec fn step_spec(self, event: Event, r: RemoveStep) -> bool {
        let dir = self.arguments.replica_cache_path@;
        match (self.stage, event) {
            (RemoveStage::LoadingPersistentAux, Event::FileRead(bytes)) => match load_persistent_aux_spec(
                dir,
                Some(bytes@),
            ) {
                Err(e) => fails_with(r, e),
                Ok(aux) => {
                    &&& r matches Step::Next(m, a)
                    &&& m.arguments == self.arguments
                    &&& m.stage == RemoveStage::Removing
                    &&& a matches Action::Remove(req)
                    &&& self.arguments.requests(aux, req)
                },
            },
            (RemoveStage::LoadingPersistentAux, Event::FileUnreadable) => fails_with(
                r,
                UpdateErrorView::Io { dir, file: AuxFile::Persistent },
            ),
            (RemoveStage::Removing, Event::SchemeDone) => r == RemoveStep::Done(Ok(())),
            (RemoveStage::Removing, Event::SchemeFailed) => fails_with(r, UpdateErrorView::Scheme),
            _ => fails_with(r, UpdateErrorView::UnexpectedEvent),
        }
    }

    /// Takes the step that `event` calls for.
    pub fn step(self, event: Event) -> (r: RemoveStep)
        ensures
            self.step_spec(event, r),
    {
        let RemoveEncodedData { arguments, stage } = self;
        match (stage, event) {
            (RemoveStage::LoadingPersistentAux, Event::FileRead(bytes)) => {
                let dir = arguments.replica_cache_path.as_str();
                let p_aux = match load_persistent_aux(dir, Some(bytes.as_slice())) {
                    Ok(p_aux) => p_aux,
                    Err(e) => {
                        return Step::Done(Err(e));
                    },
                };
                match arguments.request(&p_aux) {
                    Err(e) => Step::Done(Err(e)),
                    Ok(request) => Step::Next(
                        RemoveEncodedData { arguments, stage: RemoveStage::Removing },
                        Action::Remove(request),
                    ),
                }
            },
            (RemoveStage::LoadingPersistentAux, Event::FileUnreadable) => {
                Step::Done(
                    Err(
                        UpdateError::Io {
                            dir: arguments.replica_cache_path,
                            file: AuxFile::Persistent,
                        },
                    ),
                )
            },
            (RemoveStage::Removing, Event::SchemeDone) => Step::Done(Ok(())),
            (RemoveStage::Removing, Event::SchemeFailed) => Step::Done(Err(UpdateError::Scheme)),
            _ => Step::Done(Err(UpdateError::UnexpectedEvent)),
        }
    }
}

/// Begins to remove the encoded data from the replica.
///
/// Nothing has been read yet: the removal waits for the persistent record of
/// the replica's cache directory.
pub fn remove_encoded_data(
    porep_config: PoRepConfig,
    sector_key_path: &str,
    sector_key_cache_path: &str,
    replica_path: &str,
    replica_cache_path: &str,
    data_path: &str,
    comm_d_new: Commitment,
    comm_r_old: Commitment,
    comm_sector_key: Commitment,
) -> (r: (RemoveEncodedData, Action))
    ensures
        r.0.arguments.config == porep_config,
        r.0.arguments.sector_key_path@ == sector_key_path@,
        r.0.arguments.sector_key_cache_path@ == sector_key_cache_path@,
        r.0.arguments.replica_path@ == replica_path@,
        r.0.arguments.replica_cache_path@ == replica_cache_path@,
        r.0.arguments.data_path@ == data_path@,
        r.0.arguments.comm_d_new@ == comm_d_new@,
        r.0.arguments.comm_r_old@ == comm_r_old@,
        r.0.arguments.comm_sector_key@ == comm_sector_key@,
        r.0.stage == RemoveStage::LoadingPersistentAux,
        reads_aux(r.1, replica_cache_path@, AuxFile::Persistent),
{
    let arguments = RemoveArguments {
        config: porep_config,
        sector_key_path: sector_key_path.to_owned(),
        sector_key_cache_path: sector_key_cache_path.to_owned(),
        replica_path: replica_path.to_owned(),
        replica_cache_path: replica_cache_path.to_owned(),
        data_path: data_path.to_owned(),
        comm_d_new,
        comm_r_old,
        comm_sector_key,
    };
    let action = Action::ReadAux {
        dir: replica_cache_path.to_owned(),
        file: AuxFile::Persistent,
    };
    (RemoveEncodedData { arguments, stage: RemoveStage::LoadingPersistentAux }, action)
}

/// A failure of the remove-data routine is never turned into success: the
/// removal ends well exactly when the routine ran to its end.
pub proof fn lemma_remove_never_hides_a_failure(m: RemoveEncodedData, event: Event, r: RemoveStep)
    requires
        m.step_spec(event, r),
    ensures
        r matches Step::Done(Ok(_)) <==> m.stage == RemoveStage::Removing && event
            == Event::SchemeDone,
        m.stage == RemoveStage::Removing && event == Event::SchemeFailed ==> fails_with(
            r,
            UpdateErrorView::Scheme,
        ),
        r is Next ==> r->Next_1 is Remove && m.stage == RemoveStage::LoadingPersistentAux
            && r->Next_0.stage == RemoveStage::Removing,
{
}

} // verus!
