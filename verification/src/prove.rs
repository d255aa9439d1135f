//! Assembling the inputs of an update proof and having every partition proved.
//!
//! The temporary record of the sector key is loaded once and used twice: as
//! it is, for the tree cache over the sector key, and pointed at the new
//! replica's cache directory, for the trees of the new replica. The two views
//! share the tree layout and differ in the directory alone.

use vstd::prelude::*;
use crate::aux_store::{
    lemma_loaded_temporary_aux_points_to, load_persistent_aux, load_persistent_aux_spec,
    load_temporary_aux, load_temporary_aux_spec, repoint, result_view, PersistentAux,
    PersistentAuxView, StoreConfigView, TemporaryAux, TemporaryAuxView,
};
use crate::commitment::{decode, DomainView, HasherKind};
use crate::params::{lemma_public_params_partitions, public_params_spec, PublicParams};
use crate::protocol::{
    fails_with, reads_aux, Action, Event, PrivateInputs, ProveRequest, PublicInputs, Step,
};
use crate::types::{AuxFile, Commitment, PoRepConfig, UpdateError, UpdateErrorView};

verus! {

/// What the assembly of a proof is asked to do, with the public parameters of
/// the sector.
#[derive(Debug, PartialEq, Eq)]
pub struct ProveArguments {
    pub config: PoRepConfig,
    pub public_params: PublicParams,
    pub comm_r_old: Commitment,
    pub comm_r_new: Commitment,
    pub comm_d_new: Commitment,
    pub sector_key_path: String,
    pub sector_key_cache_path: String,
    pub replica_path: String,
    pub replica_cache_path: String,
}

/// How far the assembly of a proof has come: what it is waiting for.
#[derive(Debug, PartialEq, Eq)]
pub enum ProveStage {
    /// The contents of the sector key's persistent record.
    LoadingPersistentAux,
    /// The contents of the sector key's temporary record.
    LoadingTemporaryAux { public_inputs: PublicInputs },
    /// The tree cache over the sector key.
    Hydrating { public_inputs: PublicInputs, private_inputs: PrivateInputs },
    /// The end of the proving routine.
    Proving,
}

/// The assembly of an update proof under way: its arguments, and how far it
/// has come.
#[derive(Debug, PartialEq, Eq)]
pub struct GenerateUpdateProof {
    pub arguments: ProveArguments,
    pub stage: ProveStage,
}

/// The outcome of a step of the assembly of a proof.
pub type ProveStep = Step<GenerateUpdateProof, ()>;

impl ProveArguments {
    /// Whether `inputs` are the public inputs of the proof, given the
    /// persistent record of the sector key. The partition index holds the
    /// number of partitions.
    pub open spec fn public_inputs_spec(self, p_aux: PersistentAuxView, inputs: PublicInputs) -> bool {
        &&& inputs.k == self.config.update_partitions_spec().0
        &&& inputs.comm_c@ == (DomainView { hasher: HasherKind::Poseidon, repr: p_aux.comm_c })
        &&& inputs.comm_r_old@ == (DomainView { hasher: HasherKind::Poseidon, repr: self.comm_r_old@ })
        &&& inputs.comm_d_new@ == (DomainView { hasher: HasherKind::Sha256, repr: self.comm_d_new@ })
        &&& inputs.comm_r_new@ == (DomainView { hasher: HasherKind::Poseidon, repr: self.comm_r_new@ })
        &&& inputs.h == self.config.h_select_spec().0
    }

    /// Whether `inputs` are the private inputs of the proof, given the
    /// temporary record of the sector key: the data tree and the last-layer
    /// tree of that record, looked for in the new replica's cache directory.
    pub open spec fn private_inputs_spec(self, old: TemporaryAuxView, inputs: PrivateInputs) -> bool {
        let new = old.repoint(self.replica_cache_path@);
        &&& inputs.tree_d_new_config@ == new.tree_d_config
        &&& inputs.tree_r_new_config@ == new.tree_r_last_config
        &&& inputs.replica_path@ == self.replica_path@
    }

    /// The public inputs of the proof. The commitments are decoded on the way;
    /// 32 bytes always decode, so the inputs are always made.
    pub fn public_inputs(&self, p_aux: &PersistentAux) -> (r: Result<PublicInputs, UpdateError>)
        ensures
            r matches Ok(inputs) && self.public_inputs_spec(p_aux@, inputs),
    {
        Ok(
            PublicInputs {
                k: self.config.update_partitions().0 as u64,
                comm_c: decode(HasherKind::Poseidon, &p_aux.comm_c)?,
                comm_r_old: decode(HasherKind::Poseidon, &self.comm_r_old)?,
                comm_d_new: decode(HasherKind::Sha256, &self.comm_d_new)?,
                comm_r_new: decode(HasherKind::Poseidon, &self.comm_r_new)?,
                h: self.config.h_select().0,
            },
        )
    }

    /// The private inputs of the proof: the record of the sector key is
    /// pointed at the new replica's cache directory, and the configurations of
    /// its data tree and last-layer tree are taken from that view. The record
    /// itself is left as it is.
    pub fn private_inputs(&self, old: &TemporaryAux) -> (inputs: PrivateInputs)
        ensures
            self.private_inputs_spec(old@, inputs),
    {
        let TemporaryAux { labels: _, tree_d_config, tree_r_last_config, tree_c_config: _ } =
            repoint(old, self.replica_cache_path.as_str());
        PrivateInputs {
            tree_d_new_config: tree_d_config,
            tree_r_new_config: tree_r_last_config,
            replica_path: self.replica_path.clone(),
        }
    }
}

impl GenerateUpdateProof {
    /// Whether `r` is the step that the assembly takes once the temporary
    /// record is loaded, or could not be.
    pub open spec fn temporary_aux_loaded_spec(
        self,
        loaded: Result<TemporaryAuxView, UpdateErrorView>,
        r: ProveStep,
    ) -> bool {
        match self.stage {
            ProveStage::LoadingTemporaryAux { public_inputs } => match loaded {
                Err(e) => fails_with(r, e),
                Ok(old) => {
                    &&& r matches Step::Next(m, a)
                    &&& m.arguments == self.arguments
                    &&& m.stage matches ProveStage::Hydrating { public_inputs: p, private_inputs }
                    &&& p == public_inputs
                    &&& self.arguments.private_inputs_spec(old, private_inputs)
                    &&& a matches Action::Hydrate { t_aux, replica_path }
                    &&& t_aux@ == old
                    &&& replica_path@ == self.arguments.sector_key_path@
                },
            },
            _ => fails_with(r, UpdateErrorView::UnexpectedEvent),
        }
    }

    /// Whether `r` is the step that the assembly takes on `event`.
    ///
    /// Each stage waits for the answer to the action that led to it. The
    /// answer either ends the assembly with an error, or leads to the next
    /// stage and its action; the end of the proving routine ends the assembly.
    /// An event that the stage does not wait for ends it with
    /// [`UpdateError::UnexpectedEvent`].
    pub open spec fn step_spec(self, event: Event, r: ProveStep) -> bool {
        let dir = self.arguments.sector_key_cache_path@;
        match (self.stage, event) {
            (ProveStage::LoadingPersistentAux, Event::FileRead(bytes)) => match load_persistent_aux_spec(
                dir,
                Some(bytes@),
            ) {
                Err(e) => fails_with(r, e),
                Ok(aux) => {
                    &&& r matches Step::Next(m, a)
                    &&& m.arguments == self.arguments
                    &&& m.stage matches ProveStage::LoadingTemporaryAux { public_inputs }
                    &&& self.arguments.public_inputs_spec(aux, public_inputs)
                    &&& reads_aux(a, dir, AuxFile::Temporary)
                },
            },
            (ProveStage::LoadingPersistentAux, Event::FileUnreadable) => fails_with(
                r,
                UpdateErrorView::Io { dir, file: AuxFile::Persistent },
            ),
            (ProveStage::LoadingTemporaryAux { .. }, Event::FileRead(bytes)) => self.temporary_aux_loaded_spec(
                load_temporary_aux_spec(dir, Some(bytes@)),
                r,
            ),
            (ProveStage::LoadingTemporaryAux { .. }, Event::FileUnreadable) => self.temporary_aux_loaded_spec(
                load_temporary_aux_spec(dir, None),
                r,
            ),
            (ProveStage::Hydrating { public_inputs, private_inputs }, Event::Hydrated) => {
                &&& r matches Step::Next(m, a)
                &&& m.arguments == self.arguments
                &&& m.stage == ProveStage::Proving
                &&& a matches Action::Prove(req)
                &&& req.public_params == self.arguments.public_params
                &&& req.public_inputs == public_inputs
                &&& req.private_inputs == private_inputs
                &&& req.partition_count == self.arguments.config.update_partitions_spec().0
            },
            (ProveStage::Hydrating { .. }, Event::HydrationFailed) => fails_with(
                r,
                UpdateErrorView::Hydration,
            ),
            (ProveStage::Proving, Event::SchemeDone) => r == ProveStep::Done(Ok(())),
            (ProveStage::Proving, Event::SchemeFailed) => fails_with(r, UpdateErrorView::Scheme),
            _ => fails_with(r, UpdateErrorView::UnexpectedEvent),
        }
    }

    /// Goes on with the temporary record of the sector key, or ends with the
    /// error that loading it gave. The record is used twice: as it is, for the
    /// tree cache over the sector key, and pointed at the new replica's cache
    /// directory, for the two trees of the new replica. An assembly that is
    /// not waiting for the record ends with [`UpdateError::UnexpectedEvent`].
    pub fn temporary_aux_loaded(self, loaded: Result<TemporaryAux, UpdateError>) -> (r: ProveStep)
        ensures
            self.temporary_aux_loaded_spec(result_view(loaded), r),
    {
        let GenerateUpdateProof { arguments, stage } = self;
        match stage {
            ProveStage::LoadingTemporaryAux { public_inputs } => match loaded {
                Err(e) => Step::Done(Err(e)),
                Ok(t_aux) => {
                    let private_inputs = arguments.private_inputs(&t_aux);
                    let replica_path = arguments.sector_key_path.clone();
                    Step::Next(
                        GenerateUpdateProof {
                            arguments,
                            stage: ProveStage::Hydrating { public_inputs, private_inputs },
                        },
                        Action::Hydrate { t_aux, replica_path },
                    )
                },
            },
            _ => Step::Done(Err(UpdateError::UnexpectedEvent)),
        }
    }

    /// Takes the step that `event` calls for.
    pub fn step(self, event: Event) -> (r: ProveStep)
        ensures
            self.step_spec(event, r),
    {
        let GenerateUpdateProof { arguments, stage } = self;
        match (stage, event) {
            (ProveStage::LoadingPersistentAux, Event::FileRead(bytes)) => {
                let dir = arguments.sector_key_cache_path.as_str();
                let p_aux = match load_persistent_aux(dir, Some(bytes.as_slice())) {
                    Ok(p_aux) => p_aux,
                    Err(e) => {
                        return Step::Done(Err(e));
                    },
                };
                match arguments.public_inputs(&p_aux) {
                    Err(e) => Step::Done(Err(e)),
                    Ok(public_inputs) => {
                        let action = Action::ReadAux {
                            dir: arguments.sector_key_cache_path.clone(),
                            file: AuxFile::Temporary,
                        };
                        Step::Next(
                            GenerateUpdateProof {
                                arguments,
                                stage: ProveStage::LoadingTemporaryAux { public_inputs },
                            },
                            action,
                        )
                    },
                }
            },
            (ProveStage::LoadingPersistentAux, Event::FileUnreadable) => {
                Step::Done(
                    Err(
                        UpdateError::Io {
                            dir: arguments.sector_key_cache_path,
                            file: AuxFile::Persistent,
                        },
                    ),
                )
            },
            (ProveStage::LoadingTemporaryAux { public_inputs }, Event::FileRead(bytes)) => {
                let loaded = load_temporary_aux(
                    arguments.sector_key_cache_path.as_str(),
                    Some(bytes.as_slice()),
                );
                GenerateUpdateProof {
                    arguments,
                    stage: ProveStage::LoadingTemporaryAux { public_inputs },
                }.temporary_aux_loaded(loaded)
            },
            (ProveStage::LoadingTemporaryAux { public_inputs }, Event::FileUnreadable) => {
                let loaded = load_temporary_aux(arguments.sector_key_cache_path.as_str(), None);
                GenerateUpdateProof {
                    arguments,
                    stage: ProveStage::LoadingTemporaryAux { public_inputs },
                }.temporary_aux_loaded(loaded)
            },
            (ProveStage::Hydrating { public_inputs, private_inputs }, Event::Hydrated) => {
                let request = ProveRequest {
                    public_params: arguments.public_params,
                    public_inputs,
                    private_inputs,
                    partition_count: arguments.config.update_partitions().0 as u64,
                };
                Step::Next(
                    GenerateUpdateProof { arguments, stage: ProveStage::Proving },
                    Action::Prove(request),
                )
            },
            (ProveStage::Hydrating { .. }, Event::HydrationFailed) => {
                Step::Done(Err(UpdateError::Hydration))
            },
            (ProveStage::Proving, Event::SchemeDone) => Step::Done(Ok(())),
            (ProveStage::Proving, Event::SchemeFailed) => Step::Done(Err(UpdateError::Scheme)),
            _ => Step::Done(Err(UpdateError::UnexpectedEvent)),
        }
    }
}

/// Begins to assemble the update proof of a replica.
///
/// The three commitments are decoded before anything is read; 32 bytes always
/// decode, so the assembly always begins. It then waits for the persistent
/// record of the sector key's cache directory.
///
/// The proof scheme has public parameters for the sector sizes it knows, and
/// for no others: the configuration must be one of them.
pub fn generate_update_proof(
    porep_config: PoRepConfig,
    comm_r_old: Commitment,
    comm_r_new: Commitment,
    comm_d_new: Commitment,
    sector_key_path: &str,
    sector_key_cache_path: &str,
    replica_path: &str,
    replica_cache_path: &str,
) -> (r: ProveStep)
    requires
        porep_config.is_provable(),
    ensures
        r matches Step::Next(m, a) && {
            &&& m.arguments.config == porep_config
            &&& m.arguments.public_params == public_params_spec(porep_config.sector_bytes())
            &&& m.arguments.comm_r_old@ == comm_r_old@
            &&& m.arguments.comm_r_new@ == comm_r_new@
            &&& m.arguments.comm_d_new@ == comm_d_new@
            &&& m.arguments.sector_key_path@ == sector_key_path@
            &&& m.arguments.sector_key_cache_path@ == sector_key_cache_path@
            &&& m.arguments.replica_path@ == replica_path@
            &&& m.arguments.replica_cache_path@ == replica_cache_path@
            &&& m.stage == ProveStage::LoadingPersistentAux
            &&& reads_aux(a, sector_key_cache_path@, AuxFile::Persistent)
        },
{
    if let Err(e) = decode(HasherKind::Poseidon, &comm_r_old) {
        return Step::Done(Err(e));
    }
    if let Err(e) = decode(HasherKind::Poseidon, &comm_r_new) {
        return Step::Done(Err(e));
    }
    if let Err(e) = decode(HasherKind::Sha256, &comm_d_new) {
        return Step::Done(Err(e));
    }
    let arguments = ProveArguments {
        config: porep_config,
        public_params: porep_config.public_params(),
        comm_r_old,
        comm_r_new,
        comm_d_new,
        sector_key_path: sector_key_path.to_owned(),
        sector_key_cache_path: sector_key_cache_path.to_owned(),
        replica_path: replica_path.to_owned(),
        replica_cache_path: replica_cache_path.to_owned(),
    };
    let action = Action::ReadAux {
        dir: sector_key_cache_path.to_owned(),
        file: AuxFile::Persistent,
    };
    Step::Next(GenerateUpdateProof { arguments, stage: ProveStage::LoadingPersistentAux }, action)
}

/// The proving routine is asked for as many partitions as the configuration
/// names, and the public inputs and the public parameters name that number
/// too. It is 1, 2, 4 or 16.
pub proof fn lemma_one_partition_count(
    m: GenerateUpdateProof,
    p_aux: PersistentAuxView,
    inputs: PublicInputs,
    r: ProveStep,
)
    requires
        m.arguments.public_params == public_params_spec(m.arguments.config.sector_bytes()),
        m.stage matches ProveStage::Hydrating { public_inputs, .. } && public_inputs == inputs,
        m.arguments.public_inputs_spec(p_aux, inputs),
        m.step_spec(Event::Hydrated, r),
    ensures
        r matches Step::Next(_, Action::Prove(req)) && {
            &&& req.partition_count == m.arguments.config.update_partitions_spec().0
            &&& req.public_inputs.k == req.partition_count
            &&& req.public_params.partition_count == req.partition_count
            &&& req.partition_count == 1 || req.partition_count == 2 || req.partition_count == 4
                || req.partition_count == 16
        },
{
    lemma_public_params_partitions(m.arguments.config);
}

/// The trees of the new replica are those of the sector key, looked for in the
/// new replica's cache directory: the private inputs name that directory and
/// keep the identifiers, sizes and discarded rows of the record they come
/// from.
pub proof fn lemma_new_trees_keep_the_layout(
    arguments: ProveArguments,
    old: TemporaryAuxView,
    inputs: PrivateInputs,
)
    requires
        arguments.private_inputs_spec(old, inputs),
    ensures
        inputs.tree_d_new_config@ == (StoreConfigView {
            path: arguments.replica_cache_path@,
            ..old.tree_d_config
        }),
        inputs.tree_r_new_config@ == (StoreConfigView {
            path: arguments.replica_cache_path@,
            ..old.tree_r_last_config
        }),
{
}

/// The assembly ends well exactly when the proving routine ran to its end, and
/// asks for the proof only once the tree cache is open.
pub proof fn lemma_proof_follows_hydration(m: GenerateUpdateProof, event: Event, r: ProveStep)
    requires
        m.step_spec(event, r),
    ensures
        r matches Step::Done(Ok(_)) <==> m.stage == ProveStage::Proving && event
            == Event::SchemeDone,
        r matches Step::Next(_, Action::Prove(_)) ==> m.stage is Hydrating && event
            == Event::Hydrated,
        r matches Step::Next(_, Action::Hydrate { .. }) ==> m.stage is LoadingTemporaryAux,
        r is Next ==> r->Next_0.arguments == m.arguments,
{
}

/// One record, two views: the tree cache is opened over the record as the
/// sector key's cache directory holds it, while the private inputs look for
/// the same two trees in the new replica's cache directory.
pub proof fn lemma_two_views_of_one_record(m: GenerateUpdateProof, event: Event, r: ProveStep)
    requires
        m.step_spec(event, r),
    ensures
        r matches Step::Next(next, Action::Hydrate { t_aux, replica_path }) ==> {
            &&& t_aux@.points_to(m.arguments.sector_key_cache_path@)
            &&& replica_path@ == m.arguments.sector_key_path@
            &&& next.stage matches ProveStage::Hydrating { private_inputs, .. }
            &&& private_inputs.tree_d_new_config@ == t_aux@.tree_d_config.repoint(
                m.arguments.replica_cache_path@,
            )
            &&& private_inputs.tree_r_new_config@ == t_aux@.tree_r_last_config.repoint(
                m.arguments.replica_cache_path@,
            )
        },
{
    if let (ProveStage::LoadingTemporaryAux { .. }, Event::FileRead(bytes)) = (m.stage, event) {
        lemma_loaded_temporary_aux_points_to(m.arguments.sector_key_cache_path@, Some(bytes@));
    }
}

} // verus!
