//! Generation of the replacement ("tweaked") bytecode.
//!
//! A linear sequence of stages, each a hard precondition on the next:
//! first the configured chain must equal the recorded deployment chain,
//! then the freshly compiled storage layout must be compatible with the
//! recorded one, and only then is bytecode produced — directly from the
//! target artifact in *quick* mode, or, in *full* mode, by replaying the
//! recorded deployment against fetched chain state. The replay itself needs
//! an RPC transport and an execution environment, both outside this
//! library: `tweaked_code` hands the caller a replay request, and
//! [`tweaked_code_from_replay`] turns the caller's replay outcome into the
//! final result.

use vstd::prelude::*;
use crate::errors::TweakError;
use crate::layout::{
    check_storage_compatibility, compatible, lemma_compatible_congruence, violations_complete,
};
use crate::metadata::{copy_bytes, CloneMetadata};
use crate::project::{
    artifacts_equiv, first_artifact, lemma_first_artifact_unique, no_artifact, Artifact,
    ClonedProject, CompileOutput,
};

verus! {

/// Everything a caller needs to replay the recorded deployment: the chain,
/// the creation transaction to anchor the chain state, the original
/// deployer, and the original constructor arguments.
#[derive(Debug)]
pub struct ReplayRequest {
    pub chain_id: u64,
    pub creation_transaction: Vec<u8>,
    pub deployer: Vec<u8>,
    pub constructor_arguments: Vec<u8>,
}

/// The outcome of the bytecode-generation stage.
#[derive(Debug)]
pub enum TweakOutcome {
    /// *quick* mode: the target artifact's runtime bytecode, as compiled.
    Code { bytecode: Vec<u8> },
    /// *full* mode: the deployment must be replayed; no network was touched
    /// yet.
    NeedsReplay { request: ReplayRequest },
}

/// How a replay performed by the caller ended, short of success.
#[derive(Debug)]
pub enum ReplayFault {
    /// Chain state or the creation transaction could not be fetched.
    Transport { message: String },
    /// Constructor execution could not be completed deterministically.
    Execution { message: String },
}

/// The bytecode stage produced exactly what the mode calls for: in *quick*
/// mode the resolved artifact's runtime bytecode as-is, in *full* mode a
/// replay request built from the recorded deployment.
pub open spec fn outcome_matches(
    meta: CloneMetadata,
    a: Artifact,
    quick: bool,
    outcome: TweakOutcome,
) -> bool {
    match outcome {
        TweakOutcome::Code { bytecode } => quick && bytecode@ == a.bytecode@,
        TweakOutcome::NeedsReplay { request } => {
            &&& !quick
            &&& request.chain_id == meta.chain_id
            &&& request.creation_transaction@ == meta.creation_transaction@
            &&& request.deployer@ == meta.deployer@
            &&& request.constructor_arguments@ == meta.constructor_arguments@
        },
    }
}

/// The storage check and the bytecode stage, run against the already
/// resolved artifact `a`: success exactly when `a`'s layout is compatible
/// with the recorded baseline, else the exhaustive violation list against
/// `a`'s layout.
pub open spec fn checked_generation(
    meta: CloneMetadata,
    a: Artifact,
    quick: bool,
    r: Result<TweakOutcome, TweakError>,
) -> bool {
    &&& compatible(meta.storage_layout@, a.storage_layout@) ==> r is Ok
    &&& match r {
        Ok(outcome) => compatible(meta.storage_layout@, a.storage_layout@) && outcome_matches(
            meta,
            a,
            quick,
            outcome,
        ),
        Err(e) => match e {
            TweakError::IncompatibleStorage { violations } => {
                &&& !compatible(meta.storage_layout@, a.storage_layout@)
                &&& violations_complete(violations@, meta.storage_layout@, a.storage_layout@)
            },
            _ => false,
        },
    }
}

/// Resolution against compile output `out`, then the storage check and the
/// bytecode stage. The first artifact of `out` carrying the target name
/// governs everything: with no match the target's name is not found and
/// nothing is cached; with a match, that artifact is cached and the result
/// is success exactly when its layout is compatible with the recorded one.
pub open spec fn generation_holds(
    meta: CloneMetadata,
    out: CompileOutput,
    quick: bool,
    p_final: ClonedProject,
    r: Result<TweakOutcome, TweakError>,
) -> bool {
    let target = meta.target_contract@;
    let rec = meta.storage_layout@;
    &&& no_artifact(out.artifacts@, target) ==> (r matches Err(e) && e matches
        TweakError::NotFound { what } && what@ == target)
    &&& (exists|j: int|
        #[trigger] first_artifact(out.artifacts@, target, j) && compatible(
            rec,
            out.artifacts@[j].storage_layout@,
        )) ==> r is Ok
    &&& (exists|j: int|
        #[trigger] first_artifact(out.artifacts@, target, j) && !compatible(
            rec,
            out.artifacts@[j].storage_layout@,
        )) ==> (r matches Err(e) && e is IncompatibleStorage)
    &&& match r {
        Ok(_) => {
            &&& p_final.artifact_cached()
            &&& (exists|j: int|
                #[trigger] first_artifact(out.artifacts@, target, j) && artifacts_equiv(
                    p_final.cached_artifact(),
                    out.artifacts@[j],
                ))
            &&& checked_generation(meta, p_final.cached_artifact(), quick, r)
        },
        Err(TweakError::IncompatibleStorage { .. }) => {
            &&& p_final.artifact_cached()
            &&& (exists|j: int|
                #[trigger] first_artifact(out.artifacts@, target, j) && artifacts_equiv(
                    p_final.cached_artifact(),
                    out.artifacts@[j],
                ))
            &&& checked_generation(meta, p_final.cached_artifact(), quick, r)
        },
        Err(TweakError::NotFound { what }) => what@ == target && no_artifact(out.artifacts@, target)
            && !p_final.artifact_cached(),
        Err(_) => false,
    }
}

impl ClonedProject {
    /// Produce the tweaked code of the project's target contract, or the
    /// replay request that still stands between the caller and it.
    ///
    /// Stages, in order: the configured chain id must equal the recorded
    /// one (a mismatch fails immediately, consuming no compiler outcome and
    /// touching neither the caches nor the network); the target artifact is
    /// resolved against the cached compile output or the supplied `fresh`
    /// one, exactly as in [`Self::main_artifact`]; the recorded storage
    /// layout must be compatible with that artifact's. In *quick* mode the
    /// artifact's runtime bytecode is then returned as is; in *full* mode a
    /// replay request is returned and no network is touched by this library
    /// at all. Whatever either cache holds on entry it still holds on
    /// return: the caches only ever go from empty to filled.
    pub fn tweaked_code(&mut self, quick: bool, fresh: Option<Result<CompileOutput, String>>) -> (r:
        Result<TweakOutcome, TweakError>)
        requires
            old(self).config.chain_id_or_default() == old(self).metadata.chain_id ==> (old(
                self,
            ).artifact_cached() || old(self).compile_cached() || fresh is Some),
        ensures
            final(self).root == old(self).root,
            final(self).config == old(self).config,
            final(self).metadata == old(self).metadata,
            old(self).compile_cached() ==> final(self).compile_cache == old(self).compile_cache,
            old(self).artifact_cached() ==> final(self).artifact_cache == old(self).artifact_cache,
            old(self).config.chain_id_or_default() != old(self).metadata.chain_id ==> *final(self)
                == *old(self) && (r matches Err(e) && e matches TweakError::ChainMismatch {
                configured,
                recorded,
            } && configured == old(self).config.chain_id_or_default() && recorded == old(
                self,
            ).metadata.chain_id),
            (r matches Err(e) && e is ChainMismatch) ==> old(self).config.chain_id_or_default()
                != old(self).metadata.chain_id,
            r matches Ok(TweakOutcome::NeedsReplay { .. }) ==> !quick,
            old(self).config.chain_id_or_default() == old(self).metadata.chain_id ==> {
                if old(self).artifact_cached() {
                    &&& final(self).compile_cache == old(self).compile_cache
                    &&& final(self).artifact_cache == old(self).artifact_cache
                    &&& checked_generation(old(self).metadata, old(self).cached_artifact(), quick, r)
                } else if old(self).compile_cached() {
                    &&& final(self).compile_cache == old(self).compile_cache
                    &&& generation_holds(
                        old(self).metadata,
                        old(self).cached_output(),
                        quick,
                        *final(self),
                        r,
                    )
                } else {
                    match fresh {
                        Some(Ok(out)) => final(self).compile_cache == Some(out)
                            && generation_holds(old(self).metadata, out, quick, *final(self), r),
                        Some(Err(diag)) => *final(self) == *old(self) && (r matches Err(e)
                            && e matches TweakError::Compile { diagnostics } && diagnostics@
                            == diag@),
                        None => false,
                    }
                }
            },
    {
        let ghost fresh0 = fresh;
        let ghost target = old(self).metadata.target_contract@;
        let ghost rec = old(self).metadata.storage_layout@;
        let configured = self.config.effective_chain_id();
        if configured != self.metadata.chain_id {
            return Err(
                TweakError::ChainMismatch { configured, recorded: self.metadata.chain_id },
            );
        }
        let ghost governing: Option<CompileOutput> = if old(self).artifact_cached() {
            None
        } else if old(self).compile_cached() {
            Some(old(self).cached_output())
        } else {
            match fresh0 {
                Some(Ok(out)) => Some(out),
                _ => None,
            }
        };
        match self.main_artifact(fresh) {
            Ok(_) => {},
            Err(e) => {
                proof {
                    if governing is Some {
                        let out_g = governing.unwrap();
                        assert forall|j: int|
                            !(#[trigger] first_artifact(out_g.artifacts@, target, j)) by {
                            if first_artifact(out_g.artifacts@, target, j) {
                                assert(out_g.artifacts@[j].contract_name@ != target);
                            }
                        }
                    }
                }
                return Err(e);
            },
        }
        let artifact = match &self.artifact_cache {
            Some(a) => a,
            None => {
                proof {
                    assert(false);
                }
                return Err(TweakError::Compile { diagnostics: String::new() });
            },
        };
        let check_result = check_storage_compatibility(
            &self.metadata.storage_layout,
            &artifact.storage_layout,
        );
        proof {
            if governing is Some {
                let out_g = governing.unwrap();
                let j = choose|j: int|
                    #[trigger] first_artifact(out_g.artifacts@, target, j) && artifacts_equiv(
                        self.cached_artifact(),
                        out_g.artifacts@[j],
                    );
                assert forall|j2: int|
                    #[trigger] first_artifact(out_g.artifacts@, target, j2) implies j2 == j by {
                    lemma_first_artifact_unique(out_g.artifacts@, target, j, j2);
                }
                lemma_compatible_congruence(
                    rec,
                    self.cached_artifact().storage_layout@,
                    out_g.artifacts@[j].storage_layout@,
                );
            }
        }
        match check_result {
            Ok(()) => {},
            Err(e) => {
                return Err(TweakError::IncompatibleStorage { violations: e.violations });
            },
        }
        if quick {
            Ok(TweakOutcome::Code { bytecode: copy_bytes(&artifact.bytecode) })
        } else {
            Ok(
                TweakOutcome::NeedsReplay {
                    request: ReplayRequest {
                        chain_id: self.metadata.chain_id,
                        creation_transaction: copy_bytes(&self.metadata.creation_transaction),
                        deployer: copy_bytes(&self.metadata.deployer),
                        constructor_arguments: copy_bytes(&self.metadata.constructor_arguments),
                    },
                },
            )
        }
    }
}

/// Turn the caller's replay outcome into the final tweaked code.
///
/// A successful replay yields its runtime bytecode unchanged; a transport
/// fault surfaces as an RPC error and an execution fault as a replay
/// error — no bytecode is produced in either case and nothing is retried
/// here.
pub fn tweaked_code_from_replay(outcome: Result<Vec<u8>, ReplayFault>) -> (r: Result<
    Vec<u8>,
    TweakError,
>)
    ensures
        outcome matches Ok(code) ==> (r matches Ok(c2) && c2 == code),
        outcome matches Err(ReplayFault::Transport { message }) ==> (r matches Err(e) && e matches
            TweakError::Rpc { message: m2 } && m2 == message),
        outcome matches Err(ReplayFault::Execution { message }) ==> (r matches Err(e) && e matches
            TweakError::Replay { message: m2 } && m2 == message),
{
    match outcome {
        Ok(code) => Ok(code),
        Err(ReplayFault::Transport { message }) => Err(TweakError::Rpc { message }),
        Err(ReplayFault::Execution { message }) => Err(TweakError::Replay { message }),
    }
}

} // verus!
