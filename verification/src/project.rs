//! The cloned project: its configuration, its metadata, and the single-slot
//! caches for the compile output and the resolved target artifact.
//!
//! Compiling is expensive: it invokes an external compiler service. The
//! service itself stands outside this library; a caller asks
//! [`ClonedProject::needs_compile`] whether a compiler run is due, performs
//! it, and hands the outcome to [`ClonedProject::compile_safe`] or
//! [`ClonedProject::main_artifact`], which cache it. Once a value is cached
//! it is returned unchanged by every later call and no further compiler
//! outcome is consumed.

use vstd::prelude::*;
use crate::descriptor::{decodes_to, desc_wf, Descriptor};
use crate::errors::TweakError;
use crate::layout::{layouts_equiv, StorageVar};
use crate::metadata::{copy_bytes, copy_layout, CloneMetadata};

verus! {

/// The compiler-facing configuration of a cloned project.
#[derive(Clone, Copy, Debug)]
pub struct ProjectConfig {
    /// The chain the project is configured for; `None` falls back to the
    /// default chain.
    pub chain: Option<u64>,
    /// Whether the compiler is asked to emit storage-layout output.
    pub emit_storage_layout: bool,
}

/// The chain id of the default chain (mainnet), used where the
/// configuration names none.
pub const DEFAULT_CHAIN_ID: u64 = 1;

impl ProjectConfig {
    /// The configured chain id, with the default chain as fallback.
    pub open spec fn chain_id_or_default(self) -> u64 {
        match self.chain {
            Some(c) => c,
            None => DEFAULT_CHAIN_ID,
        }
    }

    /// The configured chain id, with the default chain as fallback.
    pub fn effective_chain_id(&self) -> (r: u64)
        ensures
            r == self.chain_id_or_default(),
    {
        match self.chain {
            Some(c) => c,
            None => DEFAULT_CHAIN_ID,
        }
    }

    /// The configuration a compiler run is given: the same configuration
    /// with storage-layout output additionally selected, so every compile
    /// this library consumes carries the layout the compatibility check
    /// needs.
    pub fn with_storage_layout_output(&self) -> (r: ProjectConfig)
        ensures
            r.chain == self.chain,
            r.emit_storage_layout,
    {
        ProjectConfig { chain: self.chain, emit_storage_layout: true }
    }
}

/// One compiled contract: its name, its runtime bytecode, and its storage
/// layout.
#[derive(Debug)]
pub struct Artifact {
    pub contract_name: String,
    pub bytecode: Vec<u8>,
    pub storage_layout: Vec<StorageVar>,
}

/// Two artifacts describe the same compiled contract.
pub open spec fn artifacts_equiv(a: Artifact, b: Artifact) -> bool {
    a.contract_name@ == b.contract_name@ && a.bytecode@ == b.bytecode@ && layouts_equiv(
        a.storage_layout@,
        b.storage_layout@,
    )
}

impl Clone for Artifact {
    fn clone(&self) -> (r: Self)
        ensures
            artifacts_equiv(r, *self),
    {
        Artifact {
            contract_name: self.contract_name.clone(),
            bytecode: copy_bytes(&self.bytecode),
            storage_layout: copy_layout(&self.storage_layout),
        }
    }
}

/// The full set of artifacts one compiler run produced, in the compiler's
/// deterministic iteration order.
#[derive(Debug)]
pub struct CompileOutput {
    pub artifacts: Vec<Artifact>,
}

/// Two compile outputs carry the same artifacts in the same order.
pub open spec fn outputs_equiv(a: CompileOutput, b: CompileOutput) -> bool {
    a.artifacts@.len() == b.artifacts@.len() && forall|i: int|
        0 <= i < a.artifacts@.len() ==> artifacts_equiv(#[trigger] a.artifacts@[i], b.artifacts@[i])
}

impl Clone for CompileOutput {
    fn clone(&self) -> (r: Self)
        ensures
            outputs_equiv(r, *self),
    {
        let mut artifacts: Vec<Artifact> = Vec::new();
        let mut i: usize = 0;
        while i < self.artifacts.len()
            invariant
                i <= self.artifacts.len(),
                artifacts@.len() == i,
                forall|k: int|
                    0 <= k < i ==> artifacts_equiv(
                        #[trigger] artifacts@[k],
                        self.artifacts@[k],
                    ),
            decreases self.artifacts.len() - i,
        {
            artifacts.push(self.artifacts[i].clone());
            i = i + 1;
        }
        CompileOutput { artifacts }
    }
}

/// `j` is the first index of `arts` whose contract carries `name`.
pub open spec fn first_artifact(arts: Seq<Artifact>, name: Seq<char>, j: int) -> bool {
    0 <= j < arts.len() && arts[j].contract_name@ == name && (forall|k: int|
        0 <= k < j ==> (#[trigger] arts[k]).contract_name@ != name)
}

/// No artifact of `arts` carries `name`.
pub open spec fn no_artifact(arts: Seq<Artifact>, name: Seq<char>) -> bool {
    forall|k: int| 0 <= k < arts.len() ==> (#[trigger] arts[k]).contract_name@ != name
}

/// At most one index is the first match for a contract name.
pub proof fn lemma_first_artifact_unique(arts: Seq<Artifact>, name: Seq<char>, j1: int, j2: int)
    requires
        first_artifact(arts, name, j1),
        first_artifact(arts, name, j2),
    ensures
        j1 == j2,
{
    if j1 < j2 {
        assert(arts[j1].contract_name@ != name);
    } else if j2 < j1 {
        assert(arts[j2].contract_name@ != name);
    }
}

/// First artifact of the output carrying the given contract name, if any.
fn find_artifact(output: &CompileOutput, name: &String) -> (r: Option<usize>)
    ensures
        match r {
            Some(j) => first_artifact(output.artifacts@, name@, j as int),
            None => no_artifact(output.artifacts@, name@),
        },
{
    let mut j: usize = 0;
    while j < output.artifacts.len()
        invariant
            j <= output.artifacts.len(),
            forall|k: int| 0 <= k < j ==> (#[trigger] output.artifacts@[k]).contract_name@ != name@,
        decreases output.artifacts.len() - j,
    {
        if output.artifacts[j].contract_name == *name {
            return Some(j);
        }
        j = j + 1;
    }
    None
}

/// A locally checked-out mirror of a deployed contract: the project root,
/// the compiler configuration, the clone metadata, and the lazily filled
/// caches. Two cloned projects are the same project exactly when their
/// roots are equal.
#[derive(Debug)]
pub struct ClonedProject {
    /// Absolute path of the project root; the identity of the project.
    pub root: String,
    /// Compiler configuration resolved for this root.
    pub config: ProjectConfig,
    /// The persisted clone descriptor's content.
    pub metadata: CloneMetadata,
    /// Single-slot cache of the compile output; filled at most once.
    pub compile_cache: Option<CompileOutput>,
    /// Single-slot cache of the resolved target artifact; filled at most
    /// once.
    pub artifact_cache: Option<Artifact>,
}

impl PartialEq for ClonedProject {
    fn eq(&self, other: &Self) -> (r: bool) {
        self.root == other.root
    }
}

impl vstd::std_specs::cmp::PartialEqSpecImpl for ClonedProject {
    open spec fn obeys_eq_spec() -> bool {
        true
    }

    open spec fn eq_spec(&self, other: &Self) -> bool {
        self.root@ == other.root@
    }
}

impl ClonedProject {
    /// The root is an absolute path and the metadata is well formed.
    pub open spec fn wf(self) -> bool {
        self.root@.len() > 0 && self.root@[0] == '/' && self.metadata.wf()
    }

    /// A compile output has been cached.
    pub open spec fn compile_cached(self) -> bool {
        self.compile_cache is Some
    }

    /// The cached compile output.
    pub open spec fn cached_output(self) -> CompileOutput
        recommends
            self.compile_cached(),
    {
        self.compile_cache.unwrap()
    }

    /// A target artifact has been cached.
    pub open spec fn artifact_cached(self) -> bool {
        self.artifact_cache is Some
    }

    /// The cached target artifact.
    pub open spec fn cached_artifact(self) -> Artifact
        recommends
            self.artifact_cached(),
    {
        self.artifact_cache.unwrap()
    }

    /// Load the cloned project rooted at `root`: the root must be an
    /// absolute path, `config` is the configuration resolved for that root,
    /// and `descriptor` is the clone descriptor found there (`None` where
    /// the descriptor file is missing). Both caches start empty.
    pub fn load_with_root(root: String, config: ProjectConfig, descriptor: Option<&Descriptor>) -> (r:
        Result<ClonedProject, TweakError>)
        ensures
            r is Ok <==> (root@.len() > 0 && root@[0] == '/' && (descriptor matches Some(d)
                && desc_wf(*d))),
            r matches Ok(p) ==> p.wf() && p.root@ == root@ && p.config == config && decodes_to(
                *descriptor.unwrap(),
                p.metadata,
            ) && !p.compile_cached() && !p.artifact_cached(),
            !(root@.len() > 0 && root@[0] == '/') ==> (r matches Err(e) && e is Io),
            (root@.len() > 0 && root@[0] == '/' && descriptor is None) ==> (r matches Err(e)
                && e is NotFound),
            (root@.len() > 0 && root@[0] == '/' && (descriptor matches Some(d) && !desc_wf(*d)))
                ==> (r matches Err(e) && e is Parse),
    {
        let absolute = if root.as_str().is_empty() {
            false
        } else {
            root.as_str().get_char(0) == '/'
        };
        if !absolute {
            return Err(TweakError::Io { message: "project root must be an absolute path".to_owned() });
        }
        let metadata = match CloneMetadata::load_with_root(descriptor) {
            Ok(m) => m,
            Err(e) => {
                return Err(e);
            },
        };
        Ok(ClonedProject { root, config, metadata, compile_cache: None, artifact_cache: None })
    }

    /// Whether a compiler run is due: true exactly until a compile output
    /// has been cached.
    pub fn needs_compile(&self) -> (r: bool)
        ensures
            r == !self.compile_cached(),
    {
        self.compile_cache.is_none()
    }

    /// The compile output of the project, cached after the first call.
    ///
    /// `fresh` is the outcome of a compiler run, needed (and consumed) only
    /// while nothing is cached: once a compile output is cached it is
    /// returned as is and no compilation happens. A failed compile is
    /// reported and leaves the cache empty, so a later retry is possible.
    pub fn compile_safe(&mut self, fresh: Option<Result<CompileOutput, String>>) -> (r: Result<
        CompileOutput,
        TweakError,
    >)
        requires
            old(self).compile_cached() || fresh is Some,
        ensures
            final(self).root == old(self).root,
            final(self).config == old(self).config,
            final(self).metadata == old(self).metadata,
            final(self).artifact_cache == old(self).artifact_cache,
            old(self).compile_cached() ==> *final(self) == *old(self) && (r matches Ok(out)
                && outputs_equiv(out, old(self).cached_output())),
            !old(self).compile_cached() ==> match fresh {
                Some(Ok(out)) => final(self).compile_cache == Some(out) && (r matches Ok(o2)
                    && outputs_equiv(o2, out)),
                Some(Err(diag)) => *final(self) == *old(self) && (r matches Err(e) && e matches
                    TweakError::Compile { diagnostics } && diagnostics@ == diag@),
                None => false,
            },
    {
        match &self.compile_cache {
            Some(out) => Ok(out.clone()),
            None => match fresh {
                Some(Ok(out)) => {
                    let copy = out.clone();
                    self.compile_cache = Some(out);
                    Ok(copy)
                },
                Some(Err(diag)) => Err(TweakError::Compile { diagnostics: diag }),
                None => {
                    proof {
                        assert(false);
                    }
                    Err(TweakError::Compile { diagnostics: String::new() })
                },
            },
        }
    }

    /// The artifact of the project's target contract, cached after the
    /// first successful resolution.
    ///
    /// Resolution compiles (through the same cache as
    /// [`Self::compile_safe`]) and takes the first artifact whose contract
    /// name equals the recorded target contract; if none matches, the
    /// target contract's name is reported as not found and nothing is
    /// cached.
    pub fn main_artifact(&mut self, fresh: Option<Result<CompileOutput, String>>) -> (r: Result<
        Artifact,
        TweakError,
    >)
        requires
            old(self).artifact_cached() || old(self).compile_cached() || fresh is Some,
        ensures
            final(self).root == old(self).root,
            final(self).config == old(self).config,
            final(self).metadata == old(self).metadata,
            old(self).artifact_cached() ==> *final(self) == *old(self) && (r matches Ok(a)
                && artifacts_equiv(a, old(self).cached_artifact())),
            (!old(self).artifact_cached() && !old(self).compile_cached()) ==> match fresh {
                Some(Err(diag)) => *final(self) == *old(self) && (r matches Err(e) && e matches
                    TweakError::Compile { diagnostics } && diagnostics@ == diag@),
                Some(Ok(out)) => final(self).compile_cache == Some(out) && resolution_holds(
                    old(self).metadata.target_contract@,
                    out,
                    *final(self),
                    r,
                ),
                None => false,
            },
            (!old(self).artifact_cached() && old(self).compile_cached())
                ==> final(self).compile_cache == old(self).compile_cache && resolution_holds(
                old(self).metadata.target_contract@,
                old(self).cached_output(),
                *final(self),
                r,
            ),
    {
        match &self.artifact_cache {
            Some(a) => {
                return Ok(a.clone());
            },
            None => {},
        }
        if self.compile_cache.is_none() {
            match fresh {
                Some(Ok(out)) => {
                    self.compile_cache = Some(out);
                },
                Some(Err(diag)) => {
                    return Err(TweakError::Compile { diagnostics: diag });
                },
                None => {
                    proof {
                        assert(false);
                    }
                    return Err(TweakError::Compile { diagnostics: String::new() });
                },
            }
        }
        let found: Option<usize> = match &self.compile_cache {
            Some(out) => find_artifact(out, &self.metadata.target_contract),
            None => {
                proof {
                    assert(false);
                }
                None
            },
        };
        match found {
            Some(j) => {
                let a = match &self.compile_cache {
                    Some(out) => out.artifacts[j].clone(),
                    None => {
                        proof {
                            assert(false);
                        }
                        return Err(TweakError::Compile { diagnostics: String::new() });
                    },
                };
                self.artifact_cache = Some(a.clone());
                Ok(a)
            },
            None => Err(
                TweakError::NotFound { what: self.metadata.target_contract.clone() },
            ),
        }
    }
}

/// What resolving the target contract against compile output `out` leaves
/// behind: on a first match the matched artifact (up to re-cloned strings)
/// is cached and returned; with no match the target's name is reported as
/// not found and the artifact cache stays empty.
pub open spec fn resolution_holds(
    target: Seq<char>,
    out: CompileOutput,
    p_final: ClonedProject,
    r: Result<Artifact, TweakError>,
) -> bool {
    match r {
        Ok(a) => {
            &&& p_final.artifact_cached()
            &&& exists|j: int| #[trigger] first_artifact(out.artifacts@, target, j)
                && artifacts_equiv(p_final.cached_artifact(), out.artifacts@[j])
            &&& artifacts_equiv(a, p_final.cached_artifact())
        },
        Err(e) => {
            &&& no_artifact(out.artifacts@, target)
            &&& !p_final.artifact_cached()
            &&& e matches TweakError::NotFound { what } && what@ == target
        },
    }
}

} // verus!
