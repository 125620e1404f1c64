//! The immutable descriptor of the original on-chain contract.

use vstd::prelude::*;
use crate::layout::{layouts_equiv, StorageVar};

verus! {

/// The ground truth a cloned project is checked against: where the original
/// contract lives, how it was deployed, and the storage layout it was
/// deployed with. Loaded once from the clone descriptor and never mutated;
/// in particular its `storage_layout` is the compatibility baseline and is
/// never overwritten by a later compile.
#[derive(Debug)]
pub struct CloneMetadata {
    /// Path of the source file with the contract declaration, relative to
    /// the project root.
    pub path: String,
    /// Name of the contract to resolve in the compile output.
    pub target_contract: String,
    /// Address of the deployed contract (20 bytes).
    pub address: Vec<u8>,
    /// Chain the contract is deployed on.
    pub chain_id: u64,
    /// Hash of the creation transaction (32 bytes).
    pub creation_transaction: Vec<u8>,
    /// Address of the deployer (20 bytes).
    pub deployer: Vec<u8>,
    /// Raw constructor arguments of the original deployment.
    pub constructor_arguments: Vec<u8>,
    /// Storage layout of the contract as it was deployed.
    pub storage_layout: Vec<StorageVar>,
}

impl CloneMetadata {
    /// The fixed-width byte fields have their proper lengths.
    pub open spec fn wf(self) -> bool {
        self.address@.len() == 20 && self.creation_transaction@.len() == 32
            && self.deployer@.len() == 20
    }
}

/// Two metadata values describe the same deployment field for field.
pub open spec fn metas_equiv(a: CloneMetadata, b: CloneMetadata) -> bool {
    a.path@ == b.path@ && a.target_contract@ == b.target_contract@ && a.address@ == b.address@
        && a.chain_id == b.chain_id && a.creation_transaction@ == b.creation_transaction@
        && a.deployer@ == b.deployer@ && a.constructor_arguments@ == b.constructor_arguments@
        && layouts_equiv(a.storage_layout@, b.storage_layout@)
}

/// Copy a byte string.
pub fn copy_bytes(v: &Vec<u8>) -> (r: Vec<u8>)
    ensures
        r@ == v@,
{
    let mut r: Vec<u8> = Vec::new();
    let mut i: usize = 0;
    while i < v.len()
        invariant
            i <= v.len(),
            r@ == v@.take(i as int),
        decreases v.len() - i,
    {
        r.push(v[i]);
        proof {
            assert(r@ =~= v@.take(i + 1));
        }
        i = i + 1;
    }
    proof {
        assert(r@ =~= v@);
    }
    r
}

/// Copy a storage layout.
pub fn copy_layout(v: &Vec<StorageVar>) -> (r: Vec<StorageVar>)
    ensures
        layouts_equiv(r@, v@),
{
    let mut r: Vec<StorageVar> = Vec::new();
    let mut i: usize = 0;
    while i < v.len()
        invariant
            i <= v.len(),
            r@.len() == i,
            layouts_equiv(r@, v@.take(i as int)),
        decreases v.len() - i,
    {
        r.push(v[i].clone());
        i = i + 1;
    }
    r
}

impl Clone for CloneMetadata {
    fn clone(&self) -> (r: Self)
        ensures
            metas_equiv(r, *self),
    {
        CloneMetadata {
            path: self.path.clone(),
            target_contract: self.target_contract.clone(),
            address: copy_bytes(&self.address),
            chain_id: self.chain_id,
            creation_transaction: copy_bytes(&self.creation_transaction),
            deployer: copy_bytes(&self.deployer),
            constructor_arguments: copy_bytes(&self.constructor_arguments),
            storage_layout: copy_layout(&self.storage_layout),
        }
    }
}

} // verus!
