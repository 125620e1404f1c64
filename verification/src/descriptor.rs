//! The persisted clone descriptor and its schema.
//!
//! One descriptor file sits at a fixed, conventional path under each cloned
//! project's root. Its byte-string fields are spelled as `0x`-prefixed
//! hexadecimal; this module turns a descriptor record into [`CloneMetadata`]
//! and back, and proves the round trip faithful. Reading the file and its
//! outer structured syntax are the caller's business; this module owns the
//! meaning of the fields.

use vstd::prelude::*;
use crate::hex::{
    decode_hex_field, encode_hex_field, hex_field, hex_field_val, is_hex_field,
    lemma_hex_field_round_trip,
};
use crate::layout::{layouts_equiv, StorageVar};
use crate::metadata::{copy_layout, metas_equiv, CloneMetadata};
use crate::errors::TweakError;

verus! {

/// The clone descriptor as persisted: the same fields as [`CloneMetadata`],
/// with every byte-string field spelled as ASCII hexadecimal.
#[derive(Debug)]
pub struct Descriptor {
    pub path: String,
    pub target_contract: String,
    /// `0x`-prefixed hexadecimal, 20 bytes worth of digits.
    pub address: Vec<u8>,
    pub chain_id: u64,
    /// `0x`-prefixed hexadecimal, 32 bytes worth of digits.
    pub creation_transaction: Vec<u8>,
    /// `0x`-prefixed hexadecimal, 20 bytes worth of digits.
    pub deployer: Vec<u8>,
    /// `0x`-prefixed hexadecimal, any length.
    pub constructor_arguments: Vec<u8>,
    pub storage_layout: Vec<StorageVar>,
}

/// `d` is the descriptor record that serializing `m` produces.
pub open spec fn desc_of(m: CloneMetadata, d: Descriptor) -> bool {
    d.path@ == m.path@ && d.target_contract@ == m.target_contract@ && d.address@ == hex_field(
        m.address@,
    ) && d.chain_id == m.chain_id && d.creation_transaction@ == hex_field(
        m.creation_transaction@,
    ) && d.deployer@ == hex_field(m.deployer@) && d.constructor_arguments@ == hex_field(
        m.constructor_arguments@,
    ) && layouts_equiv(d.storage_layout@, m.storage_layout@)
}

/// Every hexadecimal field of `d` is well formed and of its proper width.
pub open spec fn desc_wf(d: Descriptor) -> bool {
    is_hex_field(d.address@) && hex_field_val(d.address@).len() == 20 && is_hex_field(
        d.creation_transaction@,
    ) && hex_field_val(d.creation_transaction@).len() == 32 && is_hex_field(d.deployer@)
        && hex_field_val(d.deployer@).len() == 20 && is_hex_field(d.constructor_arguments@)
}

/// `m` is the metadata that reading `d` back produces.
pub open spec fn decodes_to(d: Descriptor, m: CloneMetadata) -> bool {
    m.path@ == d.path@ && m.target_contract@ == d.target_contract@ && m.address@ == hex_field_val(
        d.address@,
    ) && m.chain_id == d.chain_id && m.creation_transaction@ == hex_field_val(
        d.creation_transaction@,
    ) && m.deployer@ == hex_field_val(d.deployer@) && m.constructor_arguments@ == hex_field_val(
        d.constructor_arguments@,
    ) && layouts_equiv(m.storage_layout@, d.storage_layout@)
}

/// Serialize metadata to the descriptor schema.
pub fn encode_metadata(m: &CloneMetadata) -> (d: Descriptor)
    requires
        2 + 2 * m.constructor_arguments@.len() <= usize::MAX,
        m.wf(),
    ensures
        desc_of(*m, d),
{
    Descriptor {
        path: m.path.clone(),
        target_contract: m.target_contract.clone(),
        address: encode_hex_field(&m.address),
        chain_id: m.chain_id,
        creation_transaction: encode_hex_field(&m.creation_transaction),
        deployer: encode_hex_field(&m.deployer),
        constructor_arguments: encode_hex_field(&m.constructor_arguments),
        storage_layout: copy_layout(&m.storage_layout),
    }
}

/// Read a descriptor record back into metadata.
///
/// Fails with a parse error exactly when a hexadecimal field is malformed
/// or a fixed-width field has the wrong width.
pub fn decode_descriptor(d: &Descriptor) -> (r: Result<CloneMetadata, TweakError>)
    ensures
        r is Ok <==> desc_wf(*d),
        r matches Ok(m) ==> m.wf() && decodes_to(*d, m),
        r matches Err(e) ==> e is Parse,
{
    let address = match decode_hex_field(&d.address) {
        Some(b) => b,
        None => {
            return Err(TweakError::Parse { what: "address".to_owned() });
        },
    };
    if address.len() != 20 {
        return Err(TweakError::Parse { what: "address".to_owned() });
    }
    let creation_transaction = match decode_hex_field(&d.creation_transaction) {
        Some(b) => b,
        None => {
            return Err(TweakError::Parse { what: "creationTransaction".to_owned() });
        },
    };
    if creation_transaction.len() != 32 {
        return Err(TweakError::Parse { what: "creationTransaction".to_owned() });
    }
    let deployer = match decode_hex_field(&d.deployer) {
        Some(b) => b,
        None => {
            return Err(TweakError::Parse { what: "deployer".to_owned() });
        },
    };
    if deployer.len() != 20 {
        return Err(TweakError::Parse { what: "deployer".to_owned() });
    }
    let constructor_arguments = match decode_hex_field(&d.constructor_arguments) {
        Some(b) => b,
        None => {
            return Err(TweakError::Parse { what: "constructorArguments".to_owned() });
        },
    };
    Ok(
        CloneMetadata {
            path: d.path.clone(),
            target_contract: d.target_contract.clone(),
            address,
            chain_id: d.chain_id,
            creation_transaction,
            deployer,
            constructor_arguments,
            storage_layout: copy_layout(&d.storage_layout),
        },
    )
}

/// Round trip: a serialized metadata value reads back field for field.
///
/// Whatever `desc_of` relates to `m` is well formed, and anything that
/// record decodes to is `m` again.
pub proof fn lemma_descriptor_round_trip(m: CloneMetadata, d: Descriptor)
    requires
        m.wf(),
        desc_of(m, d),
    ensures
        desc_wf(d),
        forall|m2: CloneMetadata| decodes_to(d, m2) ==> metas_equiv(m2, m),
{
    lemma_hex_field_round_trip(m.address@);
    lemma_hex_field_round_trip(m.creation_transaction@);
    lemma_hex_field_round_trip(m.deployer@);
    lemma_hex_field_round_trip(m.constructor_arguments@);
    assert forall|m2: CloneMetadata| decodes_to(d, m2) implies metas_equiv(m2, m) by {
        assert(m2.address@ =~= m.address@);
        assert(m2.creation_transaction@ =~= m.creation_transaction@);
        assert(m2.deployer@ =~= m.deployer@);
        assert(m2.constructor_arguments@ =~= m.constructor_arguments@);
        assert(layouts_equiv(m2.storage_layout@, m.storage_layout@)) by {
            assert forall|i: int|
                0 <= i < m2.storage_layout@.len() implies crate::layout::vars_equiv(
                #[trigger] m2.storage_layout@[i],
                m.storage_layout@[i],
            ) by {
                assert(crate::layout::vars_equiv(m2.storage_layout@[i], d.storage_layout@[i]));
                assert(crate::layout::vars_equiv(d.storage_layout@[i], m.storage_layout@[i]));
            }
        }
    }
}

impl CloneMetadata {
    /// Load the metadata of the cloned project rooted at a directory, given
    /// the descriptor record found there, or `None` where no descriptor file
    /// exists. The missing file is a not-found error; a descriptor that does
    /// not spell a valid record is a parse error.
    pub fn load_with_root(descriptor: Option<&Descriptor>) -> (r: Result<CloneMetadata, TweakError>)
        ensures
            r is Ok <==> (descriptor matches Some(d) && desc_wf(*d)),
            r matches Ok(m) ==> m.wf() && decodes_to(*descriptor.unwrap(), m),
            descriptor is None ==> (r matches Err(e) && e is NotFound),
            (descriptor matches Some(d) && !desc_wf(*d)) ==> (r matches Err(e) && e is Parse),
    {
        match descriptor {
            None => Err(TweakError::NotFound { what: "clone descriptor".to_owned() }),
            Some(d) => decode_descriptor(d),
        }
    }
}

} // verus!
