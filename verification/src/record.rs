use vstd::prelude::*;

use crate::error::RecordError;
use crate::key::Key;

verus! {

/// The caller-visible portion of a stored record: its address, the
/// authority that owns it, whether the calling context may write to it, and
/// its raw bytes. Every record is checked through `validate_record` before
/// anything in it is trusted.
pub struct RecordInfo {
    pub key: Key,
    pub owner: Key,
    pub is_writable: bool,
    pub data: Vec<u8>,
}

/// The validator's verdict, checks in this fixed order: owning authority,
/// initialization, writability (only when a mutation is intended), leading
/// type tag, and finally that the record sits at the expected derived
/// address (no address is acceptable when none is derivable).
pub open spec fn spec_validate(
    record: RecordInfo,
    program_id: Seq<u8>,
    expect_writable: bool,
    discriminator: u8,
    expected: Option<Seq<u8>>,
) -> Result<(), RecordError> {
    if record.owner@ != program_id {
        Err(RecordError::InvalidOwner)
    } else if record.data@.len() == 0 {
        Err(RecordError::DataEmpty)
    } else if expect_writable && !record.is_writable {
        Err(RecordError::NotWritable)
    } else if record.data@[0] != discriminator {
        Err(RecordError::InvalidDiscriminator)
    } else if !(expected matches Some(a) && record.key@ == a) {
        Err(RecordError::InvalidAddress)
    } else {
        Ok(())
    }
}

/// The bytes of an optionally present key.
pub open spec fn spec_opt_key(k: Option<&Key>) -> Option<Seq<u8>> {
    match k {
        Some(k) => Some(k@),
        None => None,
    }
}

/// The integrity/ownership/address check applied uniformly to every stored
/// record, parameterized by the expected type tag and expected derived
/// address. Each failure is reported as its own distinct error.
pub fn validate_record(
    program_id: &Key,
    record: &RecordInfo,
    expect_writable: bool,
    discriminator: u8,
    expected_key: Option<&Key>,
) -> (r: Result<(), RecordError>)
    ensures
        r == spec_validate(
            *record,
            program_id@,
            expect_writable,
            discriminator,
            spec_opt_key(expected_key),
        ),
{
    if !record.owner.eq_bytes(program_id) {
        return Err(RecordError::InvalidOwner);
    }
    if record.data.len() == 0 {
        return Err(RecordError::DataEmpty);
    }
    if expect_writable && !record.is_writable {
        return Err(RecordError::NotWritable);
    }
    if record.data[0] != discriminator {
        return Err(RecordError::InvalidDiscriminator);
    }
    match expected_key {
        Some(expected) => {
            if record.key.eq_bytes(expected) {
                Ok(())
            } else {
                Err(RecordError::InvalidAddress)
            }
        }
        None => Err(RecordError::InvalidAddress),
    }
}

} // verus!
