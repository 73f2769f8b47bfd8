use vstd::prelude::*;

verus! {

/// The failure conditions of the slash lifecycle. Every fallible operation
/// reports the one specific check that failed: authorization, slot state,
/// timing, capacity or arithmetic.
#[derive(Clone, Copy, Debug, PartialEq, Eq, Structural)]
pub enum ResolverError {
    ResolverAdminInvalid,
    SlasherAdminInvalid,
    SlasherDelegateAdminInvalid,
    SlashProposalVetoPeriodEnded,
    SlashProposalVetoPeriodNotEnded,
    SlashProposalCompleted,
    SlashProposalInvalid,
    SlashProposalResolverInvalid,
    SlashProposalDeletePeriodNotEnded,
    ListFull,
    ArithmeticOverflow,
    ArithmeticUnderflow,
    DivisionByZero,
}

/// The numeric code a host environment reports for each error. The
/// arithmetic family starts at 3000; the rest are numbered in declaration
/// order.
pub open spec fn spec_error_code(e: ResolverError) -> u64 {
    match e {
        ResolverError::ResolverAdminInvalid => 0,
        ResolverError::SlasherAdminInvalid => 1,
        ResolverError::SlasherDelegateAdminInvalid => 2,
        ResolverError::SlashProposalVetoPeriodEnded => 3,
        ResolverError::SlashProposalVetoPeriodNotEnded => 4,
        ResolverError::SlashProposalCompleted => 5,
        ResolverError::SlashProposalInvalid => 6,
        ResolverError::SlashProposalResolverInvalid => 7,
        ResolverError::SlashProposalDeletePeriodNotEnded => 8,
        ResolverError::ListFull => 9,
        ResolverError::ArithmeticOverflow => 3000,
        ResolverError::ArithmeticUnderflow => 3001,
        ResolverError::DivisionByZero => 3002,
    }
}

impl ResolverError {
    /// The error's numeric code, as surfaced to a host environment.
    pub fn code(&self) -> (r: u64)
        ensures
            r == spec_error_code(*self),
    {
        match self {
            ResolverError::ResolverAdminInvalid => 0,
            ResolverError::SlasherAdminInvalid => 1,
            ResolverError::SlasherDelegateAdminInvalid => 2,
            ResolverError::SlashProposalVetoPeriodEnded => 3,
            ResolverError::SlashProposalVetoPeriodNotEnded => 4,
            ResolverError::SlashProposalCompleted => 5,
            ResolverError::SlashProposalInvalid => 6,
            ResolverError::SlashProposalResolverInvalid => 7,
            ResolverError::SlashProposalDeletePeriodNotEnded => 8,
            ResolverError::ListFull => 9,
            ResolverError::ArithmeticOverflow => 3000,
            ResolverError::ArithmeticUnderflow => 3001,
            ResolverError::DivisionByZero => 3002,
        }
    }

    /// The error family's name, used by hosts that decode numeric codes.
    pub fn type_of() -> (r: &'static str)
        ensures
            r@ == "resolver"@,
    {
        "resolver"
    }
}

/// The distinct integrity failures of the record validator, one per check:
/// ownership, initialization, writability, type tag, and address.
#[derive(Clone, Copy, Debug, PartialEq, Eq, Structural)]
pub enum RecordError {
    InvalidOwner,
    DataEmpty,
    NotWritable,
    InvalidDiscriminator,
    InvalidAddress,
}

} // verus!
