use vstd::prelude::*;

use crate::error::{RecordError, ResolverError};
use crate::key::Key;
use crate::pda::{find_pda, pda_of, spec_pda_addr};
use crate::record::{spec_validate, validate_record, RecordInfo};

verus! {

/// The leading type tag of a stored resolver configuration record.
pub const CONFIG_DISCRIMINATOR: u8 = 2;

/// The fixed salt naming a network's configuration record:
/// the bytes of `resolver_config`.
pub open spec fn config_seed() -> Seq<u8> {
    seq![
        114u8, 101u8, 115u8, 111u8, 108u8, 118u8, 101u8, 114u8, 95u8, 99u8, 111u8, 110u8,
        102u8, 105u8, 103u8,
    ]
}

/// The full seed list a network's configuration is derived from.
pub open spec fn spec_config_seeds(ncn: Seq<u8>) -> Seq<Seq<u8>> {
    seq![config_seed(), ncn]
}

/// The per-network slashing policy: who administers it, who may veto, who
/// may slash instantly, and how long the veto and delete windows last.
#[derive(Clone, Copy, Debug, PartialEq, Eq)]
pub struct ResolverConfig {
    /// May rotate the other roles and the periods.
    pub admin: Key,
    /// May veto a proposed slash.
    pub slasher_admin: Key,
    /// Delegated veto authority.
    pub slasher_delegate_admin: Key,
    /// May complete a proposed slash without waiting out the veto window.
    pub instant_slasher: Key,
    /// How long a proposed slash remains contestable.
    pub veto_period: u64,
    /// How long a resolved slot cools down before it may be reclaimed.
    pub delete_period: u64,
    /// The derivation bump of the configuration's own address.
    pub bump: u8,
}

impl ResolverConfig {
    /// A fresh configuration with the given roles and periods.
    pub fn new(
        admin: Key,
        slasher_admin: Key,
        slasher_delegate_admin: Key,
        instant_slasher: Key,
        veto_period: u64,
        delete_period: u64,
        bump: u8,
    ) -> (r: ResolverConfig)
        ensures
            r == (ResolverConfig {
                admin,
                slasher_admin,
                slasher_delegate_admin,
                instant_slasher,
                veto_period,
                delete_period,
                bump,
            }),
    {
        ResolverConfig {
            admin,
            slasher_admin,
            slasher_delegate_admin,
            instant_slasher,
            veto_period,
            delete_period,
            bump,
        }
    }

    /// Rotates the roles and periods. Only the configured admin may do so;
    /// anyone else fails with `ResolverAdminInvalid` and changes nothing.
    /// The admin role itself is immutable.
    pub fn update(
        &mut self,
        caller: &Key,
        slasher_admin: Key,
        slasher_delegate_admin: Key,
        instant_slasher: Key,
        veto_period: u64,
        delete_period: u64,
    ) -> (r: Result<(), ResolverError>)
        ensures
            match r {
                Ok(_) => {
                    &&& caller@ == old(self).admin@
                    &&& *final(self) == (ResolverConfig {
                        slasher_admin,
                        slasher_delegate_admin,
                        instant_slasher,
                        veto_period,
                        delete_period,
                        ..*old(self)
                    })
                },
                Err(e) => {
                    &&& caller@ != old(self).admin@
                    &&& e == ResolverError::ResolverAdminInvalid
                    &&& *final(self) == *old(self)
                },
            },
    {
        if !caller.eq_bytes(&self.admin) {
            return Err(ResolverError::ResolverAdminInvalid);
        }
        self.slasher_admin = slasher_admin;
        self.slasher_delegate_admin = slasher_delegate_admin;
        self.instant_slasher = instant_slasher;
        self.veto_period = veto_period;
        self.delete_period = delete_period;
        Ok(())
    }

    /// The seed list the record's address is derived from: the fixed salt,
    /// then the network key's bytes.
    pub fn seeds(ncn: &Key) -> (r: Vec<Vec<u8>>)
        ensures
            r.deep_view() == spec_config_seeds(ncn@),
    {
        let mut salt: Vec<u8> = Vec::new();
        salt.push(114u8);
        salt.push(101u8);
        salt.push(115u8);
        salt.push(111u8);
        salt.push(108u8);
        salt.push(118u8);
        salt.push(101u8);
        salt.push(114u8);
        salt.push(95u8);
        salt.push(99u8);
        salt.push(111u8);
        salt.push(110u8);
        salt.push(102u8);
        salt.push(105u8);
        salt.push(103u8);
        proof {
            assert(salt@ =~= config_seed());
        }
        let mut r: Vec<Vec<u8>> = Vec::new();
        r.push(salt);
        r.push(ncn.to_vec());
        proof {
            assert(r.deep_view() =~~= spec_config_seeds(ncn@));
        }
        r
    }

    /// The deterministic address of a network's configuration record, with
    /// its bump and the seeds it was derived from.
    pub fn find_program_address(program_id: &Key, ncn: &Key) -> (r: Option<(Key, u8, Vec<Vec<u8>>)>)
        ensures
            match r {
                Some(p) => {
                    &&& pda_of(program_id@, spec_config_seeds(ncn@)) == Some((p.0@, p.1))
                    &&& p.2.deep_view() == spec_config_seeds(ncn@)
                },
                None => pda_of(program_id@, spec_config_seeds(ncn@)) is None,
            },
    {
        let seeds = Self::seeds(ncn);
        match find_pda(program_id, &seeds) {
            Some(p) => Some((p.0, p.1, seeds)),
            None => None,
        }
    }

    /// Validates a stored configuration record before it is trusted, with
    /// the same uniform checks as every other record.
    pub fn load(
        program_id: &Key,
        config: &RecordInfo,
        ncn: &Key,
        expect_writable: bool,
    ) -> (r: Result<(), RecordError>)
        ensures
            r == spec_validate(
                *config,
                program_id@,
                expect_writable,
                CONFIG_DISCRIMINATOR,
                spec_pda_addr(pda_of(program_id@, spec_config_seeds(ncn@))),
            ),
    {
        let seeds = Self::seeds(ncn);
        let derived = find_pda(program_id, &seeds);
        match &derived {
            Some(p) => validate_record(
                program_id,
                config,
                expect_writable,
                CONFIG_DISCRIMINATOR,
                Some(&p.0),
            ),
            None => validate_record(
                program_id,
                config,
                expect_writable,
                CONFIG_DISCRIMINATOR,
                None,
            ),
        }
    }
}

} // verus!
