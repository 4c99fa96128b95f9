use vstd::prelude::*;

use crate::errors::ProgramConfigCode;
use crate::state::address::Address;
use crate::state::program_config::ProgramConfig;

verus! {

/// Creation of the protocol configuration in flight. Only the one admin
/// identity fixed at deployment may create it; the host's authentication
/// admits nobody else, which the well-formedness condition records.
pub struct InitializeProgramConfig {
    /// The authenticated caller.
    pub authority: Address,
    /// The deployment-time admin identity.
    pub admin: Address,
    /// The protocol treasury's asset account, owned by the admin.
    pub protocol_ata: Address,
}

impl InitializeProgramConfig {
    /// The caller is the deployment's admin.
    pub open spec fn wf(self) -> bool {
        self.authority == self.admin
    }

    /// Creates the protocol configuration: the caller becomes its admin and
    /// the fee parameter is captured, provided it stays below 10000 basis
    /// points; 10000 or more is refused and nothing is created.
    pub fn initialize_program_config(&self, fee_basis_points: u64, bump: u8) -> (r: Result<
        ProgramConfig,
        ProgramConfigCode,
    >)
        requires
            self.wf(),
        ensures
            match r {
                Ok(c) => {
                    &&& fee_basis_points < 10000
                    &&& c == (ProgramConfig {
                        admin: self.authority,
                        protocol_ata: self.protocol_ata,
                        fee_basis_points,
                        bump,
                    })
                    &&& c.wf()
                },
                Err(e) => {
                    &&& e == ProgramConfigCode::FeeBasisPointsTooHigh
                    &&& fee_basis_points >= 10000
                },
            },
    {
        if fee_basis_points >= 10000 {
            return Err(ProgramConfigCode::FeeBasisPointsTooHigh);
        }
        Ok(
            ProgramConfig {
                admin: self.authority,
                protocol_ata: self.protocol_ata,
                fee_basis_points,
                bump,
            },
        )
    }
}

} // verus!
