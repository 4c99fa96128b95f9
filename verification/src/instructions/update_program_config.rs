use vstd::prelude::*;

use crate::errors::ProgramConfigCode;
use crate::state::address::Address;
use crate::state::program_config::ProgramConfig;

verus! {

/// An update of the protocol configuration in flight: the verified caller
/// and the configuration the host looked up. Only the configuration's own
/// admin may reach this state.
pub struct UpdateProgramConfig {
    /// The authenticated caller.
    pub authority: Address,
    /// The configuration to update.
    pub program_config: ProgramConfig,
}

impl UpdateProgramConfig {
    /// The caller is the configuration's admin, and the configuration obeys
    /// its invariant.
    pub open spec fn wf(self) -> bool {
        &&& self.authority == self.program_config.admin
        &&& self.program_config.wf()
    }

    /// Overwrites the stored fee parameter, provided the new value stays
    /// below 10000 basis points; 10000 or more is refused and the
    /// configuration keeps its old value. Sessions already created are
    /// unaffected either way: each captured its own termination fee at
    /// creation.
    pub fn update_program_config(&mut self, fee_basis_points: u64) -> (r: Result<
        (),
        ProgramConfigCode,
    >)
        requires
            old(self).wf(),
        ensures
            final(self).authority == old(self).authority,
            final(self).wf(),
            match r {
                Ok(()) => {
                    &&& fee_basis_points < 10000
                    &&& final(self).program_config == (ProgramConfig {
                        fee_basis_points,
                        ..old(self).program_config
                    })
                },
                Err(e) => {
                    &&& e == ProgramConfigCode::FeeBasisPointsTooHigh
                    &&& fee_basis_points >= 10000
                    &&& final(self).program_config == old(self).program_config
                },
            },
    {
        if fee_basis_points >= 10000 {
            return Err(ProgramConfigCode::FeeBasisPointsTooHigh);
        }
        self.program_config.fee_basis_points = fee_basis_points;
        Ok(())
    }
}

} // verus!
