use vstd::prelude::*;

use crate::state::address::Address;

verus! {

/// The deployment-wide configuration: who administers the protocol, where
/// the protocol's share of termination fees goes, and the fee parameter that
/// new sessions capture at creation time. It is created once by the admin and
/// mutated only by admin-authorized updates; sessions read it and never write
/// it.
#[derive(Clone, Copy, Debug, PartialEq, Eq, Structural)]
pub struct ProgramConfig {
    /// The admin identity that may update this configuration.
    pub admin: Address,
    /// The protocol treasury's asset account.
    pub protocol_ata: Address,
    /// The termination fee parameter, in basis points; always below 10000.
    pub fee_basis_points: u64,
    /// The derivation nonce under which the host stores this record.
    pub bump: u8,
}

impl ProgramConfig {
    /// The configuration's invariant: the fee parameter stays below 10000
    /// basis points. Both constructors establish it and the update keeps it.
    pub open spec fn wf(self) -> bool {
        self.fee_basis_points < 10000
    }
}

} // verus!
