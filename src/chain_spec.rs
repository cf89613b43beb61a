use crate::epoch::Epoch;
use vstd::prelude::*;

verus! {

/// The chain constants that the validator predicates read.
#[derive(Clone, Copy, Debug, PartialEq, Eq, Structural)]
pub struct ChainSpec {
    /// Sentinel epoch that marks a lifecycle event as unset.
    pub far_future_epoch: Epoch,
    /// Cap on a validator's effective balance.
    pub max_effective_balance: u64,
    /// Tag byte of withdrawal credentials that hold an execution address.
    pub eth1_address_withdrawal_prefix_byte: u8,
}

} // verus!
