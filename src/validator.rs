use crate::chain_spec::ChainSpec;
use crate::epoch::Epoch;
use vstd::prelude::*;

verus! {

/// A 32-byte value of the size of a hash, such as the withdrawal credentials.
pub type Hash256 = [u8; 32];

/// A 20-byte execution-layer address.
pub type Address = [u8; 20];

/// A compressed BLS public key, carried as bytes.
pub type PublicKeyBytes = [u8; 48];

/// Offset of the execution address inside the withdrawal credentials.
pub const ADDRESS_OFFSET: usize = 12;

/// Withdrawal credentials that hold the execution address `addr` under the
/// tag byte `prefix`: the tag, eleven zero bytes, then the twenty address bytes.
pub open spec fn eth1_credentials(prefix: u8, addr: Seq<u8>) -> Seq<u8> {
    seq![prefix] + Seq::new(11, |i: int| 0u8) + addr
}

/// Whether the credentials `creds` carry the execution-address tag `prefix`.
pub open spec fn is_eth1_credentials(creds: Seq<u8>, prefix: u8) -> bool {
    creds.len() > 0 && creds[0] == prefix
}

/// The execution address held by `creds`, if they carry the tag `prefix`.
pub open spec fn eth1_address_of(creds: Seq<u8>, prefix: u8) -> Option<Seq<u8>> {
    if is_eth1_credentials(creds, prefix) {
        Some(creds.subrange(ADDRESS_OFFSET as int, 32))
    } else {
        None
    }
}

/// An optional address, seen as an optional byte sequence.
pub open spec fn address_view(a: Option<Address>) -> Option<Seq<u8>> {
    match a {
        Some(a) => Some(a@),
        None => None,
    }
}

/// Information about a validator of the beacon chain.
///
/// The protocol keeps `activation_eligibility_epoch <= activation_epoch <=
/// exit_epoch <= withdrawable_epoch` among the epochs that are set, and
/// `effective_balance <= max_effective_balance`; these are upheld by the
/// state-transition logic that owns the registry and are not assumed here.
#[derive(Clone, Copy, Debug, PartialEq, Eq)]
pub struct Validator {
    pub pubkey: PublicKeyBytes,
    pub withdrawal_credentials: Hash256,
    pub effective_balance: u64,
    pub slashed: bool,
    pub activation_eligibility_epoch: Epoch,
    pub activation_epoch: Epoch,
    pub exit_epoch: Epoch,
    pub withdrawable_epoch: Epoch,
}

impl Validator {
    pub open spec fn spec_is_active_at(self, epoch: Epoch) -> bool {
        self.activation_epoch.0 <= epoch.0 && epoch.0 < self.exit_epoch.0
    }

    pub open spec fn spec_is_exited_at(self, epoch: Epoch) -> bool {
        self.exit_epoch.0 <= epoch.0
    }

    pub open spec fn spec_is_withdrawable_at(self, epoch: Epoch) -> bool {
        epoch.0 >= self.withdrawable_epoch.0
    }

    pub open spec fn spec_has_eth1_withdrawal_credential(self, spec: ChainSpec) -> bool {
        is_eth1_credentials(self.withdrawal_credentials@, spec.eth1_address_withdrawal_prefix_byte)
    }

    pub open spec fn spec_is_eligible_for_activation(
        self,
        finalized_epoch: Epoch,
        spec: ChainSpec,
    ) -> bool {
        self.activation_eligibility_epoch.0 <= finalized_epoch.0
            && self.activation_epoch == spec.far_future_epoch
    }

    pub open spec fn spec_is_partially_withdrawable_validator(
        self,
        balance: u64,
        spec: ChainSpec,
    ) -> bool {
        self.spec_has_eth1_withdrawal_credential(spec)
            && self.effective_balance == spec.max_effective_balance
            && balance > spec.max_effective_balance
    }

    /// Returns `true` if the validator is considered active at some epoch.
    pub fn is_active_at(&self, epoch: Epoch) -> (r: bool)
        ensures
            r == self.spec_is_active_at(epoch),
    {
        self.activation_epoch.0 <= epoch.0 && epoch.0 < self.exit_epoch.0
    }

    /// Returns `true` if the validator is slashable at some epoch.
    pub fn is_slashable_at(&self, epoch: Epoch) -> (r: bool)
        ensures
            r == (!self.slashed && self.activation_epoch.0 <= epoch.0
                && epoch.0 < self.withdrawable_epoch.0),
    {
        !self.slashed && self.activation_epoch.0 <= epoch.0 && epoch.0 < self.withdrawable_epoch.0
    }

    /// Returns `true` if the validator is considered exited at some epoch.
    pub fn is_exited_at(&self, epoch: Epoch) -> (r: bool)
        ensures
            r == self.spec_is_exited_at(epoch),
    {
        self.exit_epoch.0 <= epoch.0
    }

    /// Returns `true` if the validator is able to withdraw at some epoch.
    pub fn is_withdrawable_at(&self, epoch: Epoch) -> (r: bool)
        ensures
            r == self.spec_is_withdrawable_at(epoch),
    {
        epoch.0 >= self.withdrawable_epoch.0
    }

    /// Returns `true` if the validator is eligible to join the activation queue:
    /// it has not been queued yet and its balance has reached the cap.
    pub fn is_eligible_for_activation_queue(&self, spec: &ChainSpec) -> (r: bool)
        ensures
            r == (self.activation_eligibility_epoch == spec.far_future_epoch
                && self.effective_balance == spec.max_effective_balance),
    {
        self.activation_eligibility_epoch.0 == spec.far_future_epoch.0
            && self.effective_balance == spec.max_effective_balance
    }

    /// Returns `true` if the validator is eligible to be activated: its place in
    /// the queue is finalized (`finalized_epoch` is the epoch of the finalized
    /// checkpoint) and it has not been activated yet.
    pub fn is_eligible_for_activation(
        &self,
        finalized_epoch: Epoch,
        spec: &ChainSpec,
    ) -> (r: bool)
        ensures
            r == self.spec_is_eligible_for_activation(finalized_epoch, *spec),
    {
        self.activation_eligibility_epoch.0 <= finalized_epoch.0
            && self.activation_epoch.0 == spec.far_future_epoch.0
    }

    /// Returns `true` if the first byte of the withdrawal credentials is the
    /// execution-address tag.
    pub fn has_eth1_withdrawal_credential(&self, spec: &ChainSpec) -> (r: bool)
        ensures
            r == self.spec_has_eth1_withdrawal_credential(*spec),
            r == (self.withdrawal_credentials[0] == spec.eth1_address_withdrawal_prefix_byte),
    {
        self.withdrawal_credentials[0] == spec.eth1_address_withdrawal_prefix_byte
    }

    /// Returns the execution address held in the withdrawal credentials, or
    /// `None` when they do not carry the execution-address tag.
    pub fn get_eth1_withdrawal_address(&self, spec: &ChainSpec) -> (r: Option<Address>)
        ensures
            address_view(r) == eth1_address_of(
                self.withdrawal_credentials@,
                spec.eth1_address_withdrawal_prefix_byte,
            ),
    {
        if !self.has_eth1_withdrawal_credential(spec) {
            return None;
        }
        let mut addr: Address = [0u8; 20];
        let mut i: usize = 0;
        while i < 20
            invariant
                0 <= i <= 20,
                forall|j: int|
                    0 <= j < i ==> addr@[j] == self.withdrawal_credentials@[ADDRESS_OFFSET + j],
            decreases 20 - i,
        {
            addr[i] = self.withdrawal_credentials[ADDRESS_OFFSET + i];
            i = i + 1;
        }
        assert(addr@ =~= self.withdrawal_credentials@.subrange(ADDRESS_OFFSET as int, 32));
        Some(addr)
    }

    /// Overwrites the withdrawal credentials with the execution-address tag,
    /// eleven zero bytes and `execution_address`.
    ///
    /// This performs no validation: the caller must have checked that the
    /// change is authorized.
    pub fn change_withdrawal_credentials(&mut self, execution_address: &Address, spec: &ChainSpec)
        ensures
            final(self).withdrawal_credentials@ == eth1_credentials(
                spec.eth1_address_withdrawal_prefix_byte,
                execution_address@,
            ),
            final(self).pubkey == old(self).pubkey,
            final(self).effective_balance == old(self).effective_balance,
            final(self).slashed == old(self).slashed,
            final(self).activation_eligibility_epoch == old(self).activation_eligibility_epoch,
            final(self).activation_epoch == old(self).activation_epoch,
            final(self).exit_epoch == old(self).exit_epoch,
            final(self).withdrawable_epoch == old(self).withdrawable_epoch,
    {
        let mut bytes: Hash256 = [0u8; 32];
        bytes[0] = spec.eth1_address_withdrawal_prefix_byte;
        let mut i: usize = 0;
        while i < 20
            invariant
                0 <= i <= 20,
                bytes@[0] == spec.eth1_address_withdrawal_prefix_byte,
                forall|j: int| 1 <= j < ADDRESS_OFFSET ==> bytes@[j] == 0u8,
                forall|j: int| 0 <= j < i ==> bytes@[ADDRESS_OFFSET + j] == execution_address@[j],
            decreases 20 - i,
        {
            bytes[ADDRESS_OFFSET + i] = execution_address[i];
            i = i + 1;
        }
        assert(bytes@ =~= eth1_credentials(
            spec.eth1_address_withdrawal_prefix_byte,
            execution_address@,
        ));
        self.withdrawal_credentials = bytes;
    }

    /// Returns `true` if the validator is fully withdrawable at some epoch.
    pub fn is_fully_withdrawable_at(
        &self,
        balance: u64,
        epoch: Epoch,
        spec: &ChainSpec,
    ) -> (r: bool)
        ensures
            r == (self.spec_has_eth1_withdrawal_credential(*spec)
                && self.withdrawable_epoch.0 <= epoch.0 && balance > 0),
    {
        self.has_eth1_withdrawal_credential(spec) && self.withdrawable_epoch.0 <= epoch.0
            && balance > 0
    }

    /// Returns `true` if the validator is partially withdrawable.
    pub fn is_partially_withdrawable_validator(&self, balance: u64, spec: &ChainSpec) -> (r: bool)
        ensures
            r == self.spec_is_partially_withdrawable_validator(balance, *spec),
    {
        self.has_eth1_withdrawal_credential(spec)
            && self.effective_balance == spec.max_effective_balance
            && balance > spec.max_effective_balance
    }
}

/// A validator whose four lifecycle epochs are all the far-future sentinel,
/// as `Validator::default` leaves them, is neither active nor exited nor
/// withdrawable at any epoch before the sentinel itself.
pub proof fn lemma_unscheduled_validator_is_idle(v: Validator, epoch: Epoch)
    requires
        v.activation_eligibility_epoch.0 == u64::MAX,
        v.activation_epoch.0 == u64::MAX,
        v.exit_epoch.0 == u64::MAX,
        v.withdrawable_epoch.0 == u64::MAX,
        epoch.0 < u64::MAX,
    ensures
        !v.spec_is_active_at(epoch),
        !v.spec_is_exited_at(epoch),
        !v.spec_is_withdrawable_at(epoch),
{
}

/// Setting the credentials to an execution address and reading the address
/// back gives exactly that address, whatever the tag byte.
pub proof fn lemma_withdrawal_address_round_trip(prefix: u8, addr: Address)
    ensures
        eth1_address_of(eth1_credentials(prefix, addr@), prefix) == Some(addr@),
{
    assert(eth1_credentials(prefix, addr@).subrange(ADDRESS_OFFSET as int, 32) =~= addr@);
}

/// A validator whose effective balance is below the cap is not partially
/// withdrawable, whatever its balance.
pub proof fn lemma_partial_withdrawal_needs_capped_balance(
    v: Validator,
    balance: u64,
    spec: ChainSpec,
)
    requires
        v.effective_balance < spec.max_effective_balance,
    ensures
        !v.spec_is_partially_withdrawable_validator(balance, spec),
{
}

/// A validator whose activation epoch is already set is not eligible for
/// activation, whatever the finalized epoch.
pub proof fn lemma_activated_validator_not_eligible(
    v: Validator,
    finalized_epoch: Epoch,
    spec: ChainSpec,
)
    requires
        v.activation_epoch != spec.far_future_epoch,
    ensures
        !v.spec_is_eligible_for_activation(finalized_epoch, spec),
{
}

impl Default for Validator {
    /// A validator that has never been scheduled for anything: every epoch is
    /// the far-future sentinel and it is not slashed. Meant for tests: its
    /// effective balance is `u64::MAX`, not a value a real deposit produces.
    fn default() -> (r: Self)
        ensures
            r.pubkey@ == Seq::new(48, |i: int| 0u8),
            r.withdrawal_credentials@ == Seq::new(32, |i: int| 0u8),
            r.activation_eligibility_epoch.0 == u64::MAX,
            r.activation_epoch.0 == u64::MAX,
            r.exit_epoch.0 == u64::MAX,
            r.withdrawable_epoch.0 == u64::MAX,
            !r.slashed,
            r.effective_balance == u64::MAX,
    {
        let r = Validator {
            pubkey: [0u8; 48],
            withdrawal_credentials: [0u8; 32],
            activation_eligibility_epoch: Epoch(u64::MAX),
            activation_epoch: Epoch(u64::MAX),
            exit_epoch: Epoch(u64::MAX),
            withdrawable_epoch: Epoch(u64::MAX),
            slashed: false,
            effective_balance: u64::MAX,
        };
        assert(r.pubkey@ =~= Seq::new(48, |i: int| 0u8));
        assert(r.withdrawal_credentials@ =~= Seq::new(32, |i: int| 0u8));
        r
    }
}

} // verus!
