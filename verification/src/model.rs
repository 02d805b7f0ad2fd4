use crate::quorum::quorum;
use crate::types::{
    AccountId, Action, ActionInfo, Balance, BridgeError, CallArgs, ContractCall, Effect,
    HostError, VoteOutcome, VoteReceipt,
};
use vstd::prelude::*;

verus! {

/// Selector of the wrapped-asset contract's mint entry point.
pub const MINT_SELECTOR: [u8; 4] = [0x31, 0x91, 0xC0, 0x19];

/// Selector of the wrapped-asset contract's burn entry point.
pub const BURN_SELECTOR: [u8; 4] = [0xB0, 0xF9, 0xC0, 0x19];

/// The call that mints `value` of wrapped asset to `account`. No native asset
/// travels with it.
pub open spec fn mint_call(wrapper: AccountId, account: AccountId, value: Balance) -> ContractCall {
    ContractCall {
        callee: wrapper,
        transferred_value: 0,
        selector: MINT_SELECTOR,
        args: CallArgs::AmountAndAccount { value, account },
    }
}

/// The call that burns `value` of wrapped asset held by `account`. No native
/// asset travels with it.
pub open spec fn burn_call(wrapper: AccountId, account: AccountId, value: Balance) -> ContractCall {
    ContractCall {
        callee: wrapper,
        transferred_value: 0,
        selector: BURN_SELECTOR,
        args: CallArgs::AmountAndAccount { value, account },
    }
}

/// What the host has to do to carry out `action`, where `wrapper` is the
/// wrapped-asset contract.
pub open spec fn effect_of(action: Action, wrapper: AccountId) -> Effect {
    match action {
        Action::Unfreeze { to, value } => Effect::Transfer { to, value },
        Action::RpcCall { to, value, endpoint, args } => Effect::Call(
            ContractCall {
                callee: to,
                transferred_value: value,
                selector: endpoint,
                args: match args {
                    Some(word) => CallArgs::Word(word),
                    None => CallArgs::Empty,
                },
            },
        ),
        Action::SendWrapped { to, value } => Effect::Call(mint_call(wrapper, to, value)),
    }
}

/// What a vote that brings a tally to `votes` does, in a set of `n` validators.
/// Reaching the quorum counts before retiring: a vote that does both reads as
/// `Executed`.
pub open spec fn outcome_of(votes: nat, n: nat) -> VoteOutcome {
    if votes == quorum(n) {
        VoteOutcome::Executed
    } else if votes == n {
        VoteOutcome::Retired
    } else {
        VoteOutcome::Pending { votes: votes as u32, threshold: quorum(n) as u32 }
    }
}

/// Why a relay of `value` to a destination is refused, if it is. The amount
/// is looked at before the address.
pub open spec fn relay_fault(address_ok: bool, value: Balance) -> Option<BridgeError> {
    if value == 0 {
        Some(BridgeError::InvalidValue)
    } else if !address_ok {
        Some(BridgeError::InvalidAddress)
    } else {
        None
    }
}

/// Why a relay of a call to a destination is refused, if it is.
pub open spec fn call_fault(address_ok: bool) -> Option<BridgeError> {
    if !address_ok {
        Some(BridgeError::InvalidAddress)
    } else {
        None
    }
}

/// What a vote amounts to once the host has answered. Where the vote asked
/// for an effect and the host failed to carry it out, the failure is what
/// the caller sees; the vote stays counted.
pub open spec fn concluded(receipt: VoteReceipt, host: Result<(), HostError>) -> Result<
    VoteOutcome,
    BridgeError,
> {
    match host {
        Err(reason) if receipt.dispatch is Some => Err(BridgeError::ExecutionFailed(reason)),
        _ => Ok(receipt.outcome),
    }
}

/// The bridge as a mathematical value: who may vote, which tallies are open,
/// how many events went out, and where the wrapped-asset contract lives.
pub struct FreezerState {
    pub validators: Set<Seq<u8>>,
    pub tallies: Map<Seq<char>, ActionInfo>,
    pub last_action: nat,
    pub wrapper: AccountId,
}

impl FreezerState {
    /// The bridge before anything happened.
    pub open spec fn init(wrapper: AccountId) -> FreezerState {
        FreezerState {
            validators: Set::empty(),
            tallies: Map::empty(),
            last_action: 0,
            wrapper,
        }
    }

    /// What holds of every bridge that was built by the operations below: both
    /// collections are finite and countable in 32 bits, and every open tally has
    /// at least one vote and fewer votes than there are validators.
    pub open spec fn inv(self) -> bool {
        &&& self.validators.finite()
        &&& self.validators.len() <= u32::MAX
        &&& self.tallies.dom().finite()
        &&& self.tallies.dom().len() <= u32::MAX
        &&& forall|id: Seq<char>| #[trigger]
            self.tallies.contains_key(id) ==> 1 <= self.tallies[id].validators
                < self.validators.len()
    }

    /// Number of validators.
    pub open spec fn count(self) -> nat {
        self.validators.len()
    }

    /// The bridge after `who` registered as a validator.
    pub open spec fn subscribe(self, who: Seq<u8>) -> FreezerState {
        FreezerState { validators: self.validators.insert(who), ..self }
    }

    /// Whether the validator set can take `who`.
    pub open spec fn has_seat(self, who: Seq<u8>) -> bool {
        self.validators.contains(who) || self.validators.len() < u32::MAX
    }

    /// Votes counted so far under `id`: none where no tally is open.
    pub open spec fn votes(self, id: Seq<char>) -> nat {
        if self.tallies.contains_key(id) {
            self.tallies[id].validators as nat
        } else {
            0
        }
    }

    /// The action that counts under `id` when a vote arrives with `action`: the
    /// one of the open tally, or else the one that arrives.
    pub open spec fn payload(self, id: Seq<char>, action: Action) -> Action {
        if self.tallies.contains_key(id) {
            self.tallies[id].action
        } else {
            action
        }
    }

    /// Whether the ledger can take a vote of `caller` under `id`.
    pub open spec fn has_room(self, caller: Seq<u8>, id: Seq<char>) -> bool {
        self.validators.contains(caller) ==> self.tallies.contains_key(id)
            || self.tallies.dom().len() < u32::MAX
    }

    /// What a vote of a validator under `id` reports.
    pub open spec fn receipt(self, id: Seq<char>, action: Action) -> VoteReceipt {
        let votes = self.votes(id) + 1;
        VoteReceipt {
            votes: votes as u32,
            threshold: quorum(self.count()) as u32,
            outcome: outcome_of(votes as nat, self.count()),
            dispatch: if votes == quorum(self.count()) {
                Some(effect_of(self.payload(id, action), self.wrapper))
            } else {
                None
            },
            retired: votes == self.count(),
        }
    }

    /// What a vote of `caller` under `id` returns.
    pub open spec fn vote_result(self, caller: Seq<u8>, id: Seq<char>, action: Action) -> Result<
        VoteReceipt,
        BridgeError,
    > {
        if self.validators.contains(caller) {
            Ok(self.receipt(id, action))
        } else {
            Err(BridgeError::NotAuthorized)
        }
    }

    /// The bridge after a vote of `caller` under `id`. A vote of a stranger
    /// changes nothing. A vote of a validator is counted; the tally is removed
    /// when it has as many votes as there are validators.
    pub open spec fn vote(self, caller: Seq<u8>, id: Seq<char>, action: Action) -> FreezerState {
        if !self.validators.contains(caller) {
            self
        } else if self.votes(id) + 1 == self.count() {
            FreezerState { tallies: self.tallies.remove(id), ..self }
        } else {
            FreezerState {
                tallies: self.tallies.insert(
                    id,
                    ActionInfo {
                        action: self.payload(id, action),
                        validators: (self.votes(id) + 1) as u32,
                    },
                ),
                ..self
            }
        }
    }

    /// Whether the counter of events can still go up.
    pub open spec fn can_relay(self) -> bool {
        self.last_action < u128::MAX
    }

    /// The number that the next event carries.
    pub open spec fn next_id(self) -> u128 {
        (self.last_action + 1) as u128
    }

    /// The bridge after a relay that was refused with `fault`, or went through.
    pub open spec fn relay(self, fault: Option<BridgeError>) -> FreezerState {
        if fault is None {
            self.relayed()
        } else {
            self
        }
    }

    /// The bridge after one more event went out.
    pub open spec fn relayed(self) -> FreezerState {
        FreezerState { last_action: self.last_action + 1, ..self }
    }
}

} // verus!
