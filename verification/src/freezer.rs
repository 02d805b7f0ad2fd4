use crate::address::{bech32_decodes, validate_address};
use crate::model::{
    burn_call, call_fault, concluded, effect_of, mint_call, relay_fault, FreezerState,
    BURN_SELECTOR, MINT_SELECTOR,
};
use crate::quorum::threshold;
use crate::record::{decode, encode, tallies_of, tallies_of_updates, tally_of};
use crate::store::{held_accounts, held_records, ActionLedger, ValidatorSet};
use crate::types::{
    AccountId, Action, ActionInfo, Balance, BridgeError, CallArgs, ContractCall, Effect,
    HostError, PendingWithdrawal, ScCall, Transfer, UnfreezeWrap, VoteOutcome, VoteReceipt,
};
use vstd::prelude::*;

verus! {

/// The bridge: the validators, the open tallies, the number of the last event
/// that went out, and the wrapped-asset contract.
pub struct Freezer {
    validators: ValidatorSet,
    pop_action: ActionLedger,
    last_action: u128,
    wrapper: AccountId,
}

impl View for Freezer {
    type V = FreezerState;

    closed spec fn view(&self) -> FreezerState {
        FreezerState {
            validators: held_accounts(self.validators),
            tallies: tallies_of(held_records(self.pop_action)),
            last_action: self.last_action as nat,
            wrapper: self.wrapper,
        }
    }
}

impl Default for Freezer {
    /// A bridge without validators, tallies or events, whose wrapped-asset
    /// contract is the account of 32 zero bytes.
    fn default() -> (freezer: Freezer)
        ensures
            freezer@ == FreezerState::init(AccountId::zero()),
            freezer@.inv(),
    {
        Freezer::new(AccountId { bytes: [0u8; 32] })
    }
}

impl Freezer {
    /// A bridge without validators, tallies or events, for the wrapped-asset
    /// contract at `erc20_addr`.
    pub fn new(erc20_addr: AccountId) -> (freezer: Freezer)
        ensures
            freezer@ == FreezerState::init(erc20_addr),
            freezer@.inv(),
    {
        let freezer = Freezer {
            validators: ValidatorSet::empty(),
            pop_action: ActionLedger::empty(),
            last_action: 0,
            wrapper: erc20_addr,
        };
        proof {
            assert(tallies_of(Map::empty()) =~= Map::<Seq<char>, ActionInfo>::empty());
        }
        freezer
    }

    proof fn lemma_keys(&self)
        ensures
            self@.tallies.dom() == held_records(self.pop_action).dom(),
    {
        let records = held_records(self.pop_action);
        assert(tallies_of(records).dom() =~= records.dom());
    }

    /// Number of validators.
    pub fn validator_cnt(&self) -> (n: u32)
        ensures
            n == self@.count(),
    {
        self.validators.len()
    }

    /// Number of open tallies.
    pub fn pop_cnt(&self) -> (n: u32)
        ensures
            n == self@.tallies.dom().len(),
    {
        proof {
            self.lemma_keys();
        }
        self.pop_action.len()
    }

    /// Whether `who` may vote.
    pub fn is_validator(&self, who: &AccountId) -> (found: bool)
        ensures
            found == self@.validators.contains(who@),
    {
        self.validators.contains(&who.bytes)
    }

    /// Number of the last event that went out: zero before the first.
    pub fn last_action(&self) -> (n: u128)
        ensures
            n == self@.last_action,
    {
        self.last_action
    }

    /// The wrapped-asset contract.
    pub fn wrapper(&self) -> (account: AccountId)
        ensures
            account == self@.wrapper,
    {
        self.wrapper
    }

    /// The open tally under `action_id`, if there is one.
    pub fn tally(&self, action_id: &String) -> (found: Option<ActionInfo>)
        ensures
            found == (if self@.tallies.contains_key(action_id@) {
                Some(self@.tallies[action_id@])
            } else {
                None
            }),
    {
        match self.pop_action.get(action_id) {
            Some(record) => Some(decode(&record)),
            None => None,
        }
    }

    /// Makes `caller` a validator. Nothing is asked of the caller: whoever
    /// calls becomes a validator, and calling twice is the same as calling once.
    pub fn subscribe(&mut self, caller: AccountId)
        requires
            old(self)@.inv(),
            old(self)@.has_seat(caller@),
        ensures
            final(self)@ == old(self)@.subscribe(caller@),
            final(self)@.inv(),
    {
        self.validators.insert(caller.bytes);
        proof {
            let before = old(self)@;
            if before.validators.contains(caller@) {
                assert(before.validators.insert(caller@) =~= before.validators);
            }
        }
    }

    /// The call that burns `value` of wrapped asset held by `acc`.
    pub fn erc20_burn(&self, acc: AccountId, value: Balance) -> (call: ContractCall)
        ensures
            call == burn_call(self@.wrapper, acc, value),
    {
        ContractCall {
            callee: self.wrapper,
            transferred_value: 0,
            selector: BURN_SELECTOR,
            args: CallArgs::AmountAndAccount { value, account: acc },
        }
    }

    /// The call that mints `value` of wrapped asset to `acc`.
    pub fn erc20_mint(&self, acc: AccountId, value: Balance) -> (call: ContractCall)
        ensures
            call == mint_call(self@.wrapper, acc, value),
    {
        ContractCall {
            callee: self.wrapper,
            transferred_value: 0,
            selector: MINT_SELECTOR,
            args: CallArgs::AmountAndAccount { value, account: acc },
        }
    }

    /// What the host has to do to carry out `action`: a transfer of native
    /// asset, a call with the action's selector and at most one argument, or a
    /// mint through the wrapped-asset contract.
    pub fn exec_action(&self, action: Action) -> (effect: Effect)
        ensures
            effect == effect_of(action, self@.wrapper),
    {
        match action {
            Action::Unfreeze { to, value } => Effect::Transfer { to, value },
            Action::RpcCall { to, value, endpoint, args } => {
                let args = match args {
                    Some(word) => CallArgs::Word(word),
                    None => CallArgs::Empty,
                };
                Effect::Call(
                    ContractCall { callee: to, transferred_value: value, selector: endpoint, args },
                )
            },
            Action::SendWrapped { to, value } => Effect::Call(self.erc20_mint(to, value)),
        }
    }

    /// Counts a vote of `caller` for the action known as `action_id`.
    ///
    /// A caller who is no validator is turned away and nothing changes. The
    /// first vote under an id opens a tally and fixes its action: what later
    /// votes bring as `action` is not looked at. The threshold is computed from
    /// the validator set as it is at this call. The vote that brings the tally
    /// to the threshold hands back the effect to carry out; the vote that
    /// brings it to the size of the validator set removes the tally.
    ///
    /// The tally is updated before the effect is handed back, and nothing
    /// here undoes it if the host then fails to carry the effect out.
    pub fn verify_action(&mut self, caller: AccountId, action_id: String, action: Action) -> (result:
        Result<VoteReceipt, BridgeError>)
        requires
            old(self)@.inv(),
            old(self)@.has_room(caller@, action_id@),
        ensures
            final(self)@ == old(self)@.vote(caller@, action_id@, action),
            result == old(self)@.vote_result(caller@, action_id@, action),
            result is Ok <==> old(self)@.validators.contains(caller@),
            result is Err ==> result == Err::<VoteReceipt, BridgeError>(BridgeError::NotAuthorized)
                && final(self)@ == old(self)@,
            final(self)@.inv(),
    {
        if !self.validators.contains(&caller.bytes) {
            return Err(BridgeError::NotAuthorized);
        }
        let validator_cnt = self.validator_cnt();
        let ghost before = self@;
        let ghost records = held_records(self.pop_action);
        let ghost id = action_id@;
        proof {
            self.lemma_keys();
            if before.validators.len() == 0 {
                before.validators.lemma_len0_is_empty();
            }
        }
        let fresh = encode(&ActionInfo::new(action));
        let info = self.pop_action.entry_or_insert(action_id.clone(), fresh);
        let ghost opened = *info;
        proof {
            if records.contains_key(id) {
                assert(before.tallies.contains_key(id));
                assert(before.tallies[id] == tally_of(records[id]));
            }
        }
        info.5 = info.5 + 1;
        let counted = decode(info);
        let act = counted.action;
        let validated = counted.validators;
        let ghost voted = (opened.0, opened.1, opened.2, opened.3, opened.4, validated);
        proof {
            assert(held_records(self.pop_action) == records.insert(id, voted));
            tallies_of_updates(records, id, voted);
        }
        let needed = threshold(validator_cnt);
        let dispatch = if validated == needed {
            Some(self.exec_action(act))
        } else {
            None
        };
        let retired = validated == validator_cnt;
        if retired {
            self.pop_action.take(&action_id);
            proof {
                tallies_of_updates(records.insert(id, voted), id, voted);
                assert(before.tallies.insert(id, tally_of(voted)).remove(id) =~= before.tallies.remove(
                    id,
                ));
            }
        }
        let outcome = if validated == needed {
            VoteOutcome::Executed
        } else if retired {
            VoteOutcome::Retired
        } else {
            VoteOutcome::Pending { votes: validated, threshold: needed }
        };
        Ok(VoteReceipt { votes: validated, threshold: needed, outcome, dispatch, retired })
    }

    /// A vote to release `value` of locked native asset to `to`.
    pub fn pop(&mut self, caller: AccountId, action_id: String, to: AccountId, value: Balance) -> (result:
        Result<VoteReceipt, BridgeError>)
        requires
            old(self)@.inv(),
            old(self)@.has_room(caller@, action_id@),
        ensures
            final(self)@ == old(self)@.vote(caller@, action_id@, Action::Unfreeze { to, value }),
            result == old(self)@.vote_result(caller@, action_id@, Action::Unfreeze { to, value }),
            final(self)@.inv(),
    {
        self.verify_action(caller, action_id, Action::Unfreeze { to, value })
    }

    /// A vote to call the contract at `to` with `value` and at most one argument.
    pub fn sc_call_verify(
        &mut self,
        caller: AccountId,
        action_id: String,
        to: AccountId,
        value: Balance,
        endpoint: [u8; 4],
        args: Option<u32>,
    ) -> (result: Result<VoteReceipt, BridgeError>)
        requires
            old(self)@.inv(),
            old(self)@.has_room(caller@, action_id@),
        ensures
            final(self)@ == old(self)@.vote(
                caller@,
                action_id@,
                Action::RpcCall { to, value, endpoint, args },
            ),
            result == old(self)@.vote_result(
                caller@,
                action_id@,
                Action::RpcCall { to, value, endpoint, args },
            ),
            final(self)@.inv(),
    {
        self.verify_action(caller, action_id, Action::RpcCall { to, value, endpoint, args })
    }

    /// A vote to mint `value` of wrapped asset to `to`.
    pub fn send_wrapper_verify(
        &mut self,
        caller: AccountId,
        action_id: String,
        to: AccountId,
        value: Balance,
    ) -> (result: Result<VoteReceipt, BridgeError>)
        requires
            old(self)@.inv(),
            old(self)@.has_room(caller@, action_id@),
        ensures
            final(self)@ == old(self)@.vote(caller@, action_id@, Action::SendWrapped { to, value }),
            result == old(self)@.vote_result(
                caller@,
                action_id@,
                Action::SendWrapped { to, value },
            ),
            final(self)@.inv(),
    {
        self.verify_action(caller, action_id, Action::SendWrapped { to, value })
    }

    /// Locks `value` of native asset, which came with the call, for the
    /// address `to` of the foreign chain, given whether the address is well
    /// formed. On success the event to emit is handed back and has the next
    /// number; a refused relay changes nothing.
    pub fn send_checked(&mut self, address_ok: bool, to: String, value: Balance) -> (result: Result<
        Transfer,
        BridgeError,
    >)
        requires
            old(self)@.can_relay(),
        ensures
            final(self)@ == old(self)@.relay(relay_fault(address_ok, value)),
            result == match relay_fault(address_ok, value) {
                Some(fault) => Err(fault),
                None => Ok(Transfer { action_id: old(self)@.next_id(), to, value }),
            },
            value == 0 ==> result == Err::<Transfer, BridgeError>(BridgeError::InvalidValue)
                && final(self)@ == old(self)@,
            result is Ok ==> final(self)@.last_action == old(self)@.last_action + 1,
            result is Err ==> final(self)@ == old(self)@,
    {
        if value == 0 {
            return Err(BridgeError::InvalidValue);
        }
        if !address_ok {
            return Err(BridgeError::InvalidAddress);
        }
        self.last_action = self.last_action + 1;
        Ok(Transfer { action_id: self.last_action, to, value })
    }

    /// Locks `value` of native asset, which came with the call, for the
    /// address `to` of the foreign chain.
    pub fn send(&mut self, to: String, value: Balance) -> (result: Result<Transfer, BridgeError>)
        requires
            old(self)@.can_relay(),
        ensures
            final(self)@ == old(self)@.relay(relay_fault(bech32_decodes(to@), value)),
            result == match relay_fault(bech32_decodes(to@), value) {
                Some(fault) => Err(fault),
                None => Ok(Transfer { action_id: old(self)@.next_id(), to, value }),
            },
            value == 0 ==> result == Err::<Transfer, BridgeError>(BridgeError::InvalidValue)
                && final(self)@ == old(self)@,
            result is Ok ==> final(self)@.last_action == old(self)@.last_action + 1,
            result is Err ==> final(self)@ == old(self)@,
    {
        let address_ok = validate_address(to.as_str());
        self.send_checked(address_ok, to, value)
    }

    /// Checks a withdrawal of `value` of wrapped asset of `caller` to the
    /// address `to` of the foreign chain, given whether the address is well
    /// formed, and hands back the burn that has to happen first. The bridge
    /// itself does not change.
    pub fn withdraw_wrapper_checked(
        &self,
        address_ok: bool,
        caller: AccountId,
        to: String,
        value: Balance,
    ) -> (result: Result<PendingWithdrawal, BridgeError>)
        ensures
            result == match relay_fault(address_ok, value) {
                Some(fault) => Err(fault),
                None => Ok(
                    PendingWithdrawal { to, value, burn: burn_call(self@.wrapper, caller, value) },
                ),
            },
    {
        if value == 0 {
            return Err(BridgeError::InvalidValue);
        }
        if !address_ok {
            return Err(BridgeError::InvalidAddress);
        }
        let burn = self.erc20_burn(caller, value);
        Ok(PendingWithdrawal { to, value, burn })
    }

    /// Checks a withdrawal of `value` of wrapped asset of `caller` to the
    /// address `to` of the foreign chain, and hands back the burn that has to
    /// happen first.
    pub fn withdraw_wrapper(&self, caller: AccountId, to: String, value: Balance) -> (result: Result<
        PendingWithdrawal,
        BridgeError,
    >)
        ensures
            result == match relay_fault(bech32_decodes(to@), value) {
                Some(fault) => Err(fault),
                None => Ok(
                    PendingWithdrawal { to, value, burn: burn_call(self@.wrapper, caller, value) },
                ),
            },
    {
        let address_ok = validate_address(to.as_str());
        self.withdraw_wrapper_checked(address_ok, caller, to, value)
    }

    /// Ends a withdrawal once the host has answered the burn. After a burn
    /// that went through, the event to emit is handed back and has the next
    /// number; after one that failed, nothing changes.
    pub fn complete_withdrawal(&mut self, pending: PendingWithdrawal, burned: Result<(), HostError>) -> (result:
        Result<UnfreezeWrap, BridgeError>)
        requires
            old(self)@.can_relay(),
        ensures
            final(self)@ == (if burned is Ok {
                old(self)@.relayed()
            } else {
                old(self)@
            }),
            result == match burned {
                Err(reason) => Err(BridgeError::ExecutionFailed(reason)),
                Ok(_) => Ok(
                    UnfreezeWrap {
                        action_id: old(self)@.next_id(),
                        to: pending.to,
                        value: pending.value,
                    },
                ),
            },
    {
        match burned {
            Err(reason) => Err(BridgeError::ExecutionFailed(reason)),
            Ok(_) => {
                self.last_action = self.last_action + 1;
                Ok(UnfreezeWrap { action_id: self.last_action, to: pending.to, value: pending.value })
            },
        }
    }

    /// Relays a call of `endpoint` with `args` on the contract at
    /// `target_contract` of the foreign chain, given whether the address is
    /// well formed. No value moves, and every argument is handed on.
    pub fn send_sc_call_checked(
        &mut self,
        address_ok: bool,
        target_contract: String,
        endpoint: String,
        args: Vec<Vec<u8>>,
    ) -> (result: Result<ScCall, BridgeError>)
        requires
            old(self)@.can_relay(),
        ensures
            final(self)@ == old(self)@.relay(call_fault(address_ok)),
            result == match call_fault(address_ok) {
                Some(fault) => Err(fault),
                None => Ok(
                    ScCall { action_id: old(self)@.next_id(), to: target_contract, endpoint, args },
                ),
            },
            result is Ok ==> final(self)@.last_action == old(self)@.last_action + 1,
            result is Err ==> final(self)@ == old(self)@,
    {
        if !address_ok {
            return Err(BridgeError::InvalidAddress);
        }
        self.last_action = self.last_action + 1;
        Ok(ScCall { action_id: self.last_action, to: target_contract, endpoint, args })
    }

    /// Relays a call of `endpoint` with `args` on the contract at
    /// `target_contract` of the foreign chain. No value moves, and every
    /// argument is handed on.
    pub fn send_sc_call(&mut self, target_contract: String, endpoint: String, args: Vec<Vec<u8>>) -> (result:
        Result<ScCall, BridgeError>)
        requires
            old(self)@.can_relay(),
        ensures
            final(self)@ == old(self)@.relay(call_fault(bech32_decodes(target_contract@))),
            result == match call_fault(bech32_decodes(target_contract@)) {
                Some(fault) => Err(fault),
                None => Ok(
                    ScCall { action_id: old(self)@.next_id(), to: target_contract, endpoint, args },
                ),
            },
            result is Ok ==> final(self)@.last_action == old(self)@.last_action + 1,
            result is Err ==> final(self)@ == old(self)@,
    {
        let address_ok = validate_address(target_contract.as_str());
        self.send_sc_call_checked(address_ok, target_contract, endpoint, args)
    }
}

impl VoteReceipt {
    /// What the vote amounts to once the host has answered for the effect that
    /// the vote asked for. A vote that asked for none is not touched by the
    /// answer.
    pub fn conclude(&self, host: Result<(), HostError>) -> (result: Result<VoteOutcome, BridgeError>)
        ensures
            result == concluded(*self, host),
    {
        match host {
            Err(reason) => {
                if self.dispatch.is_some() {
                    Err(BridgeError::ExecutionFailed(reason))
                } else {
                    Ok(self.outcome)
                }
            },
            Ok(_) => Ok(self.outcome),
        }
    }
}

} // verus!
