use vstd::prelude::*;

verus! {

/// An amount of the native or of the wrapped asset.
pub type Balance = u128;

/// A principal on the local chain: a validator, or the target of an action.
#[derive(Clone, Copy, Debug, PartialEq, Eq)]
pub struct AccountId {
    pub bytes: [u8; 32],
}

impl View for AccountId {
    type V = Seq<u8>;

    open spec fn view(&self) -> Seq<u8> {
        self.bytes@
    }
}

impl AccountId {
    /// The account of 32 zero bytes.
    pub open spec fn zero() -> AccountId {
        AccountId { bytes: vstd::array::spec_array_fill_for_copy_type::<u8, 32>(0u8) }
    }
}

/// An effect on the local chain that the validators vote on.
#[derive(Clone, Copy, Debug, PartialEq, Eq)]
pub enum Action {
    /// Release locked native asset.
    Unfreeze { to: AccountId, value: Balance },
    /// Forward a call to a contract, with at most one argument.
    RpcCall { to: AccountId, value: Balance, endpoint: [u8; 4], args: Option<u32> },
    /// Mint wrapped asset.
    SendWrapped { to: AccountId, value: Balance },
}

/// An action together with the number of votes it has received.
#[derive(Clone, Copy, Debug, PartialEq, Eq)]
pub struct ActionInfo {
    pub action: Action,
    pub validators: u32,
}

impl ActionInfo {
    /// A tally for `action` that no validator has voted on yet.
    pub fn new(action: Action) -> (info: ActionInfo)
        ensures
            info == (ActionInfo { action, validators: 0 }),
    {
        ActionInfo { action, validators: 0 }
    }
}

/// Announces that native asset was locked for an address of the foreign chain.
#[derive(Clone, Debug, PartialEq, Eq)]
pub struct Transfer {
    pub action_id: u128,
    pub to: String,
    pub value: Balance,
}

/// Announces a call to be made on the foreign chain.
#[derive(Clone, Debug, PartialEq, Eq)]
pub struct ScCall {
    pub action_id: u128,
    pub to: String,
    pub endpoint: String,
    pub args: Vec<Vec<u8>>,
}

/// Announces that wrapped asset was burned for an address of the foreign chain.
#[derive(Clone, Debug, PartialEq, Eq)]
pub struct UnfreezeWrap {
    pub action_id: u128,
    pub to: String,
    pub value: Balance,
}

/// A withdrawal that passed the checks and waits for the wrapped asset to be
/// burned.
#[derive(Clone, Debug, PartialEq, Eq)]
pub struct PendingWithdrawal {
    /// Where the native asset goes on the foreign chain.
    pub to: String,
    pub value: Balance,
    /// The call that burns the wrapped asset.
    pub burn: ContractCall,
}

/// Why the host refused a transfer or a call.
#[derive(Clone, Copy, Debug, PartialEq, Eq)]
pub enum HostError {
    Decode,
    OffChain,
    CalleeTrapped,
    CalleeReverted,
    KeyNotFound,
    BelowSubsistenceThreshold,
    TransferFailed,
    NewContractNotFunded,
    CodeNotFound,
    NotCallable,
    Unknown,
    LoggingDisabled,
}

/// Why an operation of the bridge failed.
#[derive(Clone, Copy, Debug, PartialEq, Eq)]
pub enum BridgeError {
    /// The destination is not a well-formed address of the foreign chain.
    InvalidAddress,
    /// The amount is not strictly positive.
    InvalidValue,
    /// The caller is not a validator.
    NotAuthorized,
    /// The host refused the transfer, call, mint or burn.
    ExecutionFailed(HostError),
}

/// The arguments of a call to another contract.
#[derive(Clone, Copy, Debug, PartialEq, Eq)]
pub enum CallArgs {
    /// No argument.
    Empty,
    /// One word.
    Word(u32),
    /// An amount followed by an account, as the wrapped-asset contract takes them.
    AmountAndAccount { value: Balance, account: AccountId },
}

/// A call to another contract, ready to be handed to the host.
#[derive(Clone, Copy, Debug, PartialEq, Eq)]
pub struct ContractCall {
    pub callee: AccountId,
    pub transferred_value: Balance,
    pub selector: [u8; 4],
    pub args: CallArgs,
}

/// What the host has to do to carry out an action.
#[derive(Clone, Copy, Debug, PartialEq, Eq)]
pub enum Effect {
    /// Move native asset to an account.
    Transfer { to: AccountId, value: Balance },
    /// Call a contract.
    Call(ContractCall),
}

/// How a vote left the action it was cast on.
#[derive(Clone, Copy, Debug, PartialEq, Eq)]
pub enum VoteOutcome {
    /// The vote was counted and neither carried the action out nor retired it.
    Pending { votes: u32, threshold: u32 },
    /// The vote brought the tally to the threshold: the action is carried out.
    Executed,
    /// The last validator has voted and the tally was removed.
    Retired,
}

/// What a counted vote did.
#[derive(Clone, Copy, Debug, PartialEq, Eq)]
pub struct VoteReceipt {
    /// Votes on the action, this one included.
    pub votes: u32,
    /// Votes needed to carry the action out, for the validator set of this call.
    pub threshold: u32,
    pub outcome: VoteOutcome,
    /// What the host has to do now, if this vote reached the threshold.
    pub dispatch: Option<Effect>,
    /// Whether the tally was removed from the ledger.
    pub retired: bool,
}

} // verus!
