use crate::store::Record;
use crate::types::{AccountId, Action, ActionInfo};
use vstd::prelude::*;

verus! {

/// Kind of a record that holds an `Unfreeze`.
pub const KIND_UNFREEZE: u8 = 0;

/// Kind of a record that holds an `RpcCall`.
pub const KIND_RPC_CALL: u8 = 1;

/// Kind of a record that holds a `SendWrapped`.
pub const KIND_SEND_WRAPPED: u8 = 2;

/// The selector of an action that has none: four zero bytes.
pub open spec fn no_selector() -> [u8; 4] {
    vstd::array::spec_array_fill_for_copy_type::<u8, 4>(0u8)
}

/// The record under which the ledger keeps a tally. Fields that the action
/// does not have are zero.
pub open spec fn record_of(info: ActionInfo) -> Record {
    match info.action {
        Action::Unfreeze { to, value } => (
            KIND_UNFREEZE,
            to.bytes,
            value,
            no_selector(),
            None,
            info.validators,
        ),
        Action::RpcCall { to, value, endpoint, args } => (
            KIND_RPC_CALL,
            to.bytes,
            value,
            endpoint,
            args,
            info.validators,
        ),
        Action::SendWrapped { to, value } => (
            KIND_SEND_WRAPPED,
            to.bytes,
            value,
            no_selector(),
            None,
            info.validators,
        ),
    }
}

/// The tally that a record stands for. Every record stands for one: a kind
/// that is neither `Unfreeze` nor `RpcCall` reads as `SendWrapped`.
pub open spec fn tally_of(record: Record) -> ActionInfo {
    let to = AccountId { bytes: record.1 };
    let action = if record.0 == KIND_UNFREEZE {
        Action::Unfreeze { to, value: record.2 }
    } else if record.0 == KIND_RPC_CALL {
        Action::RpcCall { to, value: record.2, endpoint: record.3, args: record.4 }
    } else {
        Action::SendWrapped { to, value: record.2 }
    };
    ActionInfo { action, validators: record.5 }
}

/// Reading back what was written gives the same tally.
pub proof fn record_round_trip(info: ActionInfo)
    ensures
        tally_of(record_of(info)) == info,
{
}

/// The tallies that a map of records stands for, entry by entry.
pub open spec fn tallies_of(records: Map<Seq<char>, Record>) -> Map<Seq<char>, ActionInfo> {
    Map::new(|id: Seq<char>| records.contains_key(id), |id: Seq<char>| tally_of(records[id]))
}

/// Reading a map of records commutes with looking at its keys, with writing
/// an entry and with removing one.
pub proof fn tallies_of_updates(records: Map<Seq<char>, Record>, id: Seq<char>, record: Record)
    ensures
        tallies_of(records).dom() == records.dom(),
        tallies_of(records.insert(id, record)) == tallies_of(records).insert(id, tally_of(record)),
        tallies_of(records.remove(id)) == tallies_of(records).remove(id),
        tallies_of(Map::empty()) == Map::<Seq<char>, ActionInfo>::empty(),
{
    assert(tallies_of(records).dom() =~= records.dom());
    assert(tallies_of(records.insert(id, record)) =~= tallies_of(records).insert(
        id,
        tally_of(record),
    ));
    assert(tallies_of(records.remove(id)) =~= tallies_of(records).remove(id));
    assert(tallies_of(Map::empty()) =~= Map::<Seq<char>, ActionInfo>::empty());
}

/// Writes a tally as a ledger record.
pub fn encode(info: &ActionInfo) -> (record: Record)
    ensures
        record == record_of(*info),
{
    match info.action {
        Action::Unfreeze { to, value } => (
            KIND_UNFREEZE,
            to.bytes,
            value,
            [0u8; 4],
            None,
            info.validators,
        ),
        Action::RpcCall { to, value, endpoint, args } => (
            KIND_RPC_CALL,
            to.bytes,
            value,
            endpoint,
            args,
            info.validators,
        ),
        Action::SendWrapped { to, value } => (
            KIND_SEND_WRAPPED,
            to.bytes,
            value,
            [0u8; 4],
            None,
            info.validators,
        ),
    }
}

/// Reads a ledger record as a tally.
pub fn decode(record: &Record) -> (info: ActionInfo)
    ensures
        info == tally_of(*record),
{
    let to = AccountId { bytes: record.1 };
    let action = if record.0 == KIND_UNFREEZE {
        Action::Unfreeze { to, value: record.2 }
    } else if record.0 == KIND_RPC_CALL {
        Action::RpcCall { to, value: record.2, endpoint: record.3, args: record.4 }
    } else {
        Action::SendWrapped { to, value: record.2 }
    };
    ActionInfo { action, validators: record.5 }
}

} // verus!
