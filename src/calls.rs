use vstd::prelude::*;

use vstd::string::StringSliceAdditionalSpecFns;

use crate::error::ContractError;
use crate::records::name_bytes;

verus! {

/// The value that the `answer` entry point yields.
pub const ANSWER: u64 = 42;

/// The group under which every asynchronous call of this contract is filed.
pub const COMMON_GROUP_ID: &'static str = "testgroup";

/// The entry point that the host invokes when a call succeeds.
pub const SUCCESS_CALLBACK_NAME: &'static str = "success_callback";

/// The entry point that the host invokes when a call fails.
pub const FAIL_CALLBACK_NAME: &'static str = "fail_callback";

/// The gas limit attached to each asynchronous call.
pub const GAS_LIMIT: u64 = 100000;

/// A 32-byte account or contract address.
#[derive(Clone, Copy, Debug)]
pub struct ContractAddress {
    pub bytes: [u8; 32],
}

/// The two contracts that the forwarding entry points call.
#[derive(Clone, Copy, Debug)]
pub struct Destinations {
    pub first: ContractAddress,
    pub second: ContractAddress,
}

/// One asynchronous call, handed to the host to submit.
#[derive(Clone, Debug)]
pub struct AsyncCall {
    pub group_id: Vec<u8>,
    pub destination: ContractAddress,
    /// The value transferred with the call; this contract always sends none.
    pub value: u64,
    pub payload: Vec<u8>,
    pub success_callback: Vec<u8>,
    pub fail_callback: Vec<u8>,
    pub gas_limit: u64,
}

impl AsyncCall {
    /// The call goes to `dest` with `payload` as its body, under the common
    /// group and callback pair, with no value and the fixed gas limit.
    pub open spec fn is_call_to(&self, dest: ContractAddress, payload: Seq<u8>) -> bool {
        &&& self.group_id@ == COMMON_GROUP_ID.spec_bytes()
        &&& self.destination.bytes@ == dest.bytes@
        &&& self.value == 0
        &&& self.payload@ == payload
        &&& self.success_callback@ == SUCCESS_CALLBACK_NAME.spec_bytes()
        &&& self.fail_callback@ == FAIL_CALLBACK_NAME.spec_bytes()
        &&& self.gas_limit == GAS_LIMIT
    }
}

/// Builds the call of the common group and callback pair to `destination`.
fn make_call(destination: ContractAddress, payload: Vec<u8>) -> (r: AsyncCall)
    ensures
        r.is_call_to(destination, payload@),
{
    AsyncCall {
        group_id: name_bytes(COMMON_GROUP_ID),
        destination,
        value: 0,
        payload,
        success_callback: name_bytes(SUCCESS_CALLBACK_NAME),
        fail_callback: name_bytes(FAIL_CALLBACK_NAME),
        gas_limit: GAS_LIMIT,
    }
}

/// The payload that invokes the remote `answer` entry point.
pub open spec fn answer_call_data() -> Seq<u8> {
    "answer".spec_bytes()
}

/// Yields the fixed answer that other contracts call into.
pub fn answer() -> (r: u64)
    ensures
        r == 42,
{
    ANSWER
}

/// Calls `answer` on whoever invoked this entry point.
pub fn call_caller(caller: ContractAddress) -> (r: AsyncCall)
    ensures
        r.is_call_to(caller, answer_call_data()),
{
    make_call(caller, name_bytes("answer"))
}

/// Calls `answer` on the first of the configured contracts.
pub fn call_first_contract(dests: &Destinations) -> (r: AsyncCall)
    ensures
        r.is_call_to(dests.first, answer_call_data()),
{
    make_call(dests.first, name_bytes("answer"))
}

/// Forwards the two arguments verbatim as call bodies, the first to the first
/// configured contract and the second to the second one.
pub fn call_first_and_second_contract(dests: &Destinations, args: &Vec<Vec<u8>>) -> (r: Result<
    Vec<AsyncCall>,
    ContractError,
>)
    ensures
        args@.len() != 2 <==> r == Err::<Vec<AsyncCall>, ContractError>(
            ContractError::ArgumentCountMismatch,
        ),
        r matches Ok(calls) ==> {
            &&& calls@.len() == 2
            &&& calls@[0].is_call_to(dests.first, args@[0]@)
            &&& calls@[1].is_call_to(dests.second, args@[1]@)
        },
{
    if args.len() != 2 {
        return Err(ContractError::ArgumentCountMismatch);
    }
    let first = make_call(dests.first, args[0].clone());
    let second = make_call(dests.second, args[1].clone());
    Ok(vec![first, second])
}

} // verus!
