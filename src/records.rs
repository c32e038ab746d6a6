use vstd::prelude::*;

use vstd::string::StringSliceAdditionalSpecFns;

use crate::error::ContractError;

verus! {

/// Prefix of the slots that hold the arguments of successful resolutions.
pub const SUCCESS_CALLBACK_ARGUMENT_KEY: &'static str = "SuccessCallbackArg";

/// Prefix of the slots that hold the arguments of failed resolutions.
pub const FAIL_CALLBACK_ARGUMENT_KEY: &'static str = "FailCallbackArg";

/// Key of the shared counter of slots written so far.
pub const CURRENT_STORAGE_INDEX_KEY: &'static str = "CurrentStorageIndex";

/// What a storage slot holds.
pub enum StoredValue {
    Int(u64),
    Raw(Seq<u8>),
}

/// One write to persistent storage, for the host to perform.
#[derive(Clone, Debug, PartialEq, Eq)]
pub enum StorageWrite {
    U64 { key: Vec<u8>, value: u64 },
    Bytes { key: Vec<u8>, value: Vec<u8> },
}

impl View for StorageWrite {
    type V = (Seq<u8>, StoredValue);

    open spec fn view(&self) -> (Seq<u8>, StoredValue) {
        match self {
            StorageWrite::U64 { key, value } => (key@, StoredValue::Int(*value)),
            StorageWrite::Bytes { key, value } => (key@, StoredValue::Raw(value@)),
        }
    }
}

/// The key of the slot of kind `prefix` at `index`: the index is kept to
/// its low byte, so indices 256 apart share a slot.
pub open spec fn slot_key(prefix: Seq<u8>, index: int) -> Seq<u8> {
    prefix.push((index % 256) as u8)
}

pub open spec fn success_key(index: int) -> Seq<u8> {
    slot_key(SUCCESS_CALLBACK_ARGUMENT_KEY.spec_bytes(), index)
}

pub open spec fn fail_key(index: int) -> Seq<u8> {
    slot_key(FAIL_CALLBACK_ARGUMENT_KEY.spec_bytes(), index)
}

pub open spec fn counter_key() -> Seq<u8> {
    CURRENT_STORAGE_INDEX_KEY.spec_bytes()
}

/// The writes that record the arguments of a successful resolution when the
/// counter stands at `index`: one slot per argument, then the new counter.
pub open spec fn success_writes(index: nat, args: Seq<u64>) -> Seq<(Seq<u8>, StoredValue)> {
    Seq::new(args.len(), |i: int| (success_key(index + i), StoredValue::Int(args[i]))).push(
        (counter_key(), StoredValue::Int((index + args.len()) as u64)),
    )
}

/// The writes that record the error code and message of a failed
/// resolution when the counter stands at `index`.
pub open spec fn fail_writes(index: nat, args: Seq<Seq<u8>>) -> Seq<(Seq<u8>, StoredValue)> {
    Seq::new(args.len(), |i: int| (fail_key(index + i), StoredValue::Raw(args[i]))).push(
        (counter_key(), StoredValue::Int((index + args.len()) as u64)),
    )
}

pub open spec fn writes_view(ws: Seq<StorageWrite>) -> Seq<(Seq<u8>, StoredValue)> {
    ws.map_values(|w: StorageWrite| w@)
}

pub open spec fn bytes_view(args: Seq<Vec<u8>>) -> Seq<Seq<u8>> {
    args.map_values(|a: Vec<u8>| a@)
}

/// The bytes of a fixed name, as an owned vector.
pub(crate) fn name_bytes(s: &str) -> (r: Vec<u8>)
    ensures
        r@ == s.spec_bytes(),
{
    vstd::slice::slice_to_vec(s.as_bytes())
}

/// The storage key of the slot of kind `prefix` at `index`: the prefix
/// followed by the low byte of the index, with no separator.
pub fn construct_storage_key(prefix: &str, index: u64) -> (r: Vec<u8>)
    ensures
        r@ == slot_key(prefix.spec_bytes(), index as int),
{
    let mut key = name_bytes(prefix);
    key.push((index % 256) as u8);
    key
}

/// Takes the slot of kind `prefix` that the counter points at, and moves the
/// counter on by one.
fn take_slot(prefix: &str, index: &mut u64) -> (r: Vec<u8>)
    requires
        *old(index) < u64::MAX,
    ensures
        r@ == slot_key(prefix.spec_bytes(), *old(index) as int),
        *final(index) == *old(index) + 1,
{
    let key = construct_storage_key(prefix, *index);
    *index = *index + 1;
    key
}

/// Records the results of a successful call: each argument, in order, goes
/// to the next success slot, and the counter, which stood at `index`, is
/// stored again past them.
pub fn success_callback(index: u64, args: &Vec<u64>) -> (r: Vec<StorageWrite>)
    requires
        index + args@.len() <= u64::MAX,
    ensures
        writes_view(r@) == success_writes(index as nat, args@),
{
    let mut writes: Vec<StorageWrite> = Vec::new();
    let mut storage_index: u64 = index;
    let mut i: usize = 0;
    while i < args.len()
        invariant
            i <= args@.len(),
            index + args@.len() <= u64::MAX,
            storage_index == index + i,
            writes@.len() == i,
            forall|j: int|
                0 <= j < i ==> #[trigger] writes@[j]@ == (
                    success_key(index + j),
                    StoredValue::Int(args@[j]),
                ),
        decreases args@.len() - i,
    {
        let key = take_slot(SUCCESS_CALLBACK_ARGUMENT_KEY, &mut storage_index);
        writes.push(StorageWrite::U64 { key, value: args[i] });
        i = i + 1;
    }
    writes.push(StorageWrite::U64 { key: name_bytes(CURRENT_STORAGE_INDEX_KEY), value: storage_index });
    assert(writes_view(writes@) =~= success_writes(index as nat, args@));
    writes
}

/// Records a failed call: its two arguments, the error code and the error
/// message, go as raw bytes to the next two failure slots, and the counter,
/// which stood at `index`, is stored again past them. Any other number of
/// arguments aborts with nothing written.
pub fn fail_callback(index: u64, args: &Vec<Vec<u8>>) -> (r: Result<Vec<StorageWrite>, ContractError>)
    requires
        args@.len() == 2 ==> index + 2 <= u64::MAX,
    ensures
        args@.len() != 2 <==> r == Err::<Vec<StorageWrite>, ContractError>(
            ContractError::ArgumentCountMismatch,
        ),
        r matches Ok(ws) ==> writes_view(ws@) == fail_writes(index as nat, bytes_view(args@)),
{
    let expected_num_args: usize = 2;
    if args.len() != expected_num_args {
        return Err(ContractError::ArgumentCountMismatch);
    }
    let mut writes: Vec<StorageWrite> = Vec::new();
    let mut storage_index: u64 = index;
    let mut i: usize = 0;
    while i < expected_num_args
        invariant
            expected_num_args == args@.len() == 2,
            i <= 2,
            index + 2 <= u64::MAX,
            storage_index == index + i,
            writes@.len() == i,
            forall|j: int|
                0 <= j < i ==> #[trigger] writes@[j]@ == (
                    fail_key(index + j),
                    StoredValue::Raw(args@[j]@),
                ),
        decreases 2 - i,
    {
        let key = take_slot(FAIL_CALLBACK_ARGUMENT_KEY, &mut storage_index);
        writes.push(StorageWrite::Bytes { key, value: args[i].clone() });
        i = i + 1;
    }
    writes.push(StorageWrite::U64 { key: name_bytes(CURRENT_STORAGE_INDEX_KEY), value: storage_index });
    assert(writes_view(writes@) =~= fail_writes(index as nat, bytes_view(args@)));
    Ok(writes)
}

} // verus!
