use vstd::prelude::*;
use vstd::string::{is_ascii, StringSliceAdditionalSpecFns};

use crate::records::{
    counter_key, fail_key, fail_writes, success_key, success_writes, StoredValue,
    CURRENT_STORAGE_INDEX_KEY, FAIL_CALLBACK_ARGUMENT_KEY, SUCCESS_CALLBACK_ARGUMENT_KEY,
};

verus! {

/// The contract's persistent storage: what each written key holds.
pub type Store = Map<Seq<u8>, StoredValue>;

/// One resolution that the host delivers: the arguments of a success
/// callback, or those of a failure callback.
pub enum Resolution {
    Success(Seq<u64>),
    Failure(Seq<Seq<u8>>),
}

/// Performs `ws` on `s` in order; a later write to a key replaces an
/// earlier one.
pub open spec fn apply_writes(s: Store, ws: Seq<(Seq<u8>, StoredValue)>) -> Store
    decreases ws.len(),
{
    if ws.len() == 0 {
        s
    } else {
        apply_writes(s, ws.drop_last()).insert(ws.last().0, ws.last().1)
    }
}

/// Reads `key` as an integer; a key never written reads as zero.
pub open spec fn load_u64(s: Store, key: Seq<u8>) -> u64 {
    if s.contains_key(key) {
        match s[key] {
            StoredValue::Int(v) => v,
            StoredValue::Raw(_) => 0,
        }
    } else {
        0
    }
}

/// The shared counter as the resolvers load it.
pub open spec fn stored_index(s: Store) -> u64 {
    load_u64(s, counter_key())
}

/// The store after one resolver invocation: the counter is loaded, and the
/// writes that `success_callback` or `fail_callback` return for it are
/// performed. A failure callback with other than two arguments aborts and
/// leaves the store as it was.
pub open spec fn resolve(s: Store, e: Resolution) -> Store {
    match e {
        Resolution::Success(args) => apply_writes(s, success_writes(stored_index(s) as nat, args)),
        Resolution::Failure(args) => if args.len() == 2 {
            apply_writes(s, fail_writes(stored_index(s) as nat, args))
        } else {
            s
        },
    }
}

/// The store after the resolutions `es`, in order, starting from `s`.
pub open spec fn run(s: Store, es: Seq<Resolution>) -> Store
    decreases es.len(),
{
    if es.len() == 0 {
        s
    } else {
        resolve(run(s, es.drop_last()), es.last())
    }
}

/// How many record slots one resolution writes.
pub open spec fn records_of(e: Resolution) -> nat {
    match e {
        Resolution::Success(args) => args.len(),
        Resolution::Failure(args) => if args.len() == 2 {
            2
        } else {
            0
        },
    }
}

/// How many record slots the resolutions `es` write in all.
pub open spec fn records_written(es: Seq<Resolution>) -> nat
    decreases es.len(),
{
    if es.len() == 0 {
        0
    } else {
        records_written(es.drop_last()) + records_of(es.last())
    }
}

proof fn lemma_last_write_wins(s: Store, ws: Seq<(Seq<u8>, StoredValue)>)
    requires
        ws.len() > 0,
    ensures
        apply_writes(s, ws).contains_key(ws.last().0),
        apply_writes(s, ws)[ws.last().0] == ws.last().1,
{
}

/// After any sequence of resolutions the counter has grown by exactly the
/// number of record slots they wrote; from empty storage it equals that
/// number.
pub proof fn lemma_index_counts_records(s: Store, es: Seq<Resolution>)
    requires
        stored_index(s) + records_written(es) <= u64::MAX,
    ensures
        stored_index(run(s, es)) == stored_index(s) + records_written(es),
        s == Map::<Seq<u8>, StoredValue>::empty() ==> stored_index(run(s, es))
            == records_written(es),
    decreases es.len(),
{
    if es.len() > 0 {
        let prev = es.drop_last();
        let e = es.last();
        lemma_index_counts_records(s, prev);
        let t = run(s, prev);
        match e {
            Resolution::Success(args) => {
                lemma_last_write_wins(t, success_writes(stored_index(t) as nat, args));
            },
            Resolution::Failure(args) => {
                if args.len() == 2 {
                    lemma_last_write_wins(t, fail_writes(stored_index(t) as nat, args));
                }
            },
        }
    }
}

/// A record past the 256th is not refused: it goes to the slot of its kind
/// whose index is 256 lower, which the one-byte index shares with it.
pub proof fn lemma_slot_index_wraps(index: nat)
    requires
        index >= 256,
    ensures
        success_key(index as int) == success_key(index - 256),
        fail_key(index as int) == fail_key(index - 256),
{
}

/// The three kinds of keys start with different bytes, so no slot key is
/// the counter's key and no success slot is a failure slot.
proof fn lemma_keys_distinct(i: int, j: int)
    ensures
        success_key(i) != counter_key(),
        fail_key(i) != counter_key(),
        success_key(i) != fail_key(j),
{
    reveal_strlit("SuccessCallbackArg");
    reveal_strlit("FailCallbackArg");
    reveal_strlit("CurrentStorageIndex");
    broadcast use vstd::string::is_ascii_spec_bytes;

    assert(is_ascii(SUCCESS_CALLBACK_ARGUMENT_KEY));
    assert(is_ascii(FAIL_CALLBACK_ARGUMENT_KEY));
    assert(is_ascii(CURRENT_STORAGE_INDEX_KEY));
    assert(success_key(i)[0] == 83);
    assert(fail_key(j)[0] == 70);
    assert(fail_key(i)[0] == 70);
    assert(counter_key()[0] == 67);
}

/// A success callback that records one value when 256 or more slots have
/// been written does not fail: it overwrites the success slot of the record
/// written 256 earlier, and moves the counter on by one.
pub proof fn lemma_success_overwrites_wrapped_slot(s: Store, v: u64)
    requires
        256 <= stored_index(s) < u64::MAX,
    ensures
        resolve(s, Resolution::Success(seq![v])).contains_key(success_key(stored_index(s) - 256)),
        resolve(s, Resolution::Success(seq![v]))[success_key(stored_index(s) - 256)]
            == StoredValue::Int(v),
        stored_index(resolve(s, Resolution::Success(seq![v]))) == stored_index(s) + 1,
{
    let c = stored_index(s);
    let ws = success_writes(c as nat, seq![v]);
    lemma_slot_index_wraps(c as nat);
    lemma_keys_distinct(c as int, 0);
    let k = success_key(c - 256);
    assert(ws.drop_last().drop_last() =~= Seq::<(Seq<u8>, StoredValue)>::empty());
    assert(apply_writes(s, ws.drop_last().drop_last()) == s);
    assert(ws.drop_last().last() == (success_key(c as int), StoredValue::Int(v)));
    assert(apply_writes(s, ws.drop_last()) == s.insert(k, StoredValue::Int(v)));
    assert(apply_writes(s, ws) == s.insert(k, StoredValue::Int(v)).insert(
        counter_key(),
        StoredValue::Int((c + 1) as u64),
    ));
}

/// A failure callback that records its two arguments when 256 or more slots
/// have been written does not fail: its error code overwrites the failure
/// slot of the record written 256 earlier.
pub proof fn lemma_failure_overwrites_wrapped_slot(s: Store, code: Seq<u8>, message: Seq<u8>)
    requires
        256 <= stored_index(s),
        stored_index(s) + 2 <= u64::MAX,
    ensures
        resolve(s, Resolution::Failure(seq![code, message])).contains_key(
            fail_key(stored_index(s) - 256),
        ),
        resolve(s, Resolution::Failure(seq![code, message]))[fail_key(stored_index(s) - 256)]
            == StoredValue::Raw(code),
        stored_index(resolve(s, Resolution::Failure(seq![code, message]))) == stored_index(s) + 2,
{
    let c = stored_index(s);
    let ws = fail_writes(c as nat, seq![code, message]);
    lemma_slot_index_wraps(c as nat);
    lemma_keys_distinct(c as int, 0);
    lemma_keys_distinct(c + 1, 0);
    assert(fail_key(c + 1) != fail_key(c as int)) by {
        assert(fail_key(c + 1)[fail_key(c + 1).len() - 1] != fail_key(c as int)[fail_key(c as int).len() - 1]);
    }
    let k = fail_key(c - 256);
    assert(ws.drop_last().drop_last().drop_last() =~= Seq::<(Seq<u8>, StoredValue)>::empty());
    assert(apply_writes(s, ws.drop_last().drop_last().drop_last()) == s);
    assert(ws.drop_last().drop_last().last() == (fail_key(c as int), StoredValue::Raw(code)));
    assert(ws.drop_last().last() == (fail_key(c + 1), StoredValue::Raw(message)));
    assert(apply_writes(s, ws.drop_last().drop_last()) == s.insert(k, StoredValue::Raw(code)));
    assert(apply_writes(s, ws.drop_last()) == s.insert(k, StoredValue::Raw(code)).insert(
        fail_key(c + 1),
        StoredValue::Raw(message),
    ));
    assert(apply_writes(s, ws) == s.insert(k, StoredValue::Raw(code)).insert(
        fail_key(c + 1),
        StoredValue::Raw(message),
    ).insert(counter_key(), StoredValue::Int((c + 2) as u64)));
}

/// A failure callback that does not carry exactly two arguments aborts:
/// storage, and with it the counter, stays as it was.
pub proof fn lemma_malformed_failure_changes_nothing(s: Store, args: Seq<Seq<u8>>)
    requires
        args.len() != 2,
    ensures
        resolve(s, Resolution::Failure(args)) == s,
        stored_index(resolve(s, Resolution::Failure(args))) == stored_index(s),
{
}

} // verus!
