use std::collections::HashMap;

use third_contract::{
    answer, call_caller, call_first_and_second_contract, call_first_contract,
    construct_storage_key, fail_callback, success_callback, AsyncCall, ContractAddress,
    ContractError, Destinations, Endpoint, StorageWrite, CURRENT_STORAGE_INDEX_KEY,
    FAIL_CALLBACK_ARGUMENT_KEY, GAS_LIMIT, SUCCESS_CALLBACK_ARGUMENT_KEY,
};

fn address(fill: u8) -> ContractAddress {
    ContractAddress { bytes: [fill; 32] }
}

fn destinations() -> Destinations {
    Destinations { first: address(1), second: address(2) }
}

fn key(prefix: &str, index: u8) -> Vec<u8> {
    let mut k = prefix.as_bytes().to_vec();
    k.push(index);
    k
}

fn counter_write(value: u64) -> StorageWrite {
    StorageWrite::U64 { key: CURRENT_STORAGE_INDEX_KEY.as_bytes().to_vec(), value }
}

fn assert_common_call(call: &AsyncCall, dest: [u8; 32], payload: &[u8]) {
    assert_eq!(call.group_id, b"testgroup".to_vec());
    assert_eq!(call.destination.bytes, dest);
    assert_eq!(call.value, 0);
    assert_eq!(call.payload, payload.to_vec());
    assert_eq!(call.success_callback, b"success_callback".to_vec());
    assert_eq!(call.fail_callback, b"fail_callback".to_vec());
    assert_eq!(call.gas_limit, GAS_LIMIT);
    assert_eq!(call.gas_limit, 100000);
}

/// Applies writes to a map standing in for the host's storage.
fn apply(store: &mut HashMap<Vec<u8>, StorageWrite>, writes: Vec<StorageWrite>) {
    for w in writes {
        let k = match &w {
            StorageWrite::U64 { key, .. } => key.clone(),
            StorageWrite::Bytes { key, .. } => key.clone(),
        };
        store.insert(k, w);
    }
}

fn load_counter(store: &HashMap<Vec<u8>, StorageWrite>) -> u64 {
    match store.get(CURRENT_STORAGE_INDEX_KEY.as_bytes()) {
        Some(StorageWrite::U64 { value, .. }) => *value,
        _ => 0,
    }
}

#[test]
fn answer_yields_forty_two() {
    assert_eq!(answer(), 42);
}

#[test]
fn call_caller_targets_the_invoking_address() {
    let from_a = call_caller(address(0xaa));
    let from_b = call_caller(address(0xbb));
    assert_common_call(&from_a, [0xaa; 32], b"answer");
    assert_common_call(&from_b, [0xbb; 32], b"answer");
    assert_ne!(from_a.destination.bytes, from_b.destination.bytes);
}

#[test]
fn call_first_contract_calls_answer_on_first() {
    let call = call_first_contract(&destinations());
    assert_common_call(&call, [1; 32], b"answer");
}

#[test]
fn call_first_and_second_contract_forwards_both_payloads() {
    let args = vec![b"getA@01".to_vec(), Vec::new()];
    let calls = call_first_and_second_contract(&destinations(), &args).unwrap();
    assert_eq!(calls.len(), 2);
    assert_common_call(&calls[0], [1; 32], b"getA@01");
    assert_common_call(&calls[1], [2; 32], b"");
}

#[test]
fn call_first_and_second_contract_rejects_wrong_argument_counts() {
    for n in [0usize, 1, 3] {
        let args: Vec<Vec<u8>> = (0..n).map(|i| vec![i as u8]).collect();
        let r = call_first_and_second_contract(&destinations(), &args);
        assert_eq!(r.err(), Some(ContractError::ArgumentCountMismatch));
    }
}

#[test]
fn storage_key_is_prefix_then_low_byte() {
    assert_eq!(construct_storage_key("SuccessCallbackArg", 3), b"SuccessCallbackArg\x03".to_vec());
    assert_eq!(construct_storage_key("FailCallbackArg", 0x1ff), b"FailCallbackArg\xff".to_vec());
    assert_eq!(construct_storage_key("", 256), vec![0u8]);
}

#[test]
fn success_callback_records_seven_and_nine() {
    let writes = success_callback(0, &vec![7, 9]);
    assert_eq!(
        writes,
        vec![
            StorageWrite::U64 { key: key(SUCCESS_CALLBACK_ARGUMENT_KEY, 0), value: 7 },
            StorageWrite::U64 { key: key(SUCCESS_CALLBACK_ARGUMENT_KEY, 1), value: 9 },
            counter_write(2),
        ]
    );
    assert_eq!(key(SUCCESS_CALLBACK_ARGUMENT_KEY, 0), b"SuccessCallbackArg\x00".to_vec());
}

#[test]
fn success_callback_without_arguments_stores_counter_only() {
    assert_eq!(success_callback(5, &Vec::new()), vec![counter_write(5)]);
}

#[test]
fn fail_callback_continues_shared_index() {
    let code = b"\x04".to_vec();
    let message = b"out of gas".to_vec();
    let writes = fail_callback(2, &vec![code.clone(), message.clone()]).unwrap();
    assert_eq!(
        writes,
        vec![
            StorageWrite::Bytes { key: key(FAIL_CALLBACK_ARGUMENT_KEY, 2), value: code },
            StorageWrite::Bytes { key: key(FAIL_CALLBACK_ARGUMENT_KEY, 3), value: message },
            counter_write(4),
        ]
    );
    assert_eq!(key(FAIL_CALLBACK_ARGUMENT_KEY, 3), b"FailCallbackArg\x03".to_vec());
}

#[test]
fn fail_callback_keeps_empty_arguments() {
    let writes = fail_callback(0, &vec![Vec::new(), Vec::new()]).unwrap();
    assert_eq!(writes.len(), 3);
    assert_eq!(writes[0], StorageWrite::Bytes { key: key(FAIL_CALLBACK_ARGUMENT_KEY, 0), value: Vec::new() });
    assert_eq!(writes[1], StorageWrite::Bytes { key: key(FAIL_CALLBACK_ARGUMENT_KEY, 1), value: Vec::new() });
    assert_eq!(writes[2], counter_write(2));
}

#[test]
fn fail_callback_rejects_wrong_argument_counts() {
    for n in [0usize, 1, 3, 4] {
        let args: Vec<Vec<u8>> = (0..n).map(|i| vec![i as u8]).collect();
        assert_eq!(fail_callback(9, &args), Err(ContractError::ArgumentCountMismatch));
    }
}

#[test]
fn counter_counts_every_record_written() {
    let mut store = HashMap::new();
    let c = load_counter(&store);
    apply(&mut store, success_callback(c, &vec![7, 9]));
    assert_eq!(load_counter(&store), 2);
    let c = load_counter(&store);
    apply(&mut store, fail_callback(c, &vec![b"e".to_vec(), b"m".to_vec()]).unwrap());
    assert_eq!(load_counter(&store), 4);
    assert!(fail_callback(load_counter(&store), &vec![b"e".to_vec()]).is_err());
    assert_eq!(load_counter(&store), 4);
    let c = load_counter(&store);
    apply(&mut store, success_callback(c, &vec![1, 2, 3]));
    assert_eq!(load_counter(&store), 7);
    assert_eq!(
        store.get(&key(FAIL_CALLBACK_ARGUMENT_KEY, 3)),
        Some(&StorageWrite::Bytes { key: key(FAIL_CALLBACK_ARGUMENT_KEY, 3), value: b"m".to_vec() })
    );
    assert_eq!(
        store.get(&key(SUCCESS_CALLBACK_ARGUMENT_KEY, 6)),
        Some(&StorageWrite::U64 { key: key(SUCCESS_CALLBACK_ARGUMENT_KEY, 6), value: 3 })
    );
}

#[test]
fn record_past_two_hundred_fifty_six_overwrites_earlier_slot() {
    let mut store = HashMap::new();
    let first: Vec<u64> = (0..256).collect();
    let c = load_counter(&store);
    apply(&mut store, success_callback(c, &first));
    assert_eq!(load_counter(&store), 256);
    assert_eq!(
        store.get(&key(SUCCESS_CALLBACK_ARGUMENT_KEY, 0)),
        Some(&StorageWrite::U64 { key: key(SUCCESS_CALLBACK_ARGUMENT_KEY, 0), value: 0 })
    );
    let c = load_counter(&store);
    apply(&mut store, success_callback(c, &vec![1000]));
    assert_eq!(load_counter(&store), 257);
    assert_eq!(
        store.get(&key(SUCCESS_CALLBACK_ARGUMENT_KEY, 0)),
        Some(&StorageWrite::U64 { key: key(SUCCESS_CALLBACK_ARGUMENT_KEY, 0), value: 1000 })
    );
    let writes = fail_callback(300, &vec![b"c".to_vec(), b"m".to_vec()]).unwrap();
    assert_eq!(writes[0], StorageWrite::Bytes { key: key(FAIL_CALLBACK_ARGUMENT_KEY, 44), value: b"c".to_vec() });
    assert_eq!(writes[2], counter_write(302));
}

#[test]
fn endpoints_route_by_name() {
    let all = [
        Endpoint::Answer,
        Endpoint::CallCaller,
        Endpoint::CallFirstContract,
        Endpoint::CallFirstAndSecondContract,
        Endpoint::SuccessCallback,
        Endpoint::FailCallback,
    ];
    for e in all {
        assert_eq!(Endpoint::from_name(e.name().as_bytes()), Some(e));
    }
    assert_eq!(Endpoint::from_name(b"success_callback"), Some(Endpoint::SuccessCallback));
    assert_eq!(Endpoint::from_name(b"answe"), None);
    assert_eq!(Endpoint::from_name(b""), None);
}
