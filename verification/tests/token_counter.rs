use std::collections::HashMap;

use f5_programmability::token_counter::{
    decode_total, encode_total, CollectError, CountField, CountKey, LLMTokenCounter, ModelResponse, Next, StoreReply,
    StoreRequest, TokenCounts,
};

fn response(p: CountField, e: CountField) -> ModelResponse {
    ModelResponse { prompt_eval_count: p, eval_count: e }
}

/// Drives one collection against an in-memory store; `fail_at` makes that
/// request (counted from 0) fail. Returns the outcome and the requests made.
fn drive(
    counter: &LLMTokenCounter<HashMap<Vec<u8>, Vec<u8>>>,
    store: &mut HashMap<Vec<u8>, Vec<u8>>,
    r: &ModelResponse,
    fail_at: Option<usize>,
) -> (Result<TokenCounts, CollectError>, usize) {
    let mut next = counter.collect(r);
    let mut n = 0;
    loop {
        match next {
            Next::Finished(result) => return (result, n),
            Next::Request(state, request) => {
                let reply = if fail_at == Some(n) {
                    StoreReply::Failed
                } else {
                    match request {
                        StoreRequest::Get(k) => StoreReply::Value(store.get(&k.key()).cloned()),
                        StoreRequest::Put(k, v) => {
                            store.insert(k.key(), v);
                            StoreReply::Stored
                        }
                    }
                };
                n += 1;
                assert!(state.accepts(&reply));
                next = state.resume(reply);
            }
        }
    }
}

#[test]
fn collect_on_empty_store_starts_from_zero() {
    let counter = LLMTokenCounter::new(HashMap::new());
    let mut store = HashMap::new();
    let (r, n) = drive(&counter, &mut store, &response(CountField::Count(12), CountField::Count(30)), None);
    assert_eq!(r, Ok(TokenCounts { total_prompt_eval_count: 12, total_eval_count: 30 }));
    assert_eq!(n, 4);
    assert_eq!(store.get(b"total-prompt-eval-count".as_slice()), Some(&12u64.to_le_bytes().to_vec()));
    assert_eq!(store.get(b"total-eval-count".as_slice()), Some(&30u64.to_le_bytes().to_vec()));
    assert_eq!(store.len(), 2);
}

#[test]
fn collections_keep_running_sums() {
    let counter = LLMTokenCounter::new(HashMap::new());
    let mut store = HashMap::new();
    store.insert(b"total-prompt-eval-count".to_vec(), 100u64.to_le_bytes().to_vec());
    store.insert(b"other-key".to_vec(), vec![1, 2, 3]);
    let (r1, _) = drive(&counter, &mut store, &response(CountField::Count(5), CountField::Count(7)), None);
    assert_eq!(r1, Ok(TokenCounts { total_prompt_eval_count: 105, total_eval_count: 7 }));
    let (r2, _) = drive(&counter, &mut store, &response(CountField::Count(1), CountField::Count(2)), None);
    assert_eq!(r2, Ok(TokenCounts { total_prompt_eval_count: 106, total_eval_count: 9 }));
    assert_eq!(store.get(b"other-key".as_slice()), Some(&vec![1, 2, 3]));
}

#[test]
fn bad_responses_fail_before_the_store() {
    let counter = LLMTokenCounter::new(());
    let cases = [
        (response(CountField::Absent, CountField::Count(1)), CollectError::MissingPromptEvalCount),
        (response(CountField::NotU64, CountField::Absent), CollectError::PromptEvalCountNotU64),
        (response(CountField::Count(1), CountField::Absent), CollectError::MissingEvalCount),
        (response(CountField::Count(1), CountField::NotU64), CollectError::EvalCountNotU64),
    ];
    for (r, e) in cases {
        match counter.collect(&r) {
            Next::Finished(Err(got)) => assert_eq!(got, e),
            _ => panic!("expected an immediate failure"),
        }
    }
}

#[test]
fn error_messages() {
    assert_eq!(CollectError::MissingPromptEvalCount.message(), "body json has prompt_eval_count");
    assert_eq!(CollectError::PromptEvalCountNotU64.message(), "prompt_eval_count is not u64");
    assert_eq!(CollectError::MissingEvalCount.message(), "body json has eval_count");
    assert_eq!(CollectError::EvalCountNotU64.message(), "eval_count is not u64");
    assert_eq!(CollectError::StoreFailure.message(), "key-value store request failed");
}

#[test]
fn a_failed_request_ends_the_collection() {
    for fail_at in 0..4 {
        let counter = LLMTokenCounter::new(HashMap::new());
        let mut store = HashMap::new();
        let (r, n) = drive(&counter, &mut store, &response(CountField::Count(1), CountField::Count(1)), Some(fail_at));
        assert_eq!(r, Err(CollectError::StoreFailure));
        assert_eq!(n, fail_at + 1);
    }
}

#[test]
fn keys_are_the_stored_names() {
    assert_eq!(CountKey::PromptEvalTotal.key(), b"total-prompt-eval-count".to_vec());
    assert_eq!(CountKey::EvalTotal.key(), b"total-eval-count".to_vec());
}

#[test]
fn unusable_replies_are_refused() {
    let counter = LLMTokenCounter::new(());
    let next = counter.collect(&response(CountField::Count(1), CountField::Count(1)));
    let state = match next {
        Next::Request(state, StoreRequest::Get(CountKey::PromptEvalTotal)) => state,
        _ => panic!("expected a read of the prompt total"),
    };
    // A stored value of the wrong length.
    assert!(!state.accepts(&StoreReply::Value(Some(vec![1, 2, 3]))));
    // A write acknowledgement while reading.
    assert!(!state.accepts(&StoreReply::Stored));
    // A total that would overflow.
    let state = match state.resume(StoreReply::Value(Some(u64::MAX.to_le_bytes().to_vec()))) {
        Next::Request(state, StoreRequest::Get(CountKey::EvalTotal)) => state,
        _ => panic!("expected a read of the generation total"),
    };
    assert!(!state.accepts(&StoreReply::Value(None)));
    assert!(state.accepts(&StoreReply::Failed));
}

#[test]
fn counter_keeps_its_store() {
    let counter = LLMTokenCounter::new(42u8);
    assert_eq!(*counter.kv_store(), 42);
}

#[test]
fn totals_round_trip_through_bytes() {
    for t in [0u64, 1, 255, 256, 0x0102_0304_0506_0708, u64::MAX] {
        assert_eq!(encode_total(t), t.to_le_bytes().to_vec());
        assert_eq!(decode_total(&Some(encode_total(t))), t);
    }
    assert_eq!(decode_total(&None), 0);
}
