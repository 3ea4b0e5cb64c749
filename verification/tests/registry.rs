use libindy::error::{CacheError, TransportFailure};
use libindy::fetcher::{ConsensusFetcher, Reply, ResponseMetadata};
use libindy::registry::StateProofRegistry;
use libindy::text::{copy_bytes, same_text};

fn reply(txn_type: &str) -> Reply {
    Reply {
        txn_type: txn_type.to_string(),
        payload: vec![1, 2, 3],
        signed_root: vec![9],
        metadata: ResponseMetadata {
            seq_no: Some(12),
            txn_time: Some(1_500),
            last_seq_no: None,
            last_txn_time: Some(1_700),
        },
    }
}

#[test]
fn lookup_finds_what_was_registered() {
    let mut registry: StateProofRegistry<u32, u32> = StateProofRegistry::new();
    assert!(registry.lookup("107").is_none());
    assert!(!registry.is_registered("107"));
    registry.register("107".to_string(), 1, 2);
    registry.register("108".to_string(), 3, 4);
    assert_eq!(registry.lookup("107"), Some((&1, &2)));
    assert_eq!(registry.lookup("108"), Some((&3, &4)));
    assert!(registry.lookup("10").is_none());
    assert!(registry.is_registered("108"));
}

#[test]
fn registering_again_replaces() {
    let mut registry: StateProofRegistry<&str, &str> = StateProofRegistry::new();
    registry.register("t".to_string(), "parse-1", "free-1");
    registry.register("u".to_string(), "parse-u", "free-u");
    registry.register("t".to_string(), "parse-2", "free-2");
    assert_eq!(registry.lookup("t"), Some((&"parse-2", &"free-2")));
    assert_eq!(registry.lookup("u"), Some((&"parse-u", &"free-u")));
}

#[test]
fn unknown_transaction_type_is_an_error() {
    let mut registry: StateProofRegistry<u8, u8> = StateProofRegistry::new();
    registry.register("107".to_string(), 1, 2);
    match ConsensusFetcher::select(&registry, Ok(reply("999"))) {
        Err(error) => assert_eq!(error, CacheError::UnknownTransactionType),
        Ok(_) => panic!("a reply without a parser was accepted"),
    }
}

#[test]
fn failed_submission_is_passed_on() {
    let registry: StateProofRegistry<u8, u8> = StateProofRegistry::new();
    match ConsensusFetcher::select(&registry, Err(TransportFailure)) {
        Err(error) => assert_eq!(error, CacheError::TransportFailure),
        Ok(_) => panic!("a failed submission was accepted"),
    }
}

#[test]
fn verified_reply_gives_payload_and_metadata() {
    let mut registry: StateProofRegistry<u8, u8> = StateProofRegistry::new();
    registry.register("107".to_string(), 10, 20);
    let selected = ConsensusFetcher::select(&registry, Ok(reply("107"))).ok().unwrap();
    assert_eq!(*selected.parse, 10);
    assert_eq!(*selected.release, 20);
    let held = ConsensusFetcher::parsed(selected, Some("fragments".to_string())).ok().unwrap();
    assert_eq!(held.fragments, "fragments");
    let settled = ConsensusFetcher::verified(held, true);
    assert_eq!(*settled.release, 20);
    assert_eq!(settled.fragments, "fragments");
    let fetched = settled.outcome.unwrap();
    assert_eq!(fetched.payload, vec![1, 2, 3]);
    assert_eq!(fetched.metadata.seq_no, Some(12));
    assert_eq!(fetched.metadata.txn_time, Some(1_500));
    assert_eq!(fetched.metadata.last_seq_no, None);
    assert_eq!(fetched.metadata.last_txn_time, Some(1_700));
}

#[test]
fn invalid_proof_fails_the_fetch_and_still_releases() {
    let mut registry: StateProofRegistry<u8, u8> = StateProofRegistry::new();
    registry.register("107".to_string(), 10, 20);
    let selected = ConsensusFetcher::select(&registry, Ok(reply("107"))).ok().unwrap();
    let held = ConsensusFetcher::parsed(selected, Some(vec![7u8])).ok().unwrap();
    let settled = ConsensusFetcher::verified(held, false);
    assert_eq!(*settled.release, 20);
    assert_eq!(settled.fragments, vec![7u8]);
    assert_eq!(settled.outcome.unwrap_err(), CacheError::StateProofVerificationFailed);
}

#[test]
fn unparsed_reply_cannot_be_verified() {
    let mut registry: StateProofRegistry<u8, u8> = StateProofRegistry::new();
    registry.register("107".to_string(), 10, 20);
    let selected = ConsensusFetcher::select(&registry, Ok(reply("107"))).ok().unwrap();
    match ConsensusFetcher::parsed::<u8, u8, String>(selected, None) {
        Err(error) => assert_eq!(error, CacheError::StateProofVerificationFailed),
        Ok(_) => panic!("fragments out of nothing"),
    }
}

#[test]
fn response_metadata_of_a_reply() {
    let metadata = ConsensusFetcher::get_response_metadata(&reply("107")).unwrap();
    assert_eq!(
        metadata,
        ResponseMetadata {
            seq_no: Some(12),
            txn_time: Some(1_500),
            last_seq_no: None,
            last_txn_time: Some(1_700),
        }
    );
    assert_eq!(
        ConsensusFetcher::get_response_metadata(&reply("119")),
        Err(CacheError::InvalidArgument)
    );
    assert!(ConsensusFetcher::get_response_metadata(&reply("1190")).is_ok());
}

#[test]
fn text_helpers() {
    assert!(same_text("abc", "abc"));
    assert!(!same_text("abc", "abd"));
    assert!(!same_text("abc", "ab"));
    assert!(same_text("", ""));
    assert_eq!(copy_bytes(&vec![1, 2, 3]), vec![1, 2, 3]);
    assert_eq!(copy_bytes(&Vec::new()), Vec::<u8>::new());
}
