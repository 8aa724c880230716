use aleph_core::light_client::{
    account_id_from_bytes, base64string_as_h512, checked_base64string_as_h256,
    checked_base64string_as_h512, sha256_from_bytes, timestamp_from_rfc3339, Error, Event,
    LightClient, TimestampStorage, H256, H512,
};
use base64::Engine;

#[test]
fn rfc3339_timestamps_parse_to_unix_time() {
    assert_eq!(
        timestamp_from_rfc3339("2021-01-01T00:00:00Z"),
        Ok(TimestampStorage { seconds: 1609459200, nanos: 0 })
    );
    assert_eq!(
        timestamp_from_rfc3339("2021-01-01T00:00:00.5Z"),
        Ok(TimestampStorage { seconds: 1609459200, nanos: 500000000 })
    );
    assert_eq!(
        timestamp_from_rfc3339("not a timestamp"),
        Err("Not in rfc3339 format")
    );
    assert_eq!(
        timestamp_from_rfc3339("2021-13-01T00:00:00Z"),
        Err("Not in rfc3339 format")
    );
}

#[test]
fn base64_signatures_decode() {
    let engine = base64::engine::general_purpose::STANDARD;
    let encoded = engine.encode([7u8; 64]);
    assert_eq!(base64string_as_h512(&encoded), Ok(H512([7u8; 64])));
    assert_eq!(checked_base64string_as_h512(&encoded), Some(H512([7u8; 64])));
    assert_eq!(
        base64string_as_h512("not base64!"),
        Err("Not base64 encoded string")
    );
    // well-formed base64 of the wrong length is caught by the checked variant
    assert_eq!(checked_base64string_as_h512(&engine.encode([7u8; 10])), None);
    assert_eq!(checked_base64string_as_h512("not base64!"), None);
}

#[test]
fn base64_hashes_decode() {
    let engine = base64::engine::general_purpose::STANDARD;
    let encoded = engine.encode([9u8; 32]);
    assert_eq!(checked_base64string_as_h256(&encoded), Some(H256([9u8; 32])));
    assert_eq!(checked_base64string_as_h256(&engine.encode([9u8; 31])), None);
    assert_eq!(checked_base64string_as_h256("///"), None);
}

#[test]
fn digests_and_accounts_keep_their_bytes() {
    let bytes = [5u8; 32];
    assert_eq!(sha256_from_bytes(&bytes).0, bytes);
    assert_eq!(account_id_from_bytes([7u8; 20]).0, [7u8; 20]);
}

#[test]
fn halting_gates_finality_proofs() {
    let mut client = LightClient::new();
    assert!(!client.is_halted());
    assert_eq!(client.ensure_not_halted(), Ok(()));
    assert_eq!(client.submit_finality_proof(true), Ok(()));
    assert_eq!(
        client.submit_finality_proof(false),
        Err(Error::DeserializeError)
    );

    assert_eq!(client.set_halted(true), Event::LightClientHalted);
    assert!(client.is_halted());
    assert_eq!(client.ensure_not_halted(), Err(Error::Halted));
    // a halted client rejects even a well-formed proof, and reports the halt
    assert_eq!(client.submit_finality_proof(true), Err(Error::Halted));
    assert_eq!(client.submit_finality_proof(false), Err(Error::Halted));

    assert_eq!(client.set_halted(false), Event::LightClientResumed);
    assert_eq!(client.submit_finality_proof(true), Ok(()));
}

#[test]
fn initialization_requires_a_readable_payload() {
    let client = LightClient::new();
    assert_eq!(client.initialize_client(true), Ok(()));
    assert_eq!(client.initialize_client(false), Err(Error::DeserializeError));
}
