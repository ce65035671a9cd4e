use pqc_validator::keys::KeyBundle;
use pqc_validator::manager::PQCValidatorManager;
use pqc_validator::service::PQCSignatureService;

#[test]
fn test_signature_service() {
    let mut service = PQCSignatureService::new();
    let keys = KeyBundle::generate().unwrap();

    service.register_validator("qsn1test...".to_string(), keys.clone());

    let message = b"test message";
    let signature = keys.sign(message).unwrap();

    let is_valid = service
        .verify_signature(message, &signature, "qsn1test...")
        .unwrap();

    assert!(is_valid);
}

#[test]
fn test_key_bundle_rejects_tampering() {
    let keys = KeyBundle::generate().unwrap();
    let signature = keys.sign(b"payload").unwrap();

    assert!(keys.verify(b"payload", &signature).unwrap());
    assert!(!keys.verify(b"payl0ad", &signature).unwrap());
    assert!(!keys.verify(b"payload longer", &signature).unwrap());

    let mut twisted = signature.clone();
    let last = twisted.len() - 1;
    twisted[last] ^= 0xff;
    assert!(!keys.verify(b"payload", &twisted).unwrap());
}

#[test]
fn test_verify_unregistered_address_is_false() {
    let service = PQCSignatureService::new();
    let keys = KeyBundle::generate().unwrap();
    let signature = keys.sign(b"hello").unwrap();
    assert_eq!(
        service.verify_signature(b"hello", &signature, "ghost"),
        Ok(false)
    );
}

#[test]
fn test_reregister_replaces_key_material() {
    let mut service = PQCSignatureService::new();
    let first = KeyBundle::from_seed(b"seed-one");
    let second = KeyBundle::from_seed(b"seed-two");
    let signature = first.sign(b"msg").unwrap();

    service.register_validator("addr1".to_string(), first);
    assert!(service.verify_signature(b"msg", &signature, "addr1").unwrap());

    service.register_validator("addr1".to_string(), second);
    assert!(!service.verify_signature(b"msg", &signature, "addr1").unwrap());
}

#[test]
fn test_batch_verify_truncates_to_shortest_input() {
    let mut service = PQCSignatureService::new();
    let keys = KeyBundle::from_seed(b"alice-key");
    service.register_validator("addr1".to_string(), keys.clone());

    let sig1 = keys.sign(b"m1").unwrap();
    let sig2 = keys.sign(b"m2").unwrap();
    let sig3 = keys.sign(b"m3").unwrap();

    let messages: Vec<&[u8]> = vec![b"m1", b"m2", b"m3"];
    let signatures: Vec<&[u8]> = vec![&sig1, &sig2, &sig3];
    let addresses: Vec<&str> = vec!["addr1", "unregistered"];

    let results = service
        .batch_verify_signatures(&messages, &signatures, &addresses)
        .unwrap();

    // Three messages and signatures, two addresses: exactly two results.
    assert_eq!(results.len(), 2);
    assert_eq!(results, vec![true, false]);
}

#[test]
fn test_batch_verify_does_not_short_circuit() {
    let mut service = PQCSignatureService::new();
    let keys = KeyBundle::from_seed(b"alice-key");
    service.register_validator("addr1".to_string(), keys.clone());

    let good = keys.sign(b"m1").unwrap();
    let wrong = keys.sign(b"other").unwrap();

    let messages: Vec<&[u8]> = vec![b"m1", b"m1", b"m1"];
    let signatures: Vec<&[u8]> = vec![&wrong, &good, &wrong];
    let addresses: Vec<&str> = vec!["addr1", "addr1", "addr1"];

    let results = service
        .batch_verify_signatures(&messages, &signatures, &addresses)
        .unwrap();
    assert_eq!(results, vec![false, true, false]);
}

#[test]
fn test_manager_and_service_agree() {
    let manager = PQCValidatorManager::new("alice".to_string(), "addr1".to_string()).unwrap();
    let mut service = PQCSignatureService::new();
    service.register_validator("addr1".to_string(), manager.get_config().key_bundle.clone());

    let signature = manager.sign_block_proposal(b"block-42").unwrap();

    assert!(service.verify_signature(b"block-42", &signature, "addr1").unwrap());
    assert!(!service.verify_signature(b"tampered", &signature, "addr1").unwrap());
}
