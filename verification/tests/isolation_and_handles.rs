//! Cross-session isolation, the ciphertext wire format, exactly-once handle
//! release, and the error taxonomy.

use he_benchmark::backend::BackendTag;
use he_benchmark::backend::SchemeParams;
use he_benchmark::errors::HeError;
use he_benchmark::handles::HandleRegistry;
use he_benchmark::helib::HElibError;
use he_benchmark::openfhe::OpenFHEError;
use he_benchmark::seal::SealError;
use he_benchmark::session::SessionStore;

fn bfv(poly_modulus_degree: u64, plain_modulus: u64) -> SchemeParams {
    SchemeParams::Bfv { poly_modulus_degree, plain_modulus }
}

fn bgv(cyclotomic_index: u64, plain_modulus: u64, lifting: u64) -> SchemeParams {
    SchemeParams::Bgv { cyclotomic_index, plain_modulus, lifting }
}

#[test]
fn ciphertext_of_another_backend_is_rejected() {
    let mut store = SessionStore::new();
    let seal = store.generate_keys(BackendTag::Seal, bfv(4096, 65537)).unwrap();
    let helib = store.generate_keys(BackendTag::Helib, bgv(4095, 257, 1)).unwrap();
    let c = store.encrypt(seal, &vec![9]).unwrap();
    assert_eq!(store.decrypt(helib, &c), Err(HeError::BackendMismatch));
    assert_eq!(store.add(helib, &c, &c), Err(HeError::BackendMismatch));
    assert_eq!(store.multiply(helib, &c, &c), Err(HeError::BackendMismatch));
}

#[test]
fn ciphertext_of_another_context_is_rejected() {
    let mut store = SessionStore::new();
    // Two sessions of the same backend with identical parameters still have
    // distinct contexts, and their ciphertexts never cross.
    let first = store.generate_keys(BackendTag::Seal, bfv(4096, 65537)).unwrap();
    let second = store.generate_keys(BackendTag::Seal, bfv(4096, 65537)).unwrap();
    let c1 = store.encrypt(first, &vec![1, 2]).unwrap();
    let c2 = store.encrypt(second, &vec![1, 2]).unwrap();
    assert_eq!(store.decrypt(second, &c1), Err(HeError::BackendMismatch));
    assert_eq!(store.add(first, &c1, &c2), Err(HeError::BackendMismatch));
    // Under their own sessions both ciphertexts stay usable.
    assert_eq!(store.decrypt(first, &c1).unwrap(), vec![1, 2]);
    assert_eq!(store.decrypt(second, &c2).unwrap(), vec![1, 2]);
}

#[test]
fn tampered_bytes_are_rejected() {
    let mut store = SessionStore::new();
    let token = store.generate_keys(BackendTag::Seal, bfv(4096, 65537)).unwrap();
    let c = store.encrypt(token, &vec![5]).unwrap();
    // Garbage decodes to no ciphertext at all.
    assert_eq!(store.decrypt(token, &vec![1, 2, 3]), Err(HeError::DecryptionFailed));
    assert_eq!(store.decrypt(token, &vec![]), Err(HeError::DecryptionFailed));
    assert_eq!(store.add(token, &vec![0; 40], &c), Err(HeError::OperationFailed));
    // Rewriting the backend tag byte makes the ciphertext cross a backend
    // boundary, which is rejected rather than coerced.
    let mut crossed = c.clone();
    crossed[0] = 2;
    assert_eq!(store.decrypt(token, &crossed), Err(HeError::BackendMismatch));
    // An unknown tag byte makes the bytes decode to nothing.
    let mut unknown = c.clone();
    unknown[0] = 9;
    assert_eq!(store.decrypt(token, &unknown), Err(HeError::DecryptionFailed));
}

#[test]
fn slot_count_mismatch_fails_the_operation() {
    let mut store = SessionStore::new();
    let token = store.generate_keys(BackendTag::Seal, bfv(4096, 65537)).unwrap();
    let c1 = store.encrypt(token, &vec![1, 2, 3]).unwrap();
    let c2 = store.encrypt(token, &vec![1, 2]).unwrap();
    assert_eq!(store.add(token, &c1, &c2), Err(HeError::OperationFailed));
    assert_eq!(store.multiply(token, &c1, &c2), Err(HeError::OperationFailed));
}

#[test]
fn session_handles_are_released_exactly_once() {
    let mut store = SessionStore::new();
    assert_eq!(store.registry().handle_count(), 0);
    let token = store.generate_keys(BackendTag::Helib, bgv(4095, 257, 1)).unwrap();
    // One session acquires exactly three native handles: context, secret key,
    // public key.
    assert_eq!(store.registry().handle_count(), 3);
    for id in 0..3 {
        assert!(store.registry().is_live_at(id));
        assert_eq!(store.registry().release_count(id), 0);
    }
    // Operations — including failing ones — acquire and leak nothing.
    let c = store.encrypt(token, &vec![5]).unwrap();
    let _ = store.encrypt(token, &vec![999]).unwrap_err();
    let _ = store.decrypt(token, &vec![7, 7]).unwrap_err();
    let _ = store.decrypt(token, &c).unwrap();
    assert_eq!(store.registry().handle_count(), 3);
    // Closing the session fires each destroy call exactly once.
    store.close(token).unwrap();
    assert_eq!(store.registry().handle_count(), 3);
    for id in 0..3 {
        assert!(!store.registry().is_live_at(id));
        assert_eq!(store.registry().release_count(id), 1);
    }
    // A second close cannot reach the handles again.
    assert_eq!(store.close(token), Err(HeError::SessionNotFound));
    for id in 0..3 {
        assert_eq!(store.registry().release_count(id), 1);
    }
}

#[test]
fn closing_one_session_leaves_the_others_untouched() {
    let mut store = SessionStore::new();
    let first = store.generate_keys(BackendTag::Seal, bfv(4096, 65537)).unwrap();
    let second = store.generate_keys(BackendTag::Helib, bgv(4095, 257, 1)).unwrap();
    let c = store.encrypt(second, &vec![8]).unwrap();
    store.close(first).unwrap();
    // The first session's three handles are released, the second's are live.
    for id in 0..3 {
        assert_eq!(store.registry().release_count(id), 1);
    }
    for id in 3..6 {
        assert!(store.registry().is_live_at(id));
    }
    assert_eq!(store.decrypt(second, &c).unwrap(), vec![8]);
}

#[test]
fn failed_creation_acquires_no_handles() {
    let mut store = SessionStore::new();
    let _ = store.generate_keys(BackendTag::Helib, bgv(4096, 257, 1)).unwrap_err();
    let _ = store.generate_keys(BackendTag::Seal, bfv(4096, 0)).unwrap_err();
    assert_eq!(store.registry().handle_count(), 0);
}

#[test]
fn registry_guards_cannot_release_twice() {
    let mut registry = HandleRegistry::new();
    let guard = registry.create_handle();
    let id = guard.handle_id();
    assert!(registry.is_live_at(id));
    registry.release(guard);
    // The guard is consumed by the release: the one release call this handle
    // can ever see has fired.
    assert!(registry.is_released_at(id));
    assert_eq!(registry.release_count(id), 1);
    // New handles never resurrect an old identifier.
    let next = registry.create_handle();
    assert_ne!(next.handle_id(), id);
    assert_eq!(registry.release_count(id), 1);
}

#[test]
fn error_taxonomy_messages() {
    let all = [
        HeError::NullPointer,
        HeError::InvalidParameter,
        HeError::EncryptionFailed,
        HeError::DecryptionFailed,
        HeError::OperationFailed,
        HeError::SessionNotFound,
        HeError::BackendMismatch,
    ];
    for e in all {
        assert!(!e.message().is_empty());
    }
    assert_eq!(HeError::SessionNotFound.message(), "Session not found");
    // The backend error types report the native layers' own sentences.
    assert_eq!(HElibError::NullPointer.message(), "Null pointer returned from HElib");
    assert_eq!(HElibError::InvalidParameter.message(), "Invalid parameter provided");
    assert_eq!(HElibError::EncryptionFailed.message(), "Encryption operation failed");
    assert_eq!(HElibError::DecryptionFailed.message(), "Decryption operation failed");
    assert_eq!(HElibError::OperationFailed.message(), "HElib operation failed");
    assert_eq!(
        OpenFHEError::NullPointer.message(),
        "Null pointer returned from OpenFHE"
    );
    assert_eq!(OpenFHEError::InvalidParameter.message(), "Invalid parameter");
    assert_eq!(OpenFHEError::EncryptionFailed.message(), "Encryption failed");
    assert_eq!(OpenFHEError::DecryptionFailed.message(), "Decryption failed");
    assert_eq!(OpenFHEError::OperationFailed.message(), "Operation failed");
    // An unknown failure keeps the native layer's free-form detail.
    assert_eq!(
        OpenFHEError::Unknown(String::from("x")).message(),
        "Unknown error: x"
    );
    assert_eq!(HElibError::NullPointer.to_he_error(), HeError::NullPointer);
    assert_eq!(HElibError::DecryptionFailed.to_he_error(), HeError::DecryptionFailed);
    assert_eq!(SealError::OperationFailed.to_he_error(), HeError::OperationFailed);
    assert_eq!(OpenFHEError::BackendMismatch.to_he_error(), HeError::BackendMismatch);
    assert_eq!(
        OpenFHEError::Unknown(String::from("native detail")).to_he_error(),
        HeError::OperationFailed
    );
}
