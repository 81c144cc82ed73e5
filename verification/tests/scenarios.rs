//! End-to-end scenarios against the session-oriented operation surface.

use he_benchmark::backend::BackendTag;
use he_benchmark::backend::SchemeParams;
use he_benchmark::bench::compare_backends;
use he_benchmark::bench::run_benchmark;
use he_benchmark::errors::HeError;
use he_benchmark::session::SessionStore;

fn bfv(poly_modulus_degree: u64, plain_modulus: u64) -> SchemeParams {
    SchemeParams::Bfv { poly_modulus_degree, plain_modulus }
}

fn bgv(cyclotomic_index: u64, plain_modulus: u64, lifting: u64) -> SchemeParams {
    SchemeParams::Bgv { cyclotomic_index, plain_modulus, lifting }
}

#[test]
fn vector_session_add_round_trip() {
    let mut store = SessionStore::new();
    let token = store
        .generate_keys(BackendTag::Seal, bfv(8192, 65537))
        .unwrap();
    let c1 = store.encrypt(token, &vec![10, 20, 30, 40, 50]).unwrap();
    let c2 = store.encrypt(token, &vec![1, 1, 1, 1, 1]).unwrap();
    let sum = store.add(token, &c1, &c2).unwrap();
    let values = store.decrypt(token, &sum).unwrap();
    assert_eq!(values, vec![11, 21, 31, 41, 51]);
}

#[test]
fn scalar_session_add_round_trip() {
    let mut store = SessionStore::new();
    let token = store
        .generate_keys(BackendTag::Helib, bgv(4095, 257, 1))
        .unwrap();
    let c1 = store.encrypt(token, &vec![5]).unwrap();
    let c2 = store.encrypt(token, &vec![7]).unwrap();
    let sum = store.add(token, &c1, &c2).unwrap();
    let values = store.decrypt(token, &sum).unwrap();
    assert_eq!(values, vec![12]);
}

#[test]
fn even_cyclotomic_index_is_rejected_without_a_token() {
    let mut store = SessionStore::new();
    let r = store.generate_keys(BackendTag::Helib, bgv(4096, 257, 1));
    assert_eq!(r, Err(HeError::InvalidParameter));
    // No session token was issued: the store still serves nothing.
    assert_eq!(
        store.encrypt(1, &vec![5]),
        Err(HeError::SessionNotFound)
    );
    assert_eq!(store.registry().handle_count(), 0);
}

#[test]
fn unknown_session_token_is_rejected() {
    let store = SessionStore::new();
    assert_eq!(
        store.encrypt(42, &vec![1, 2, 3]),
        Err(HeError::SessionNotFound)
    );
    assert_eq!(
        store.decrypt(42, &vec![0, 1, 2]),
        Err(HeError::SessionNotFound)
    );
    assert_eq!(
        store.add(42, &vec![], &vec![]),
        Err(HeError::SessionNotFound)
    );
    assert_eq!(
        store.multiply(42, &vec![], &vec![]),
        Err(HeError::SessionNotFound)
    );
}

#[test]
fn benchmark_runs_for_each_backend() {
    for backend in [BackendTag::Seal, BackendTag::Helib, BackendTag::OpenFhe] {
        let report = run_benchmark(backend, 50).unwrap();
        // All five phase timings are reported in whole milliseconds; the
        // key-generation figure is the one-time setup cost, the others are
        // per-operation averages over the 50 runs.
        assert!(report.key_gen_time_ms <= he_benchmark::bench::MS_CAP);
        assert!(report.encryption_time_ms <= he_benchmark::bench::MS_CAP);
        assert!(report.addition_time_ms <= he_benchmark::bench::MS_CAP);
        assert!(report.multiplication_time_ms <= he_benchmark::bench::MS_CAP);
        assert!(report.decryption_time_ms <= he_benchmark::bench::MS_CAP);
    }
}

#[test]
fn benchmark_rejects_zero_operations() {
    assert_eq!(
        run_benchmark(BackendTag::Seal, 0),
        Err(HeError::InvalidParameter)
    );
}

#[test]
fn comparison_covers_all_three_backends() {
    let results = compare_backends(10).unwrap();
    assert_eq!(results.len(), 3);
    assert_eq!(results[0].backend(), BackendTag::Seal);
    assert_eq!(results[1].backend(), BackendTag::Helib);
    assert_eq!(results[2].backend(), BackendTag::OpenFhe);
    for result in &results {
        assert!(!result.description().is_empty());
        assert_eq!(result.operations(), 10);
        let m = result.metrics();
        let total = m.total_time_ms();
        let sum = m.setup_time_ms()
            + m.encoding_time_ms()
            + m.encryption_time_ms()
            + m.operation_time_ms()
            + m.decryption_time_ms();
        assert_eq!(total, sum);
    }
}

#[test]
fn session_close_then_use_is_not_found() {
    let mut store = SessionStore::new();
    let token = store
        .generate_keys(BackendTag::Seal, bfv(4096, 65537))
        .unwrap();
    assert_eq!(store.backend_of(token), Ok(BackendTag::Seal));
    assert_eq!(store.backend_of(token + 1), Err(HeError::SessionNotFound));
    let c = store.encrypt(token, &vec![4]).unwrap();
    assert!(store.close(token).is_ok());
    assert_eq!(store.backend_of(token), Err(HeError::SessionNotFound));
    assert_eq!(store.decrypt(token, &c), Err(HeError::SessionNotFound));
    assert_eq!(store.close(token), Err(HeError::SessionNotFound));
}

#[test]
fn value_count_and_range_violations_are_invalid_parameters() {
    let mut store = SessionStore::new();
    let scalar = store
        .generate_keys(BackendTag::Helib, bgv(4095, 257, 1))
        .unwrap();
    // The scalar-only backend takes exactly one value per plaintext.
    assert_eq!(
        store.encrypt(scalar, &vec![1, 2]),
        Err(HeError::InvalidParameter)
    );
    assert_eq!(store.encrypt(scalar, &vec![]), Err(HeError::InvalidParameter));
    // Values outside the message space are rejected, never reduced.
    assert_eq!(
        store.encrypt(scalar, &vec![257]),
        Err(HeError::InvalidParameter)
    );
    assert_eq!(
        store.encrypt(scalar, &vec![-1]),
        Err(HeError::InvalidParameter)
    );
    let vector = store
        .generate_keys(BackendTag::Seal, bfv(1024, 65537))
        .unwrap();
    // More values than the ring packs are rejected, never truncated.
    let too_many: Vec<i64> = vec![1; 1025];
    assert_eq!(
        store.encrypt(vector, &too_many),
        Err(HeError::InvalidParameter)
    );
}

#[test]
fn params_must_match_backend_scheme() {
    let mut store = SessionStore::new();
    assert_eq!(
        store.generate_keys(BackendTag::Seal, bgv(4095, 257, 1)),
        Err(HeError::InvalidParameter)
    );
    assert_eq!(
        store.generate_keys(BackendTag::Helib, bfv(4096, 65537)),
        Err(HeError::InvalidParameter)
    );
    assert_eq!(
        store.generate_keys(BackendTag::Seal, bfv(1000, 65537)),
        Err(HeError::InvalidParameter)
    );
    assert_eq!(
        store.generate_keys(BackendTag::Seal, bfv(4096, 1)),
        Err(HeError::InvalidParameter)
    );
    assert_eq!(
        store.generate_keys(BackendTag::OpenFhe, bfv(512, 65537)),
        Err(HeError::InvalidParameter)
    );
}
