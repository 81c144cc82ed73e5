//! Round trips, homomorphic arithmetic and noise-budget behaviour, through
//! the session surface and through the backend adapters directly.

use he_benchmark::backend::BackendTag;
use he_benchmark::backend::SchemeParams;
use he_benchmark::errors::HeError;
use he_benchmark::helib::HEContext;
use he_benchmark::helib::HEPlaintext;
use he_benchmark::helib::HESecretKey;
use he_benchmark::helib::HElibError;
use he_benchmark::openfhe::OpenFHEContext;
use he_benchmark::seal::Context;
use he_benchmark::seal::SealError;
use he_benchmark::session::SessionStore;

#[test]
fn round_trip_every_backend() {
    let mut store = SessionStore::new();
    let seal = store
        .generate_keys(
            BackendTag::Seal,
            SchemeParams::Bfv { poly_modulus_degree: 4096, plain_modulus: 65537 },
        )
        .unwrap();
    let helib = store
        .generate_keys(
            BackendTag::Helib,
            SchemeParams::Bgv { cyclotomic_index: 4095, plain_modulus: 257, lifting: 1 },
        )
        .unwrap();
    let openfhe = store
        .generate_keys(
            BackendTag::OpenFhe,
            SchemeParams::Bfv { poly_modulus_degree: 4096, plain_modulus: 65537 },
        )
        .unwrap();

    let data = vec![0, 1, 2, 65535, 65536];
    let c = store.encrypt(seal, &data).unwrap();
    assert_eq!(store.decrypt(seal, &c).unwrap(), data);

    let c = store.encrypt(helib, &vec![256]).unwrap();
    assert_eq!(store.decrypt(helib, &c).unwrap(), vec![256]);

    let c = store.encrypt(openfhe, &data).unwrap();
    assert_eq!(store.decrypt(openfhe, &c).unwrap(), data);
}

#[test]
fn addition_wraps_at_the_plaintext_modulus() {
    let mut store = SessionStore::new();
    let token = store
        .generate_keys(
            BackendTag::Helib,
            SchemeParams::Bgv { cyclotomic_index: 4095, plain_modulus: 257, lifting: 1 },
        )
        .unwrap();
    let c1 = store.encrypt(token, &vec![200]).unwrap();
    let c2 = store.encrypt(token, &vec![100]).unwrap();
    let sum = store.add(token, &c1, &c2).unwrap();
    // 200 + 100 = 300 = 43 (mod 257)
    assert_eq!(store.decrypt(token, &sum).unwrap(), vec![43]);
}

#[test]
fn multiplication_wraps_at_the_plaintext_modulus() {
    let mut store = SessionStore::new();
    let token = store
        .generate_keys(
            BackendTag::Seal,
            SchemeParams::Bfv { poly_modulus_degree: 4096, plain_modulus: 65537 },
        )
        .unwrap();
    let c1 = store.encrypt(token, &vec![3, 4, 65536]).unwrap();
    let c2 = store.encrypt(token, &vec![5, 6, 2]).unwrap();
    let product = store.multiply(token, &c1, &c2).unwrap();
    // 65536 * 2 = 131072 = 65535 (mod 65537)
    assert_eq!(store.decrypt(token, &product).unwrap(), vec![15, 24, 65535]);
}

#[test]
fn exhausting_the_noise_budget_makes_decrypt_fail() {
    let mut store = SessionStore::new();
    let token = store
        .generate_keys(
            BackendTag::Helib,
            SchemeParams::Bgv { cyclotomic_index: 4095, plain_modulus: 257, lifting: 1 },
        )
        .unwrap();
    // A fresh HElib ciphertext of this ring starts with a budget of 60; each
    // multiplication by a fresh ciphertext consumes one unit.
    let mut c = store.encrypt(token, &vec![1]).unwrap();
    let one = store.encrypt(token, &vec![1]).unwrap();
    for _ in 0..59 {
        c = store.multiply(token, &c, &one).unwrap();
        // The product stays decryptable while the budget is positive.
        assert_eq!(store.decrypt(token, &c).unwrap(), vec![1]);
    }
    // One more multiplication drives the budget to zero.
    c = store.multiply(token, &c, &one).unwrap();
    assert_eq!(store.decrypt(token, &c), Err(HeError::DecryptionFailed));
}

#[test]
fn adapter_noise_budget_is_strictly_consumed_by_multiplication() {
    let context = HEContext::new(4095, 257, 1).unwrap();
    let secret = HESecretKey::generate(&context).unwrap();
    let public = secret.public_key().unwrap();
    let plain = HEPlaintext::new(&context, 9).unwrap();
    let c1 = public.encrypt(&plain).unwrap();
    let c2 = public.encrypt(&plain).unwrap();
    let before = secret.noise_budget(&c1);
    assert!(before >= 0);
    let product = c1.multiply(&c2).unwrap();
    let after = secret.noise_budget(&product);
    assert!(after < before);
    assert!(after >= 0);
    // Addition does not consume multiplicative depth.
    let sum = c1.add(&c2).unwrap();
    assert_eq!(secret.noise_budget(&sum), before);
}

#[test]
fn adapter_scalar_arithmetic() {
    let context = HEContext::new(4095, 257, 1).unwrap();
    let secret = HESecretKey::generate(&context).unwrap();
    let public = secret.public_key().unwrap();
    let five = public.encrypt(&HEPlaintext::new(&context, 5).unwrap()).unwrap();
    let seven = public.encrypt(&HEPlaintext::new(&context, 7).unwrap()).unwrap();
    assert_eq!(secret.decrypt(&five.add(&seven).unwrap()).unwrap().value(), 12);
    assert_eq!(secret.decrypt(&five.multiply(&seven).unwrap()).unwrap().value(), 35);
    assert_eq!(secret.decrypt(&seven.subtract(&five).unwrap()).unwrap().value(), 2);
    // Subtraction wraps into the message space instead of going negative.
    assert_eq!(secret.decrypt(&five.subtract(&seven).unwrap()).unwrap().value(), 255);
}

#[test]
fn adapter_vector_arithmetic() {
    let context = Context::new(4096, 97).unwrap();
    let encryptor = context.encryptor();
    let decryptor = context.decryptor();
    let p1 = context.encode(&vec![90, 2]).unwrap();
    let p2 = context.encode(&vec![10, 3]).unwrap();
    let c1 = encryptor.encrypt(&p1).unwrap();
    let c2 = encryptor.encrypt(&p2).unwrap();
    // 90 + 10 = 100 = 3 (mod 97)
    assert_eq!(
        decryptor.decrypt(&c1.add(&c2).unwrap()).unwrap().values(),
        vec![3, 5]
    );
    // 90 * 10 = 900 = 27 (mod 97): 900 - 9 * 97 = 27
    assert_eq!(
        decryptor.decrypt(&c1.multiply(&c2).unwrap()).unwrap().values(),
        vec![27, 6]
    );
    // 2 - 3 wraps to 96 (mod 97)
    assert_eq!(
        decryptor.decrypt(&c1.subtract(&c2).unwrap()).unwrap().values(),
        vec![80, 96]
    );
}

#[test]
fn adapter_rejects_out_of_space_plaintexts() {
    let context = HEContext::new(15, 17, 1).unwrap();
    assert!(matches!(HEPlaintext::new(&context, 17), Err(HElibError::InvalidParameter)));
    assert!(matches!(HEPlaintext::new(&context, -1), Err(HElibError::InvalidParameter)));
    assert_eq!(HEPlaintext::new(&context, 16).unwrap().value(), 16);

    let context = Context::new(1024, 17).unwrap();
    assert!(matches!(context.encode(&vec![17]), Err(SealError::InvalidParameter)));
    assert!(matches!(context.encode(&vec![]), Err(SealError::InvalidParameter)));
    let too_many: Vec<u64> = vec![1; 1025];
    assert!(matches!(context.encode(&too_many), Err(SealError::InvalidParameter)));
}

#[test]
fn adapter_rejects_invalid_context_parameters() {
    assert_eq!(HEContext::new(4096, 257, 1).err(), Some(HElibError::InvalidParameter));
    assert_eq!(HEContext::new(4095, 1, 1).err(), Some(HElibError::InvalidParameter));
    assert_eq!(HEContext::new(4095, 257, 0).err(), Some(HElibError::InvalidParameter));
    assert_eq!(Context::new(1000, 65537).err(), Some(SealError::InvalidParameter));
    assert_eq!(Context::new(512, 65537).err(), Some(SealError::InvalidParameter));
    assert_eq!(Context::new(65536, 65537).err(), Some(SealError::InvalidParameter));
    assert!(matches!(
        OpenFHEContext::new(512, 65537),
        Err(he_benchmark::openfhe::OpenFHEError::InvalidParameter)
    ));
    assert!(OpenFHEContext::new(65536, 65537).is_ok());
}

#[test]
fn openfhe_adapter_vector_arithmetic() {
    let context = OpenFHEContext::new(1024, 65537).unwrap();
    let (secret, public) = context.generate_keys().unwrap();
    let p1 = context.encode(&vec![100, 200, 300, 400]).unwrap();
    let p2 = context.encode(&vec![1, 2, 3, 4]).unwrap();
    let c1 = public.encrypt(&p1).unwrap();
    let c2 = public.encrypt(&p2).unwrap();
    assert_eq!(
        secret.decrypt(&c1.add(&c2).unwrap()).unwrap().values(),
        vec![101, 202, 303, 404]
    );
    assert_eq!(
        secret.decrypt(&c1.multiply(&c2).unwrap()).unwrap().values(),
        vec![100, 400, 900, 1600]
    );
    assert!(secret.noise_budget(&c1) > 0);
}
