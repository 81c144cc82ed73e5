//! A session-based layer over three interchangeable homomorphic-encryption
//! backends (SEAL, HElib, OpenFHE), each modelled by its observable behaviour:
//! encrypt, decrypt, add, multiply and subtract over a bounded message space,
//! with a noise budget that multiplication consumes.
//!
//! The crate owns the resource-lifecycle and session-management layer: native
//! handles are tracked by a registry that releases each exactly once, sessions
//! bind an opaque token to one backend's context and keys, ciphertexts carry a
//! backend tag and a context identity so that cross-backend confusion is
//! rejected, and a benchmark harness times a fixed workload phase by phase.

pub mod backend;
pub mod bench;
pub mod codec;
pub mod errors;
pub mod handles;
pub mod helib;
pub mod modring;
pub mod openfhe;
pub mod seal;
pub mod session;

pub use backend::BackendTag;
pub use backend::SchemeParams;
pub use bench::BenchmarkReport;
pub use bench::ComparisonResult;
pub use bench::PhaseMetrics;
pub use codec::CipherBlob;
pub use errors::HeError;
pub use handles::HandleGuard;
pub use handles::HandleRegistry;
pub use handles::HandleState;
pub use helib::HEContext;
pub use helib::HECiphertext;
pub use helib::HEPlaintext;
pub use helib::HEPublicKey;
pub use helib::HESecretKey;
pub use helib::HElibError;
pub use modring::MAX_PLAIN_MODULUS;
pub use openfhe::OpenFHEError;
pub use seal::Context;
pub use seal::SealError;
pub use session::SessionStore;
