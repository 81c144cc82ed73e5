//! The benchmark harness: drives a fixed workload — generate keys, encode,
//! encrypt, operate homomorphically, decrypt — against a chosen backend,
//! `num_operations` times for timing stability, and reports amortized
//! per-operation timings alongside the one-time setup and key-generation
//! cost. Phase boundaries are strict: each phase's clock starts only after
//! the previous phase's calls have fully returned, so the per-phase numbers
//! stay comparable across backends.
//!
//! The harness builds its own short-lived context and keys; it is independent
//! of the session store's long-lived sessions.

use vstd::prelude::*;

use crate::backend::BackendTag;
use crate::errors::HeError;
use crate::helib::HEContext;
use crate::helib::HEPlaintext;
use crate::helib::HESecretKey;
use crate::openfhe::OpenFHEContext;
use crate::seal::Context;

verus! {

/// Timings are clamped to this many milliseconds per phase, so that sums and
/// averages of phase totals never overflow.
pub const MS_CAP: u64 = 0x1000_0000_0000_0000;

/// The monotonic clock type of the standard library; opaque to verification.
#[verifier::external_type_specification]
#[verifier::external_body]
pub struct ExInstant(std::time::Instant);

/// Relies on std::time::Instant::now: reads the monotonic clock. Nothing is
/// promised of the reading; the harness states only what holds of every
/// outcome.
pub assume_specification[ std::time::Instant::now ]() -> std::time::Instant;

/// Relies on std::time::Instant::elapsed: the time since the earlier reading,
/// saturating at zero. The span depends on the clock, so nothing is promised
/// of it.
pub assume_specification[ std::time::Instant::elapsed ](
    start: &std::time::Instant,
) -> std::time::Duration;

/// Relies on std::time::Duration::as_millis: the span in whole milliseconds.
/// The span is opaque, so nothing is promised of the number.
pub assume_specification[ std::time::Duration::as_millis ](d: &std::time::Duration) -> u128;

/// Reads how many whole milliseconds have passed since the earlier clock
/// reading, clamped to [`MS_CAP`].
fn elapsed_ms(start: &std::time::Instant) -> (ms: u64)
    ensures
        ms <= MS_CAP,
{
    let d = start.elapsed();
    let raw = d.as_millis();
    if raw > MS_CAP as u128 {
        MS_CAP
    } else {
        raw as u64
    }
}

/// Adds one clamped measurement onto a clamped running total, clamping again
/// so that phase totals stay summable: the result is exactly the sum, capped
/// at [`MS_CAP`].
fn accumulate_ms(total: u64, delta: u64) -> (r: u64)
    requires
        total <= MS_CAP,
        delta <= MS_CAP,
    ensures
        r == (if total + delta > MS_CAP {
            MS_CAP as int
        } else {
            total + delta
        }),
        r <= MS_CAP,
{
    if total + delta > MS_CAP {
        MS_CAP
    } else {
        total + delta
    }
}

/// The per-phase timings of one benchmark run, in milliseconds: the five
/// ordered phases — setup, encode, encrypt, operate, decrypt — and their sum.
/// Immutable once produced.
pub struct PhaseMetrics {
    setup_ms: u64,
    encoding_ms: u64,
    encryption_ms: u64,
    operation_ms: u64,
    decryption_ms: u64,
    total_ms: u64,
}

impl PhaseMetrics {
    #[verifier::type_invariant]
    spec fn wf(self) -> bool {
        self.total_ms == self.setup_ms + self.encoding_ms + self.encryption_ms + self.operation_ms
            + self.decryption_ms
    }

    /// The recorded setup time.
    pub closed spec fn setup(self) -> u64 {
        self.setup_ms
    }

    /// The recorded encoding time.
    pub closed spec fn encoding(self) -> u64 {
        self.encoding_ms
    }

    /// The recorded encryption time.
    pub closed spec fn encryption(self) -> u64 {
        self.encryption_ms
    }

    /// The recorded homomorphic-operation time.
    pub closed spec fn operation(self) -> u64 {
        self.operation_ms
    }

    /// The recorded decryption time.
    pub closed spec fn decryption(self) -> u64 {
        self.decryption_ms
    }

    /// Assembles the record; the total is the sum of the five phases.
    fn assemble(
        setup_ms: u64,
        encoding_ms: u64,
        encryption_ms: u64,
        operation_ms: u64,
        decryption_ms: u64,
    ) -> (m: PhaseMetrics)
        requires
            setup_ms <= MS_CAP,
            encoding_ms <= MS_CAP,
            encryption_ms <= MS_CAP,
            operation_ms <= 2 * MS_CAP,
            decryption_ms <= MS_CAP,
        ensures
            m.setup() == setup_ms,
            m.encoding() == encoding_ms,
            m.encryption() == encryption_ms,
            m.operation() == operation_ms,
            m.decryption() == decryption_ms,
    {
        let total_ms = setup_ms + encoding_ms + encryption_ms + operation_ms + decryption_ms;
        PhaseMetrics { setup_ms, encoding_ms, encryption_ms, operation_ms, decryption_ms, total_ms }
    }

    /// Reads the setup time in milliseconds.
    pub fn setup_time_ms(&self) -> (ms: u64)
        ensures
            ms == self.setup(),
    {
        self.setup_ms
    }

    /// Reads the encoding time in milliseconds.
    pub fn encoding_time_ms(&self) -> (ms: u64)
        ensures
            ms == self.encoding(),
    {
        self.encoding_ms
    }

    /// Reads the encryption time in milliseconds.
    pub fn encryption_time_ms(&self) -> (ms: u64)
        ensures
            ms == self.encryption(),
    {
        self.encryption_ms
    }

    /// Reads the homomorphic-operation time in milliseconds.
    pub fn operation_time_ms(&self) -> (ms: u64)
        ensures
            ms == self.operation(),
    {
        self.operation_ms
    }

    /// Reads the decryption time in milliseconds.
    pub fn decryption_time_ms(&self) -> (ms: u64)
        ensures
            ms == self.decryption(),
    {
        self.decryption_ms
    }

    /// Reads the total: always the sum of the five phases.
    pub fn total_time_ms(&self) -> (ms: u64)
        ensures
            ms == self.setup() + self.encoding() + self.encryption() + self.operation()
                + self.decryption(),
    {
        proof {
            use_type_invariant(&*self);
        }
        self.total_ms
    }
}

/// The answer of one benchmark invocation: the one-time key-generation cost
/// and the amortized per-operation timings, in milliseconds.
#[derive(Clone, Copy, Debug, PartialEq, Eq, Structural)]
pub struct BenchmarkReport {
    /// One-time context and key generation, not amortized.
    pub key_gen_time_ms: u64,
    /// Encoding and encryption per operation.
    pub encryption_time_ms: u64,
    /// Homomorphic addition per operation.
    pub addition_time_ms: u64,
    /// Homomorphic multiplication per operation.
    pub multiplication_time_ms: u64,
    /// Decryption per operation.
    pub decryption_time_ms: u64,
}

/// The immutable record of one benchmark run against one backend: its
/// per-phase timings, the amortized report, and a human-readable description
/// of the workload.
pub struct ComparisonResult {
    backend: BackendTag,
    description: &'static str,
    operations: u32,
    metrics: PhaseMetrics,
    report: BenchmarkReport,
}

impl ComparisonResult {
    /// The backend the run drove.
    pub closed spec fn spec_backend(self) -> BackendTag {
        self.backend
    }

    /// How many times the workload ran.
    pub closed spec fn spec_operations(self) -> u32 {
        self.operations
    }

    /// The amortized report of the run.
    pub closed spec fn spec_report(self) -> BenchmarkReport {
        self.report
    }

    /// The backend this run drove.
    pub fn backend(&self) -> (tag: BackendTag)
        ensures
            tag == self.spec_backend(),
    {
        self.backend
    }

    /// A human-readable description of the fixed workload.
    pub fn description(&self) -> (d: &'static str) {
        self.description
    }

    /// How many times the workload ran.
    pub fn operations(&self) -> (n: u32)
        ensures
            n == self.spec_operations(),
    {
        self.operations
    }

    /// The per-phase timings of the run.
    pub fn metrics(&self) -> (m: &PhaseMetrics) {
        &self.metrics
    }

    /// The amortized report of the run.
    pub fn report(&self) -> (r: BenchmarkReport)
        ensures
            r == self.spec_report(),
    {
        self.report
    }
}

/// The six raw phase totals of one run: setup, encode, encrypt, add,
/// multiply, decrypt, each clamped to [`MS_CAP`] milliseconds.
struct PhaseTotals {
    setup: u64,
    encode: u64,
    encrypt: u64,
    addition: u64,
    multiplication: u64,
    decrypt: u64,
}

impl PhaseTotals {
    spec fn bounded(self) -> bool {
        &&& self.setup <= MS_CAP
        &&& self.encode <= MS_CAP
        &&& self.encrypt <= MS_CAP
        &&& self.addition <= MS_CAP
        &&& self.multiplication <= MS_CAP
        &&& self.decrypt <= MS_CAP
    }
}

/// Runs the fixed workload against the SEAL backend.
fn run_seal_workload(num_operations: u32) -> (totals: PhaseTotals)
    requires
        num_operations >= 1,
    ensures
        totals.bounded(),
{
    proof {
        assert(4096u64 & 4095u64 == 0) by (bit_vector);
    }
    let start = std::time::Instant::now();
    let context = match Context::new(4096, 65537) {
        Ok(context) => context,
        Err(_) => {
            return PhaseTotals {
                setup: 0,
                encode: 0,
                encrypt: 0,
                addition: 0,
                multiplication: 0,
                decrypt: 0,
            };
        },
    };
    let encryptor = context.encryptor();
    let decryptor = context.decryptor();
    let setup = elapsed_ms(&start);
    let mut totals = PhaseTotals {
        setup,
        encode: 0,
        encrypt: 0,
        addition: 0,
        multiplication: 0,
        decrypt: 0,
    };
    let mut data1: Vec<u64> = Vec::new();
    data1.push(7);
    let mut data2: Vec<u64> = Vec::new();
    data2.push(3);
    let mut i: u32 = 0;
    while i < num_operations
        invariant
            totals.bounded(),
            context.degree() == 4096,
            context.plain_modulus() == 65537,
            encryptor.degree() == 4096,
            encryptor.plain_modulus() == 65537,
            decryptor.degree() == 4096,
            decryptor.plain_modulus() == 65537,
            data1@ == seq![7u64],
            data2@ == seq![3u64],
        decreases num_operations - i,
    {
        let clock = std::time::Instant::now();
        let plain1 = match context.encode(&data1) {
            Ok(plain) => plain,
            Err(_) => {
                return totals;
            },
        };
        let plain2 = match context.encode(&data2) {
            Ok(plain) => plain,
            Err(_) => {
                return totals;
            },
        };
        totals.encode = accumulate_ms(totals.encode, elapsed_ms(&clock));
        let clock = std::time::Instant::now();
        let cipher1 = match encryptor.encrypt(&plain1) {
            Ok(cipher) => cipher,
            Err(_) => {
                return totals;
            },
        };
        let cipher2 = match encryptor.encrypt(&plain2) {
            Ok(cipher) => cipher,
            Err(_) => {
                return totals;
            },
        };
        totals.encrypt = accumulate_ms(totals.encrypt, elapsed_ms(&clock));
        let clock = std::time::Instant::now();
        let sum = match cipher1.add(&cipher2) {
            Ok(cipher) => cipher,
            Err(_) => {
                return totals;
            },
        };
        totals.addition = accumulate_ms(totals.addition, elapsed_ms(&clock));
        let clock = std::time::Instant::now();
        let product = match cipher1.multiply(&cipher2) {
            Ok(cipher) => cipher,
            Err(_) => {
                return totals;
            },
        };
        totals.multiplication = accumulate_ms(totals.multiplication, elapsed_ms(&clock));
        let clock = std::time::Instant::now();
        let decrypted_sum = match decryptor.decrypt(&sum) {
            Ok(plain) => plain,
            Err(_) => {
                return totals;
            },
        };
        let decrypted_product = match decryptor.decrypt(&product) {
            Ok(plain) => plain,
            Err(_) => {
                return totals;
            },
        };
        proof {
            assert(decrypted_sum.slots() =~= seq![10u64]);
            assert(decrypted_product.slots() =~= seq![21u64]);
        }
        totals.decrypt = accumulate_ms(totals.decrypt, elapsed_ms(&clock));
        i += 1;
    }
    totals
}

/// Runs the fixed workload against the HElib backend.
fn run_helib_workload(num_operations: u32) -> (totals: PhaseTotals)
    requires
        num_operations >= 1,
    ensures
        totals.bounded(),
{
    let start = std::time::Instant::now();
    let context = match HEContext::new(4095, 257, 1) {
        Ok(context) => context,
        Err(_) => {
            return PhaseTotals {
                setup: 0,
                encode: 0,
                encrypt: 0,
                addition: 0,
                multiplication: 0,
                decrypt: 0,
            };
        },
    };
    let secret = match HESecretKey::generate(&context) {
        Ok(secret) => secret,
        Err(_) => {
            return PhaseTotals {
                setup: 0,
                encode: 0,
                encrypt: 0,
                addition: 0,
                multiplication: 0,
                decrypt: 0,
            };
        },
    };
    let public = match secret.public_key() {
        Ok(public) => public,
        Err(_) => {
            return PhaseTotals {
                setup: 0,
                encode: 0,
                encrypt: 0,
                addition: 0,
                multiplication: 0,
                decrypt: 0,
            };
        },
    };
    let setup = elapsed_ms(&start);
    let mut totals = PhaseTotals {
        setup,
        encode: 0,
        encrypt: 0,
        addition: 0,
        multiplication: 0,
        decrypt: 0,
    };
    let mut i: u32 = 0;
    while i < num_operations
        invariant
            totals.bounded(),
            context.cyclotomic_index() == 4095,
            context.plain_modulus() == 257,
            secret.plain_modulus() == 257,
            public.cyclotomic_index() == 4095,
            public.plain_modulus() == 257,
        decreases num_operations - i,
    {
        let clock = std::time::Instant::now();
        let plain1 = match HEPlaintext::new(&context, 7) {
            Ok(plain) => plain,
            Err(_) => {
                return totals;
            },
        };
        let plain2 = match HEPlaintext::new(&context, 3) {
            Ok(plain) => plain,
            Err(_) => {
                return totals;
            },
        };
        totals.encode = accumulate_ms(totals.encode, elapsed_ms(&clock));
        let clock = std::time::Instant::now();
        let cipher1 = match public.encrypt(&plain1) {
            Ok(cipher) => cipher,
            Err(_) => {
                return totals;
            },
        };
        let cipher2 = match public.encrypt(&plain2) {
            Ok(cipher) => cipher,
            Err(_) => {
                return totals;
            },
        };
        totals.encrypt = accumulate_ms(totals.encrypt, elapsed_ms(&clock));
        let clock = std::time::Instant::now();
        let sum = match cipher1.add(&cipher2) {
            Ok(cipher) => cipher,
            Err(_) => {
                return totals;
            },
        };
        totals.addition = accumulate_ms(totals.addition, elapsed_ms(&clock));
        let clock = std::time::Instant::now();
        let product = match cipher1.multiply(&cipher2) {
            Ok(cipher) => cipher,
            Err(_) => {
                return totals;
            },
        };
        totals.multiplication = accumulate_ms(totals.multiplication, elapsed_ms(&clock));
        let clock = std::time::Instant::now();
        let decrypted_sum = match secret.decrypt(&sum) {
            Ok(plain) => plain,
            Err(_) => {
                return totals;
            },
        };
        let decrypted_product = match secret.decrypt(&product) {
            Ok(plain) => plain,
            Err(_) => {
                return totals;
            },
        };
        proof {
            assert(decrypted_sum.residue() == 10u64);
            assert(decrypted_product.residue() == 21u64);
        }
        totals.decrypt = accumulate_ms(totals.decrypt, elapsed_ms(&clock));
        i += 1;
    }
    totals
}

/// Runs the fixed workload against the OpenFHE backend.
fn run_openfhe_workload(num_operations: u32) -> (totals: PhaseTotals)
    requires
        num_operations >= 1,
    ensures
        totals.bounded(),
{
    proof {
        assert(4096u64 & 4095u64 == 0) by (bit_vector);
    }
    let start = std::time::Instant::now();
    let context = match OpenFHEContext::new(4096, 65537) {
        Ok(context) => context,
        Err(_) => {
            return PhaseTotals {
                setup: 0,
                encode: 0,
                encrypt: 0,
                addition: 0,
                multiplication: 0,
                decrypt: 0,
            };
        },
    };
    let (secret, public) = match context.generate_keys() {
        Ok(pair) => pair,
        Err(_) => {
            return PhaseTotals {
                setup: 0,
                encode: 0,
                encrypt: 0,
                addition: 0,
                multiplication: 0,
                decrypt: 0,
            };
        },
    };
    let setup = elapsed_ms(&start);
    let mut totals = PhaseTotals {
        setup,
        encode: 0,
        encrypt: 0,
        addition: 0,
        multiplication: 0,
        decrypt: 0,
    };
    let mut data1: Vec<u64> = Vec::new();
    data1.push(7);
    let mut data2: Vec<u64> = Vec::new();
    data2.push(3);
    let mut i: u32 = 0;
    while i < num_operations
        invariant
            totals.bounded(),
            context.degree() == 4096,
            context.plain_modulus() == 65537,
            secret.plain_modulus() == 65537,
            public.degree() == 4096,
            public.plain_modulus() == 65537,
            data1@ == seq![7u64],
            data2@ == seq![3u64],
        decreases num_operations - i,
    {
        let clock = std::time::Instant::now();
        let plain1 = match context.encode(&data1) {
            Ok(plain) => plain,
            Err(_) => {
                return totals;
            },
        };
        let plain2 = match context.encode(&data2) {
            Ok(plain) => plain,
            Err(_) => {
                return totals;
            },
        };
        totals.encode = accumulate_ms(totals.encode, elapsed_ms(&clock));
        let clock = std::time::Instant::now();
        let cipher1 = match public.encrypt(&plain1) {
            Ok(cipher) => cipher,
            Err(_) => {
                return totals;
            },
        };
        let cipher2 = match public.encrypt(&plain2) {
            Ok(cipher) => cipher,
            Err(_) => {
                return totals;
            },
        };
        totals.encrypt = accumulate_ms(totals.encrypt, elapsed_ms(&clock));
        let clock = std::time::Instant::now();
        let sum = match cipher1.add(&cipher2) {
            Ok(cipher) => cipher,
            Err(_) => {
                return totals;
            },
        };
        totals.addition = accumulate_ms(totals.addition, elapsed_ms(&clock));
        let clock = std::time::Instant::now();
        let product = match cipher1.multiply(&cipher2) {
            Ok(cipher) => cipher,
            Err(_) => {
                return totals;
            },
        };
        totals.multiplication = accumulate_ms(totals.multiplication, elapsed_ms(&clock));
        let clock = std::time::Instant::now();
        let decrypted_sum = match secret.decrypt(&sum) {
            Ok(plain) => plain,
            Err(_) => {
                return totals;
            },
        };
        let decrypted_product = match secret.decrypt(&product) {
            Ok(plain) => plain,
            Err(_) => {
                return totals;
            },
        };
        proof {
            assert(decrypted_sum.slots() =~= seq![10u64]);
            assert(decrypted_product.slots() =~= seq![21u64]);
        }
        totals.decrypt = accumulate_ms(totals.decrypt, elapsed_ms(&clock));
        i += 1;
    }
    totals
}

/// Runs the fixed workload `num_operations` times against the chosen backend
/// and reports the one-time key-generation cost alongside amortized
/// per-operation timings.
///
/// Fails with `InvalidParameter` exactly when `num_operations` is zero.
pub fn run_benchmark(backend: BackendTag, num_operations: u32) -> (r: Result<
    BenchmarkReport,
    HeError,
>)
    ensures
        r is Ok <==> num_operations >= 1,
        r is Err ==> r->Err_0 is InvalidParameter,
        r is Ok ==> ({
            let report = r->Ok_0;
            &&& report.key_gen_time_ms <= MS_CAP
            &&& report.encryption_time_ms <= 2 * MS_CAP
            &&& report.addition_time_ms <= MS_CAP
            &&& report.multiplication_time_ms <= MS_CAP
            &&& report.decryption_time_ms <= MS_CAP
        }),
{
    let result = run_comparison(backend, num_operations);
    match result {
        Ok(comparison) => Ok(comparison.report()),
        Err(e) => Err(e),
    }
}

/// Runs the fixed workload against the chosen backend and assembles the
/// immutable comparison record: per-phase timings, amortized report and a
/// description of the workload.
///
/// Fails with `InvalidParameter` exactly when `num_operations` is zero.
pub fn run_comparison(backend: BackendTag, num_operations: u32) -> (r: Result<
    ComparisonResult,
    HeError,
>)
    ensures
        r is Ok <==> num_operations >= 1,
        r is Err ==> r->Err_0 is InvalidParameter,
        r is Ok ==> r->Ok_0.spec_backend() == backend && r->Ok_0.spec_operations()
            == num_operations,
        r is Ok ==> ({
            let report = r->Ok_0.spec_report();
            &&& report.key_gen_time_ms <= MS_CAP
            &&& report.encryption_time_ms <= 2 * MS_CAP
            &&& report.addition_time_ms <= MS_CAP
            &&& report.multiplication_time_ms <= MS_CAP
            &&& report.decryption_time_ms <= MS_CAP
        }),
{
    if num_operations == 0 {
        return Err(HeError::InvalidParameter);
    }
    let totals = match backend {
        BackendTag::Seal => run_seal_workload(num_operations),
        BackendTag::Helib => run_helib_workload(num_operations),
        BackendTag::OpenFhe => run_openfhe_workload(num_operations),
    };
    let n = num_operations as u64;
    proof {
        vstd::arithmetic::div_mod::lemma_div_nonincreasing(
            totals.encode + totals.encrypt,
            n as int,
        );
        vstd::arithmetic::div_mod::lemma_div_nonincreasing(totals.addition as int, n as int);
        vstd::arithmetic::div_mod::lemma_div_nonincreasing(
            totals.multiplication as int,
            n as int,
        );
        vstd::arithmetic::div_mod::lemma_div_nonincreasing(totals.decrypt as int, n as int);
    }
    let report = BenchmarkReport {
        key_gen_time_ms: totals.setup,
        encryption_time_ms: (totals.encode + totals.encrypt) / n,
        addition_time_ms: totals.addition / n,
        multiplication_time_ms: totals.multiplication / n,
        decryption_time_ms: totals.decrypt / n,
    };
    let metrics = PhaseMetrics::assemble(
        totals.setup,
        totals.encode,
        totals.encrypt,
        totals.addition + totals.multiplication,
        totals.decrypt,
    );
    Ok(
        ComparisonResult {
            backend,
            description: "fixed workload: encode two values, encrypt, add, multiply, decrypt",
            operations: num_operations,
            metrics,
            report,
        },
    )
}

/// Runs the same workload against all three backends and returns one
/// comparison record per backend, in a fixed order: SEAL, HElib, OpenFHE.
///
/// Fails with `InvalidParameter` exactly when `num_operations` is zero.
pub fn compare_backends(num_operations: u32) -> (r: Result<Vec<ComparisonResult>, HeError>)
    ensures
        r is Ok <==> num_operations >= 1,
        r is Err ==> r->Err_0 is InvalidParameter,
        r is Ok ==> {
            let results = r->Ok_0@;
            &&& results.len() == 3
            &&& results[0].spec_backend() == BackendTag::Seal
            &&& results[1].spec_backend() == BackendTag::Helib
            &&& results[2].spec_backend() == BackendTag::OpenFhe
            &&& forall|i: int|
                0 <= i < 3 ==> (#[trigger] results[i]).spec_operations() == num_operations
        },
{
    if num_operations == 0 {
        return Err(HeError::InvalidParameter);
    }
    let mut results: Vec<ComparisonResult> = Vec::new();
    let seal = match run_comparison(BackendTag::Seal, num_operations) {
        Ok(result) => result,
        Err(e) => {
            return Err(e);
        },
    };
    results.push(seal);
    let helib = match run_comparison(BackendTag::Helib, num_operations) {
        Ok(result) => result,
        Err(e) => {
            return Err(e);
        },
    };
    results.push(helib);
    let openfhe = match run_comparison(BackendTag::OpenFhe, num_operations) {
        Ok(result) => result,
        Err(e) => {
            return Err(e);
        },
    };
    results.push(openfhe);
    Ok(results)
}

} // verus!
