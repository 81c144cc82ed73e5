//! The HElib backend: a BGV-style scheme over single integers. This backend
//! is scalar-only — one plaintext carries exactly one value of the message
//! space — and its context is parameterised by a cyclotomic index `m` (which
//! must be odd), a plaintext modulus `p` and a lifting parameter `r`.
//!
//! The native state is modelled by its observable behaviour: a plaintext is a
//! residue modulo `p`, a ciphertext is a residue together with the noise
//! budget that multiplications consume, and keys carry the parameters of the
//! context they were derived from.
//!
//! At this layer a context is identified by its parameter set; the session
//! layer above stamps every serialized ciphertext with a per-context identity
//! on top, so that even two contexts with equal parameters never mix.

use vstd::prelude::*;

use crate::modring::add_mod;
use crate::modring::min_budget;
use crate::modring::modulus_ok;
use crate::modring::mul_budget;
use crate::modring::mul_mod;
use crate::modring::sub_mod;
use crate::modring::add_in_modulus;
use crate::modring::mul_in_modulus;
use crate::modring::sub_in_modulus;
use crate::errors::HeError;

verus! {

/// A failure of the HElib backend.
#[derive(Clone, Copy, Debug, PartialEq, Eq, Structural)]
pub enum HElibError {
    /// A native allocation or call returned no handle.
    NullPointer,
    /// Context parameters or a plaintext value violate a backend constraint.
    InvalidParameter,
    /// The native encrypt call signalled failure.
    EncryptionFailed,
    /// The native decrypt call signalled failure, including an exhausted
    /// noise budget.
    DecryptionFailed,
    /// A native homomorphic operation signalled failure.
    OperationFailed,
    /// The operands of an operation come from different contexts.
    BackendMismatch,
}

impl HElibError {
    /// A short human-readable description of the failure.
    pub fn message(&self) -> (m: &'static str)
        ensures
            self is NullPointer ==> m@ == "Null pointer returned from HElib"@,
            self is InvalidParameter ==> m@ == "Invalid parameter provided"@,
            self is EncryptionFailed ==> m@ == "Encryption operation failed"@,
            self is DecryptionFailed ==> m@ == "Decryption operation failed"@,
            self is OperationFailed ==> m@ == "HElib operation failed"@,
            self is BackendMismatch ==> m@ == "Operands come from different contexts"@,
    {
        match self {
            HElibError::NullPointer => "Null pointer returned from HElib",
            HElibError::InvalidParameter => "Invalid parameter provided",
            HElibError::EncryptionFailed => "Encryption operation failed",
            HElibError::DecryptionFailed => "Decryption operation failed",
            HElibError::OperationFailed => "HElib operation failed",
            HElibError::BackendMismatch => "Operands come from different contexts",
        }
    }

    /// This failure in the uniform taxonomy of the session layer.
    pub fn to_he_error(&self) -> (e: HeError)
        ensures
            e is NullPointer <==> self is NullPointer,
            e is InvalidParameter <==> self is InvalidParameter,
            e is EncryptionFailed <==> self is EncryptionFailed,
            e is DecryptionFailed <==> self is DecryptionFailed,
            e is OperationFailed <==> self is OperationFailed,
            e is BackendMismatch <==> self is BackendMismatch,
    {
        match self {
            HElibError::NullPointer => HeError::NullPointer,
            HElibError::InvalidParameter => HeError::InvalidParameter,
            HElibError::EncryptionFailed => HeError::EncryptionFailed,
            HElibError::DecryptionFailed => HeError::DecryptionFailed,
            HElibError::OperationFailed => HeError::OperationFailed,
            HElibError::BackendMismatch => HeError::BackendMismatch,
        }
    }
}

/// HElib accepts a context parameterisation with an odd cyclotomic index of
/// at least 3, a workable plaintext modulus and a positive lifting parameter.
pub open spec fn helib_params_ok(m: u64, p: u64, r: u64) -> bool {
    &&& m >= 3
    &&& m % 2 == 1
    &&& modulus_ok(p)
    &&& r >= 1
}

/// The noise budget a fresh HElib ciphertext starts with, as a function of
/// the cyclotomic index: a larger ring leaves more multiplicative depth.
pub open spec fn helib_initial_budget(m: u64) -> u32 {
    if m >= 8191 {
        90
    } else if m >= 4095 {
        60
    } else {
        30
    }
}

/// The native HElib context state: the parameters the ring was built from.
pub struct HElibContext {
    m: u64,
    p: u64,
    r: u64,
}

impl HElibContext {
    #[verifier::type_invariant]
    spec fn wf(self) -> bool {
        helib_params_ok(self.m, self.p, self.r)
    }

    /// The cyclotomic index the context was built with.
    pub closed spec fn cyclotomic_index(self) -> u64 {
        self.m
    }

    /// The plaintext modulus the context was built with.
    pub closed spec fn plain_modulus(self) -> u64 {
        self.p
    }

    /// The lifting parameter the context was built with.
    pub closed spec fn lifting(self) -> u64 {
        self.r
    }
}

/// The native HElib secret-key state: key material bound to one context.
pub struct HElibSecretKey {
    m: u64,
    p: u64,
}

impl HElibSecretKey {
    #[verifier::type_invariant]
    spec fn wf(self) -> bool {
        modulus_ok(self.p)
    }

    /// The cyclotomic index of the context the key derives from.
    pub closed spec fn cyclotomic_index(self) -> u64 {
        self.m
    }

    /// The plaintext modulus of the context the key derives from.
    pub closed spec fn plain_modulus(self) -> u64 {
        self.p
    }
}

/// The native HElib public-key state: key material bound to one context.
pub struct HElibPublicKey {
    m: u64,
    p: u64,
}

impl HElibPublicKey {
    #[verifier::type_invariant]
    spec fn wf(self) -> bool {
        modulus_ok(self.p)
    }

    /// The cyclotomic index of the context the key derives from.
    pub closed spec fn cyclotomic_index(self) -> u64 {
        self.m
    }

    /// The plaintext modulus of the context the key derives from.
    pub closed spec fn plain_modulus(self) -> u64 {
        self.p
    }
}

/// The native HElib plaintext state: one residue of the message space.
pub struct HElibPlaintext {
    value: u64,
    p: u64,
}

impl HElibPlaintext {
    #[verifier::type_invariant]
    spec fn wf(self) -> bool {
        modulus_ok(self.p) && self.value < self.p
    }

    /// The residue this plaintext encodes.
    pub closed spec fn residue(self) -> u64 {
        self.value
    }

    /// The plaintext modulus this plaintext was encoded under.
    pub closed spec fn modulus(self) -> u64 {
        self.p
    }
}

/// The native HElib ciphertext state: an encrypted residue and the noise
/// budget that remains for multiplications.
pub struct HElibCiphertext {
    value: u64,
    p: u64,
    noise_budget: u32,
}

impl HElibCiphertext {
    #[verifier::type_invariant]
    spec fn wf(self) -> bool {
        modulus_ok(self.p) && self.value < self.p && self.noise_budget <= 0x7FFF_FFFF
    }

    /// The residue this ciphertext decrypts to while its budget lasts.
    pub closed spec fn residue(self) -> u64 {
        self.value
    }

    /// The plaintext modulus this ciphertext was produced under.
    pub closed spec fn modulus(self) -> u64 {
        self.p
    }

    /// The remaining noise budget.
    pub closed spec fn budget(self) -> u32 {
        self.noise_budget
    }
}

/// An HElib context, exclusively owning the native ring description.
pub struct HEContext {
    native: HElibContext,
}

impl HEContext {
    /// The cyclotomic index the context was built with.
    pub closed spec fn cyclotomic_index(self) -> u64 {
        self.native.cyclotomic_index()
    }

    /// The plaintext modulus the context was built with.
    pub closed spec fn plain_modulus(self) -> u64 {
        self.native.plain_modulus()
    }

    /// The lifting parameter the context was built with.
    pub closed spec fn lifting(self) -> u64 {
        self.native.lifting()
    }

    /// Builds a new HElib context.
    ///
    /// The cyclotomic index `m` must be odd and at least 3, the plaintext
    /// modulus `p` must lie between 2 and [`crate::MAX_PLAIN_MODULUS`], and
    /// the lifting parameter `r` must be positive; any violation is rejected
    /// with `InvalidParameter`.
    pub fn new(m: u64, p: u64, r: u64) -> (result: Result<HEContext, HElibError>)
        ensures
            result is Ok <==> helib_params_ok(m, p, r),
            result is Ok ==> {
                let c = result->Ok_0;
                c.cyclotomic_index() == m && c.plain_modulus() == p && c.lifting() == r
            },
            result is Err ==> result->Err_0 is InvalidParameter,
    {
        if m >= 3 && m % 2 == 1 && p >= 2 && p <= crate::modring::MAX_PLAIN_MODULUS && r >= 1 {
            Ok(HEContext { native: HElibContext { m, p, r } })
        } else {
            Err(HElibError::InvalidParameter)
        }
    }
}

/// An HElib secret key, derived from exactly one context.
pub struct HESecretKey {
    native: HElibSecretKey,
}

impl HESecretKey {
    /// The cyclotomic index of the context the key derives from.
    pub closed spec fn cyclotomic_index(self) -> u64 {
        self.native.cyclotomic_index()
    }

    /// The plaintext modulus of the context the key derives from.
    pub closed spec fn plain_modulus(self) -> u64 {
        self.native.plain_modulus()
    }

    /// Generates a secret key from the given context.
    pub fn generate(context: &HEContext) -> (result: Result<HESecretKey, HElibError>)
        ensures
            result is Ok,
            result->Ok_0.cyclotomic_index() == context.cyclotomic_index(),
            result->Ok_0.plain_modulus() == context.plain_modulus(),
    {
        proof {
            use_type_invariant(&context.native);
        }
        Ok(
            HESecretKey {
                native: HElibSecretKey {
                    m: context.native.m,
                    p: context.native.p,
                },
            },
        )
    }

    /// Derives the public key that matches this secret key.
    pub fn public_key(&self) -> (result: Result<HEPublicKey, HElibError>)
        ensures
            result is Ok,
            result->Ok_0.cyclotomic_index() == self.cyclotomic_index(),
            result->Ok_0.plain_modulus() == self.plain_modulus(),
    {
        proof {
            use_type_invariant(&self.native);
        }
        Ok(
            HEPublicKey {
                native: HElibPublicKey {
                    m: self.native.m,
                    p: self.native.p,
                },
            },
        )
    }

    /// Decrypts a ciphertext produced under the same context.
    ///
    /// Decryption succeeds exactly when the ciphertext belongs to this key's
    /// context and its noise budget is not exhausted; it then returns the
    /// residue the ciphertext carries.
    pub fn decrypt(&self, ciphertext: &HECiphertext) -> (result: Result<
        HEPlaintext,
        HElibError,
    >)
        ensures
            result is Ok <==> (self.plain_modulus() == ciphertext.modulus()
                && ciphertext.budget() > 0),
            result is Ok ==> {
                let p = result->Ok_0;
                p.residue() == ciphertext.residue() && p.modulus() == ciphertext.modulus()
            },
            result is Err ==> result->Err_0 is DecryptionFailed,
    {
        proof {
            use_type_invariant(&self.native);
            use_type_invariant(&ciphertext.native);
        }
        if self.native.p == ciphertext.native.p && ciphertext.native.noise_budget > 0 {
            Ok(
                HEPlaintext {
                    native: HElibPlaintext {
                        value: ciphertext.native.value,
                        p: ciphertext.native.p,
                    },
                },
            )
        } else {
            Err(HElibError::DecryptionFailed)
        }
    }

    /// Reads the remaining noise budget of a ciphertext: a non-negative
    /// estimate of the multiplicative depth that is left. Diagnostic only.
    pub fn noise_budget(&self, ciphertext: &HECiphertext) -> (budget: i32)
        ensures
            budget == ciphertext.budget() as i32,
            budget >= 0,
    {
        proof {
            use_type_invariant(&ciphertext.native);
        }
        ciphertext.native.noise_budget as i32
    }
}

/// An HElib public key, derived from exactly one context; any encryptor
/// within the same session may share it read-only.
pub struct HEPublicKey {
    native: HElibPublicKey,
}

impl HEPublicKey {
    /// The cyclotomic index of the context the key derives from.
    pub closed spec fn cyclotomic_index(self) -> u64 {
        self.native.cyclotomic_index()
    }

    /// The plaintext modulus of the context the key derives from.
    pub closed spec fn plain_modulus(self) -> u64 {
        self.native.plain_modulus()
    }

    /// Encrypts a plaintext encoded under the same context.
    ///
    /// Encryption succeeds exactly when the plaintext was encoded under this
    /// key's context; the fresh ciphertext carries the plaintext's residue
    /// and the full initial noise budget of the ring.
    pub fn encrypt(&self, plaintext: &HEPlaintext) -> (result: Result<HECiphertext, HElibError>)
        ensures
            result is Ok <==> self.plain_modulus() == plaintext.modulus(),
            result is Ok ==> {
                let c = result->Ok_0;
                &&& c.residue() == plaintext.residue()
                &&& c.modulus() == plaintext.modulus()
                &&& c.budget() == helib_initial_budget(self.cyclotomic_index())
            },
            result is Err ==> result->Err_0 is BackendMismatch,
    {
        proof {
            use_type_invariant(&self.native);
            use_type_invariant(&plaintext.native);
        }
        if self.native.p == plaintext.native.p {
            let budget: u32 = if self.native.m >= 8191 {
                90
            } else if self.native.m >= 4095 {
                60
            } else {
                30
            };
            Ok(
                HECiphertext {
                    native: HElibCiphertext {
                        value: plaintext.native.value,
                        p: plaintext.native.p,
                        noise_budget: budget,
                    },
                },
            )
        } else {
            Err(HElibError::BackendMismatch)
        }
    }
}

/// An HElib plaintext: one value of the message space, immutable once built.
pub struct HEPlaintext {
    native: HElibPlaintext,
}

impl HEPlaintext {
    /// The residue this plaintext encodes.
    pub closed spec fn residue(self) -> u64 {
        self.native.residue()
    }

    /// The plaintext modulus this plaintext was encoded under.
    pub closed spec fn modulus(self) -> u64 {
        self.native.modulus()
    }

    /// Encodes one value into the message space of the given context.
    ///
    /// The value must already be a residue: at least zero and below the
    /// context's plaintext modulus. Anything else is rejected with
    /// `InvalidParameter` rather than silently reduced.
    pub fn new(context: &HEContext, value: i64) -> (result: Result<HEPlaintext, HElibError>)
        ensures
            result is Ok <==> (0 <= value < context.plain_modulus()),
            result is Ok ==> {
                let p = result->Ok_0;
                p.residue() == value as u64 && p.modulus() == context.plain_modulus()
            },
            result is Err ==> result->Err_0 is InvalidParameter,
    {
        proof {
            use_type_invariant(&context.native);
        }
        if value >= 0 && (value as u64) < context.native.p {
            Ok(
                HEPlaintext {
                    native: HElibPlaintext {
                        value: value as u64,
                        p: context.native.p,
                    },
                },
            )
        } else {
            Err(HElibError::InvalidParameter)
        }
    }

    /// Reads the encoded value back out of the message space.
    pub fn value(&self) -> (v: i64)
        ensures
            v == self.residue() as i64,
            v >= 0,
    {
        proof {
            use_type_invariant(&self.native);
        }
        self.native.value as i64
    }
}

/// An HElib ciphertext: an encrypted residue with its remaining noise budget.
pub struct HECiphertext {
    native: HElibCiphertext,
}

impl HECiphertext {
    /// The residue this ciphertext decrypts to while its budget lasts.
    pub closed spec fn residue(self) -> u64 {
        self.native.residue()
    }

    /// The plaintext modulus this ciphertext was produced under.
    pub closed spec fn modulus(self) -> u64 {
        self.native.modulus()
    }

    /// The remaining noise budget.
    pub closed spec fn budget(self) -> u32 {
        self.native.budget()
    }

    /// Hands out the recorded parts of the ciphertext — residue, modulus and
    /// noise budget — for serialisation within the library.
    pub fn export(&self) -> (parts: (u64, u64, u32))
        ensures
            parts.0 == self.residue(),
            parts.1 == self.modulus(),
            parts.2 == self.budget(),
            modulus_ok(parts.1),
            parts.0 < parts.1,
            parts.2 <= 0x7FFF_FFFF,
    {
        proof {
            use_type_invariant(&self.native);
        }
        (self.native.value, self.native.p, self.native.noise_budget)
    }

    /// Rebuilds a ciphertext from its recorded parts, for deserialisation
    /// within the library.
    pub(crate) fn from_parts(value: u64, p: u64, noise_budget: u32) -> (c: HECiphertext)
        requires
            modulus_ok(p),
            value < p,
            noise_budget <= 0x7FFF_FFFF,
        ensures
            c.residue() == value,
            c.modulus() == p,
            c.budget() == noise_budget,
    {
        HECiphertext { native: HElibCiphertext { value, p, noise_budget } }
    }

    /// Homomorphic addition.
    ///
    /// Succeeds exactly when both operands were produced under the same
    /// context; the sum carries the smaller of the two noise budgets, since
    /// addition consumes no multiplicative depth.
    pub fn add(&self, other: &HECiphertext) -> (result: Result<HECiphertext, HElibError>)
        ensures
            result is Ok <==> self.modulus() == other.modulus(),
            result is Ok ==> {
                let c = result->Ok_0;
                &&& c.residue() == add_mod(self.residue(), other.residue(), self.modulus())
                &&& c.modulus() == self.modulus()
                &&& c.budget() == min_budget(self.budget(), other.budget())
            },
            result is Err ==> result->Err_0 is BackendMismatch,
    {
        proof {
            use_type_invariant(&self.native);
            use_type_invariant(&other.native);
        }
        if self.native.p == other.native.p {
            let value = add_in_modulus(self.native.value, other.native.value, self.native.p);
            let noise_budget = if self.native.noise_budget <= other.native.noise_budget {
                self.native.noise_budget
            } else {
                other.native.noise_budget
            };
            Ok(HECiphertext { native: HElibCiphertext { value, p: self.native.p, noise_budget } })
        } else {
            Err(HElibError::BackendMismatch)
        }
    }

    /// Homomorphic multiplication.
    ///
    /// Succeeds exactly when both operands were produced under the same
    /// context. The product's noise budget is strictly below both operands'
    /// budgets whenever those are positive: multiplication consumes one unit
    /// of multiplicative depth.
    pub fn multiply(&self, other: &HECiphertext) -> (result: Result<HECiphertext, HElibError>)
        ensures
            result is Ok <==> self.modulus() == other.modulus(),
            result is Ok ==> {
                let c = result->Ok_0;
                &&& c.residue() == mul_mod(self.residue(), other.residue(), self.modulus())
                &&& c.modulus() == self.modulus()
                &&& c.budget() == mul_budget(self.budget(), other.budget())
            },
            result is Ok && self.budget() > 0 && other.budget() > 0 ==> result->Ok_0.budget()
                < min_budget(self.budget(), other.budget()),
            result is Err ==> result->Err_0 is BackendMismatch,
    {
        proof {
            use_type_invariant(&self.native);
            use_type_invariant(&other.native);
        }
        if self.native.p == other.native.p {
            let value = mul_in_modulus(self.native.value, other.native.value, self.native.p);
            let m = if self.native.noise_budget <= other.native.noise_budget {
                self.native.noise_budget
            } else {
                other.native.noise_budget
            };
            let noise_budget: u32 = if m > 0 {
                m - 1
            } else {
                0
            };
            Ok(HECiphertext { native: HElibCiphertext { value, p: self.native.p, noise_budget } })
        } else {
            Err(HElibError::BackendMismatch)
        }
    }

    /// Homomorphic subtraction.
    ///
    /// Succeeds exactly when both operands were produced under the same
    /// context; like addition it consumes no multiplicative depth.
    pub fn subtract(&self, other: &HECiphertext) -> (result: Result<HECiphertext, HElibError>)
        ensures
            result is Ok <==> self.modulus() == other.modulus(),
            result is Ok ==> {
                let c = result->Ok_0;
                &&& c.residue() == sub_mod(self.residue(), other.residue(), self.modulus())
                &&& c.modulus() == self.modulus()
                &&& c.budget() == min_budget(self.budget(), other.budget())
            },
            result is Err ==> result->Err_0 is BackendMismatch,
    {
        proof {
            use_type_invariant(&self.native);
            use_type_invariant(&other.native);
        }
        if self.native.p == other.native.p {
            let value = sub_in_modulus(self.native.value, other.native.value, self.native.p);
            let noise_budget = if self.native.noise_budget <= other.native.noise_budget {
                self.native.noise_budget
            } else {
                other.native.noise_budget
            };
            Ok(HECiphertext { native: HElibCiphertext { value, p: self.native.p, noise_budget } })
        } else {
            Err(HElibError::BackendMismatch)
        }
    }
}

} // verus!
