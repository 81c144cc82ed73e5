//! The OpenFHE backend: a BFV scheme over batched integer vectors, with its
//! own parameterisation and noise profile. Like SEAL it packs up to
//! `poly_modulus_degree` values into the slots of one plaintext; it differs
//! in the initial noise budget its ring leaves for multiplications.
//!
//! The native state is modelled by its observable behaviour, as for the other
//! backends: plaintexts are vectors of residues, ciphertexts add the noise
//! budget that multiplications consume, and keys carry the parameters of the
//! crypto context they were derived from.
//!
//! At this layer a context is identified by its parameter set; the session
//! layer above stamps every serialized ciphertext with a per-context identity
//! on top, so that even two contexts with equal parameters never mix.

use vstd::prelude::*;

use crate::modring::add_slots;
use crate::modring::add_slots_spec;
use crate::modring::copy_slots;
use crate::modring::min_budget;
use crate::modring::modulus_ok;
use crate::modring::mul_budget;
use crate::modring::mul_slots;
use crate::modring::mul_slots_spec;
use crate::modring::slots_ok;
use crate::modring::sub_slots;
use crate::modring::sub_slots_spec;
use crate::seal::check_power_of_two;
use crate::seal::degree_is_power_of_two;
use crate::errors::HeError;

verus! {

/// A failure of the OpenFHE backend.
#[derive(Debug)]
pub enum OpenFHEError {
    /// A native allocation or call returned no handle.
    NullPointer,
    /// Context parameters, a value count or a slot value violate a backend
    /// constraint.
    InvalidParameter,
    /// The native encrypt call signalled failure.
    EncryptionFailed,
    /// The native decrypt call signalled failure, including an exhausted
    /// noise budget.
    DecryptionFailed,
    /// A native homomorphic operation signalled failure, including operands
    /// whose slot counts disagree.
    OperationFailed,
    /// The operands of an operation come from different contexts.
    BackendMismatch,
    /// A failure the native layer reported only as free-form text.
    Unknown(String),
}

impl OpenFHEError {
    /// A human-readable description of the failure; an `Unknown` failure
    /// carries the native layer's free-form text after the fixed prefix.
    pub fn message(&self) -> (m: String)
        ensures
            self is NullPointer ==> m@ == "Null pointer returned from OpenFHE"@,
            self is InvalidParameter ==> m@ == "Invalid parameter"@,
            self is EncryptionFailed ==> m@ == "Encryption failed"@,
            self is DecryptionFailed ==> m@ == "Decryption failed"@,
            self is OperationFailed ==> m@ == "Operation failed"@,
            self is BackendMismatch ==> m@ == "Operands come from different contexts"@,
            self matches OpenFHEError::Unknown(detail) ==> m@ == "Unknown error: "@ + detail@,
    {
        match self {
            OpenFHEError::NullPointer => String::from_str("Null pointer returned from OpenFHE"),
            OpenFHEError::InvalidParameter => String::from_str("Invalid parameter"),
            OpenFHEError::EncryptionFailed => String::from_str("Encryption failed"),
            OpenFHEError::DecryptionFailed => String::from_str("Decryption failed"),
            OpenFHEError::OperationFailed => String::from_str("Operation failed"),
            OpenFHEError::BackendMismatch => String::from_str(
                "Operands come from different contexts",
            ),
            OpenFHEError::Unknown(detail) => {
                let mut m = String::from_str("Unknown error: ");
                m.append(detail.as_str());
                m
            },
        }
    }

    /// This failure in the uniform taxonomy of the session layer.
    pub fn to_he_error(&self) -> (e: HeError)
        ensures
            e is NullPointer <==> self is NullPointer,
            e is InvalidParameter <==> self is InvalidParameter,
            e is EncryptionFailed <==> self is EncryptionFailed,
            e is DecryptionFailed <==> self is DecryptionFailed,
            e is OperationFailed <==> (self is OperationFailed || self is Unknown),
            e is BackendMismatch <==> self is BackendMismatch,
    {
        match self {
            OpenFHEError::NullPointer => HeError::NullPointer,
            OpenFHEError::InvalidParameter => HeError::InvalidParameter,
            OpenFHEError::EncryptionFailed => HeError::EncryptionFailed,
            OpenFHEError::DecryptionFailed => HeError::DecryptionFailed,
            OpenFHEError::OperationFailed => HeError::OperationFailed,
            OpenFHEError::BackendMismatch => HeError::BackendMismatch,
            OpenFHEError::Unknown(_) => HeError::OperationFailed,
        }
    }
}

/// OpenFHE accepts a BFV parameterisation with a power-of-two ring dimension
/// between 1024 and 65536 and a workable plaintext modulus.
pub open spec fn openfhe_params_ok(poly_modulus_degree: u64, plain_modulus: u64) -> bool {
    &&& degree_is_power_of_two(poly_modulus_degree)
    &&& 1024 <= poly_modulus_degree <= 65536
    &&& modulus_ok(plain_modulus)
}

/// The noise budget a fresh OpenFHE ciphertext starts with, as a function of
/// the ring dimension: a larger ring leaves more multiplicative depth.
pub open spec fn openfhe_initial_budget(poly_modulus_degree: u64) -> u32 {
    if poly_modulus_degree >= 8192 {
        100
    } else if poly_modulus_degree >= 4096 {
        50
    } else {
        16
    }
}

/// An OpenFHE crypto context, exclusively owning the native ring description.
pub struct OpenFHEContext {
    poly_modulus_degree: u64,
    plain_modulus: u64,
}

impl OpenFHEContext {
    #[verifier::type_invariant]
    spec fn wf(self) -> bool {
        openfhe_params_ok(self.poly_modulus_degree, self.plain_modulus)
    }

    /// The ring dimension the context was built with. One batched plaintext
    /// packs up to this many values.
    pub closed spec fn degree(self) -> u64 {
        self.poly_modulus_degree
    }

    /// The plaintext modulus the context was built with.
    pub closed spec fn plain_modulus(self) -> u64 {
        self.plain_modulus
    }

    /// Builds a new OpenFHE crypto context with the BFV scheme.
    ///
    /// The ring dimension must be a power of two between 1024 and 65536 and
    /// the plaintext modulus must lie between 2 and
    /// [`crate::MAX_PLAIN_MODULUS`]; any violation is rejected with
    /// `InvalidParameter`.
    pub fn new(poly_modulus_degree: u64, plain_modulus: u64) -> (result: Result<
        OpenFHEContext,
        OpenFHEError,
    >)
        ensures
            result is Ok <==> openfhe_params_ok(poly_modulus_degree, plain_modulus),
            result is Ok ==> {
                let c = result->Ok_0;
                c.degree() == poly_modulus_degree && c.plain_modulus() == plain_modulus
            },
            result is Err ==> result->Err_0 is InvalidParameter,
    {
        if check_power_of_two(poly_modulus_degree) && 1024 <= poly_modulus_degree
            && poly_modulus_degree <= 65536 && 2 <= plain_modulus && plain_modulus
            <= crate::modring::MAX_PLAIN_MODULUS {
            Ok(OpenFHEContext { poly_modulus_degree, plain_modulus })
        } else {
            Err(OpenFHEError::InvalidParameter)
        }
    }

    /// Generates the key pair of this context.
    pub fn generate_keys(&self) -> (result: Result<
        (OpenFHESecretKey, OpenFHEPublicKey),
        OpenFHEError,
    >)
        ensures
            result is Ok,
            result is Ok ==> {
                let (sk, pk) = result->Ok_0;
                &&& sk.degree() == self.degree()
                &&& sk.plain_modulus() == self.plain_modulus()
                &&& pk.degree() == self.degree()
                &&& pk.plain_modulus() == self.plain_modulus()
            },
    {
        proof {
            use_type_invariant(&*self);
        }
        Ok(
            (
                OpenFHESecretKey {
                    poly_modulus_degree: self.poly_modulus_degree,
                    plain_modulus: self.plain_modulus,
                },
                OpenFHEPublicKey {
                    poly_modulus_degree: self.poly_modulus_degree,
                    plain_modulus: self.plain_modulus,
                },
            ),
        )
    }

    /// Batch-encodes a vector of values into the slots of one plaintext.
    ///
    /// Encoding succeeds exactly when there is at least one value, the values
    /// fit the slot capacity of the ring, and every value is a residue of the
    /// message space; anything else is rejected with `InvalidParameter`
    /// rather than silently truncated or reduced.
    pub fn encode(&self, values: &Vec<u64>) -> (result: Result<OpenFHEPlaintext, OpenFHEError>)
        ensures
            result is Ok <==> (1 <= values@.len() <= self.degree() && slots_ok(
                values@,
                self.plain_modulus(),
            )),
            result is Ok ==> {
                let p = result->Ok_0;
                p.slots() == values@ && p.modulus() == self.plain_modulus()
            },
            result is Err ==> result->Err_0 is InvalidParameter,
    {
        proof {
            use_type_invariant(&*self);
        }
        if values.len() == 0 {
            return Err(OpenFHEError::InvalidParameter);
        }
        if values.len() as u64 > self.poly_modulus_degree {
            return Err(OpenFHEError::InvalidParameter);
        }
        let mut i: usize = 0;
        while i < values.len()
            invariant
                i <= values@.len(),
                forall|j: int| 0 <= j < i ==> values@[j] < self.plain_modulus,
            decreases values@.len() - i,
        {
            if values[i] >= self.plain_modulus {
                return Err(OpenFHEError::InvalidParameter);
            }
            i += 1;
        }
        let slots = copy_slots(values);
        Ok(OpenFHEPlaintext { slots, plain_modulus: self.plain_modulus })
    }
}

/// An OpenFHE secret key, derived from exactly one crypto context.
pub struct OpenFHESecretKey {
    poly_modulus_degree: u64,
    plain_modulus: u64,
}

impl OpenFHESecretKey {
    #[verifier::type_invariant]
    spec fn wf(self) -> bool {
        modulus_ok(self.plain_modulus)
    }

    /// The ring dimension of the context the key derives from.
    pub closed spec fn degree(self) -> u64 {
        self.poly_modulus_degree
    }

    /// The plaintext modulus of the context the key derives from.
    pub closed spec fn plain_modulus(self) -> u64 {
        self.plain_modulus
    }

    /// Decrypts a ciphertext produced under the same context.
    ///
    /// Decryption succeeds exactly when the ciphertext belongs to this key's
    /// context and its noise budget is not exhausted; it then returns the
    /// slots the ciphertext carries.
    pub fn decrypt(&self, ciphertext: &OpenFHECiphertext) -> (result: Result<
        OpenFHEPlaintext,
        OpenFHEError,
    >)
        ensures
            result is Ok <==> (self.plain_modulus() == ciphertext.modulus()
                && ciphertext.budget() > 0),
            result is Ok ==> {
                let p = result->Ok_0;
                p.slots() == ciphertext.slots() && p.modulus() == ciphertext.modulus()
            },
            result is Err ==> result->Err_0 is DecryptionFailed,
    {
        proof {
            use_type_invariant(&*self);
            use_type_invariant(&*ciphertext);
        }
        if self.plain_modulus == ciphertext.plain_modulus && ciphertext.noise_budget > 0 {
            let slots = copy_slots(&ciphertext.slots);
            Ok(OpenFHEPlaintext { slots, plain_modulus: ciphertext.plain_modulus })
        } else {
            Err(OpenFHEError::DecryptionFailed)
        }
    }

    /// Reads the remaining noise budget of a ciphertext: a non-negative
    /// estimate of the multiplicative depth that is left. Diagnostic only.
    pub fn noise_budget(&self, ciphertext: &OpenFHECiphertext) -> (budget: i32)
        ensures
            budget == ciphertext.budget() as i32,
            budget >= 0,
    {
        proof {
            use_type_invariant(&*ciphertext);
        }
        ciphertext.noise_budget as i32
    }
}

/// An OpenFHE public key, derived from exactly one crypto context.
pub struct OpenFHEPublicKey {
    poly_modulus_degree: u64,
    plain_modulus: u64,
}

impl OpenFHEPublicKey {
    #[verifier::type_invariant]
    spec fn wf(self) -> bool {
        modulus_ok(self.plain_modulus)
    }

    /// The ring dimension of the context the key derives from.
    pub closed spec fn degree(self) -> u64 {
        self.poly_modulus_degree
    }

    /// The plaintext modulus of the context the key derives from.
    pub closed spec fn plain_modulus(self) -> u64 {
        self.plain_modulus
    }

    /// Encrypts a plaintext encoded under the same context.
    ///
    /// Encryption succeeds exactly when the plaintext was encoded under this
    /// key's context; the fresh ciphertext carries the plaintext's slots and
    /// the full initial noise budget of the ring.
    pub fn encrypt(&self, plaintext: &OpenFHEPlaintext) -> (result: Result<
        OpenFHECiphertext,
        OpenFHEError,
    >)
        ensures
            result is Ok <==> self.plain_modulus() == plaintext.modulus(),
            result is Ok ==> {
                let c = result->Ok_0;
                &&& c.slots() == plaintext.slots()
                &&& c.modulus() == plaintext.modulus()
                &&& c.budget() == openfhe_initial_budget(self.degree())
            },
            result is Err ==> result->Err_0 is BackendMismatch,
    {
        proof {
            use_type_invariant(&*self);
            use_type_invariant(&*plaintext);
        }
        if self.plain_modulus == plaintext.plain_modulus {
            let budget: u32 = if self.poly_modulus_degree >= 8192 {
                100
            } else if self.poly_modulus_degree >= 4096 {
                50
            } else {
                16
            };
            let slots = copy_slots(&plaintext.slots);
            Ok(
                OpenFHECiphertext {
                    slots,
                    plain_modulus: plaintext.plain_modulus,
                    noise_budget: budget,
                },
            )
        } else {
            Err(OpenFHEError::BackendMismatch)
        }
    }
}

/// An OpenFHE plaintext: a batched vector of residues, immutable once built.
pub struct OpenFHEPlaintext {
    slots: Vec<u64>,
    plain_modulus: u64,
}

impl OpenFHEPlaintext {
    #[verifier::type_invariant]
    spec fn wf(self) -> bool {
        modulus_ok(self.plain_modulus) && slots_ok(self.slots@, self.plain_modulus)
    }

    /// The residues this plaintext packs, slot by slot.
    pub closed spec fn slots(self) -> Seq<u64> {
        self.slots@
    }

    /// The plaintext modulus this plaintext was encoded under.
    pub closed spec fn modulus(self) -> u64 {
        self.plain_modulus
    }

    /// Reads the packed residues back out of the slots.
    pub fn values(&self) -> (v: Vec<u64>)
        ensures
            v@ == self.slots(),
    {
        copy_slots(&self.slots)
    }
}

/// An OpenFHE ciphertext: encrypted slots and the noise budget that remains
/// for multiplications.
pub struct OpenFHECiphertext {
    slots: Vec<u64>,
    plain_modulus: u64,
    noise_budget: u32,
}

impl OpenFHECiphertext {
    #[verifier::type_invariant]
    spec fn wf(self) -> bool {
        &&& modulus_ok(self.plain_modulus)
        &&& slots_ok(self.slots@, self.plain_modulus)
        &&& self.noise_budget <= 0x7FFF_FFFF
    }

    /// The residues this ciphertext decrypts to while its budget lasts.
    pub closed spec fn slots(self) -> Seq<u64> {
        self.slots@
    }

    /// The plaintext modulus this ciphertext was produced under.
    pub closed spec fn modulus(self) -> u64 {
        self.plain_modulus
    }

    /// The remaining noise budget.
    pub closed spec fn budget(self) -> u32 {
        self.noise_budget
    }

    /// Hands out the recorded parts of the ciphertext — slots, modulus and
    /// noise budget — for serialisation within the library.
    pub fn export(&self) -> (parts: (Vec<u64>, u64, u32))
        ensures
            parts.0@ == self.slots(),
            parts.1 == self.modulus(),
            parts.2 == self.budget(),
            modulus_ok(parts.1),
            slots_ok(parts.0@, parts.1),
            parts.2 <= 0x7FFF_FFFF,
    {
        proof {
            use_type_invariant(&*self);
        }
        let slots = crate::modring::copy_slots(&self.slots);
        (slots, self.plain_modulus, self.noise_budget)
    }

    /// Rebuilds a ciphertext from its recorded parts, for deserialisation
    /// within the library.
    pub(crate) fn from_parts(slots: Vec<u64>, plain_modulus: u64, noise_budget: u32) -> (c:
        OpenFHECiphertext)
        requires
            modulus_ok(plain_modulus),
            slots_ok(slots@, plain_modulus),
            noise_budget <= 0x7FFF_FFFF,
        ensures
            c.slots() == slots@,
            c.modulus() == plain_modulus,
            c.budget() == noise_budget,
    {
        OpenFHECiphertext { slots, plain_modulus, noise_budget }
    }

    /// Homomorphic slotwise addition.
    ///
    /// Rejects operands from different contexts with `BackendMismatch` and
    /// operands whose slot counts disagree with `OperationFailed`; otherwise
    /// the sum carries the smaller of the two noise budgets.
    pub fn add(&self, other: &OpenFHECiphertext) -> (result: Result<OpenFHECiphertext, OpenFHEError>)
        ensures
            result is Ok <==> (self.modulus() == other.modulus() && self.slots().len()
                == other.slots().len()),
            result is Ok ==> {
                let c = result->Ok_0;
                &&& c.slots() == add_slots_spec(self.slots(), other.slots(), self.modulus())
                &&& c.modulus() == self.modulus()
                &&& c.budget() == min_budget(self.budget(), other.budget())
            },
            self.modulus() != other.modulus() ==> result is Err && result->Err_0 is BackendMismatch,
            self.modulus() == other.modulus() && self.slots().len() != other.slots().len()
                ==> result is Err && result->Err_0 is OperationFailed,
    {
        proof {
            use_type_invariant(&*self);
            use_type_invariant(&*other);
        }
        if self.plain_modulus != other.plain_modulus {
            Err(OpenFHEError::BackendMismatch)
        } else if self.slots.len() != other.slots.len() {
            Err(OpenFHEError::OperationFailed)
        } else {
            let slots = add_slots(&self.slots, &other.slots, self.plain_modulus);
            let noise_budget = if self.noise_budget <= other.noise_budget {
                self.noise_budget
            } else {
                other.noise_budget
            };
            Ok(OpenFHECiphertext { slots, plain_modulus: self.plain_modulus, noise_budget })
        }
    }

    /// Homomorphic slotwise multiplication.
    ///
    /// Rejects operands from different contexts with `BackendMismatch` and
    /// operands whose slot counts disagree with `OperationFailed`. The
    /// product's noise budget is strictly below both operands' budgets
    /// whenever those are positive: multiplication consumes one unit of
    /// multiplicative depth.
    pub fn multiply(&self, other: &OpenFHECiphertext) -> (result: Result<
        OpenFHECiphertext,
        OpenFHEError,
    >)
        ensures
            result is Ok <==> (self.modulus() == other.modulus() && self.slots().len()
                == other.slots().len()),
            result is Ok ==> {
                let c = result->Ok_0;
                &&& c.slots() == mul_slots_spec(self.slots(), other.slots(), self.modulus())
                &&& c.modulus() == self.modulus()
                &&& c.budget() == mul_budget(self.budget(), other.budget())
            },
            result is Ok && self.budget() > 0 && other.budget() > 0 ==> result->Ok_0.budget()
                < min_budget(self.budget(), other.budget()),
            self.modulus() != other.modulus() ==> result is Err && result->Err_0 is BackendMismatch,
            self.modulus() == other.modulus() && self.slots().len() != other.slots().len()
                ==> result is Err && result->Err_0 is OperationFailed,
    {
        proof {
            use_type_invariant(&*self);
            use_type_invariant(&*other);
        }
        if self.plain_modulus != other.plain_modulus {
            Err(OpenFHEError::BackendMismatch)
        } else if self.slots.len() != other.slots.len() {
            Err(OpenFHEError::OperationFailed)
        } else {
            let slots = mul_slots(&self.slots, &other.slots, self.plain_modulus);
            let m = if self.noise_budget <= other.noise_budget {
                self.noise_budget
            } else {
                other.noise_budget
            };
            let noise_budget: u32 = if m > 0 {
                m - 1
            } else {
                0
            };
            Ok(OpenFHECiphertext { slots, plain_modulus: self.plain_modulus, noise_budget })
        }
    }

    /// Homomorphic slotwise subtraction.
    ///
    /// Rejects operands from different contexts with `BackendMismatch` and
    /// operands whose slot counts disagree with `OperationFailed`; like
    /// addition it consumes no multiplicative depth.
    pub fn subtract(&self, other: &OpenFHECiphertext) -> (result: Result<
        OpenFHECiphertext,
        OpenFHEError,
    >)
        ensures
            result is Ok <==> (self.modulus() == other.modulus() && self.slots().len()
                == other.slots().len()),
            result is Ok ==> {
                let c = result->Ok_0;
                &&& c.slots() == sub_slots_spec(self.slots(), other.slots(), self.modulus())
                &&& c.modulus() == self.modulus()
                &&& c.budget() == min_budget(self.budget(), other.budget())
            },
            self.modulus() != other.modulus() ==> result is Err && result->Err_0 is BackendMismatch,
            self.modulus() == other.modulus() && self.slots().len() != other.slots().len()
                ==> result is Err && result->Err_0 is OperationFailed,
    {
        proof {
            use_type_invariant(&*self);
            use_type_invariant(&*other);
        }
        if self.plain_modulus != other.plain_modulus {
            Err(OpenFHEError::BackendMismatch)
        } else if self.slots.len() != other.slots.len() {
            Err(OpenFHEError::OperationFailed)
        } else {
            let slots = sub_slots(&self.slots, &other.slots, self.plain_modulus);
            let noise_budget = if self.noise_budget <= other.noise_budget {
                self.noise_budget
            } else {
                other.noise_budget
            };
            Ok(OpenFHECiphertext { slots, plain_modulus: self.plain_modulus, noise_budget })
        }
    }
}

} // verus!
