//! The SEAL backend: a BFV scheme over batched integer vectors. A plaintext
//! packs up to `poly_modulus_degree` values of the message space into slots;
//! the homomorphic operations act slot by slot. The polynomial modulus degree
//! must be a power of two.
//!
//! The native state is modelled by its observable behaviour: a plaintext is a
//! vector of residues modulo the plaintext modulus, a ciphertext is such a
//! vector together with the noise budget that multiplications consume, and
//! the encryptor and decryptor carry the parameters of the context they were
//! derived from.
//!
//! At this layer a context is identified by its parameter set; the session
//! layer above stamps every serialized ciphertext with a per-context identity
//! on top, so that even two contexts with equal parameters never mix.

use vstd::prelude::*;

use crate::modring::add_slots;
use crate::modring::add_slots_spec;
use crate::modring::min_budget;
use crate::modring::modulus_ok;
use crate::modring::mul_budget;
use crate::modring::mul_slots;
use crate::modring::mul_slots_spec;
use crate::modring::slots_ok;
use crate::modring::sub_slots;
use crate::modring::sub_slots_spec;
use crate::errors::HeError;

verus! {

/// A failure of the SEAL backend.
#[derive(Clone, Copy, Debug, PartialEq, Eq, Structural)]
pub enum SealError {
    /// A native allocation or call returned no handle.
    NullPointer,
    /// Context parameters, a value count or a slot value violate a backend
    /// constraint.
    InvalidParameter,
    /// The native encrypt call signalled failure.
    EncryptionFailed,
    /// The native decrypt call signalled failure, including an exhausted
    /// noise budget.
    DecryptionFailed,
    /// A native homomorphic operation signalled failure, including operands
    /// whose slot counts disagree.
    OperationFailed,
    /// The operands of an operation come from different contexts.
    BackendMismatch,
}

impl SealError {
    /// A short human-readable description of the failure.
    pub fn message(&self) -> (m: &'static str)
        ensures
            self is NullPointer ==> m@ == "Null pointer returned from SEAL"@,
            self is InvalidParameter ==> m@ == "Invalid parameter provided"@,
            self is EncryptionFailed ==> m@ == "Encryption operation failed"@,
            self is DecryptionFailed ==> m@ == "Decryption operation failed"@,
            self is OperationFailed ==> m@ == "SEAL operation failed"@,
            self is BackendMismatch ==> m@ == "Operands come from different contexts"@,
    {
        match self {
            SealError::NullPointer => "Null pointer returned from SEAL",
            SealError::InvalidParameter => "Invalid parameter provided",
            SealError::EncryptionFailed => "Encryption operation failed",
            SealError::DecryptionFailed => "Decryption operation failed",
            SealError::OperationFailed => "SEAL operation failed",
            SealError::BackendMismatch => "Operands come from different contexts",
        }
    }

    /// This failure in the uniform taxonomy of the session layer.
    pub fn to_he_error(&self) -> (e: HeError)
        ensures
            e is NullPointer <==> self is NullPointer,
            e is InvalidParameter <==> self is InvalidParameter,
            e is EncryptionFailed <==> self is EncryptionFailed,
            e is DecryptionFailed <==> self is DecryptionFailed,
            e is OperationFailed <==> self is OperationFailed,
            e is BackendMismatch <==> self is BackendMismatch,
    {
        match self {
            SealError::NullPointer => HeError::NullPointer,
            SealError::InvalidParameter => HeError::InvalidParameter,
            SealError::EncryptionFailed => HeError::EncryptionFailed,
            SealError::DecryptionFailed => HeError::DecryptionFailed,
            SealError::OperationFailed => HeError::OperationFailed,
            SealError::BackendMismatch => HeError::BackendMismatch,
        }
    }
}

/// The degree is a power of two.
pub open spec fn degree_is_power_of_two(n: u64) -> bool {
    n >= 1 && n & ((n - 1) as u64) == 0
}

/// Checks that the degree is a power of two.
pub fn check_power_of_two(n: u64) -> (r: bool)
    ensures
        r == degree_is_power_of_two(n),
{
    if n == 0 {
        false
    } else {
        n & (n - 1) == 0
    }
}

/// SEAL accepts a BFV parameterisation with a power-of-two polynomial modulus
/// degree between 1024 and 32768 and a workable plaintext modulus.
pub open spec fn seal_params_ok(poly_modulus_degree: u64, plain_modulus: u64) -> bool {
    &&& degree_is_power_of_two(poly_modulus_degree)
    &&& 1024 <= poly_modulus_degree <= 32768
    &&& modulus_ok(plain_modulus)
}

/// The noise budget a fresh SEAL ciphertext starts with, as a function of the
/// polynomial modulus degree: a larger ring leaves more multiplicative depth.
pub open spec fn seal_initial_budget(poly_modulus_degree: u64) -> u32 {
    if poly_modulus_degree >= 8192 {
        120
    } else if poly_modulus_degree >= 4096 {
        60
    } else {
        20
    }
}

/// The native SEAL context state: the parameters the ring was built from.
pub struct SEALContext {
    poly_modulus_degree: u64,
    plain_modulus: u64,
}

impl SEALContext {
    #[verifier::type_invariant]
    spec fn wf(self) -> bool {
        seal_params_ok(self.poly_modulus_degree, self.plain_modulus)
    }

    /// The polynomial modulus degree the context was built with.
    pub closed spec fn degree(self) -> u64 {
        self.poly_modulus_degree
    }

    /// The plaintext modulus the context was built with.
    pub closed spec fn plain_modulus(self) -> u64 {
        self.plain_modulus
    }
}

/// The native SEAL encryptor state: public-key material bound to one context.
pub struct SEALEncryptor {
    poly_modulus_degree: u64,
    plain_modulus: u64,
}

impl SEALEncryptor {
    #[verifier::type_invariant]
    spec fn wf(self) -> bool {
        modulus_ok(self.plain_modulus)
    }

    /// The polynomial modulus degree of the context this encryptor derives
    /// from.
    pub closed spec fn degree(self) -> u64 {
        self.poly_modulus_degree
    }

    /// The plaintext modulus of the context this encryptor derives from.
    pub closed spec fn plain_modulus(self) -> u64 {
        self.plain_modulus
    }

    /// Encrypts a plaintext encoded under the same context.
    ///
    /// Encryption succeeds exactly when the plaintext was encoded under this
    /// encryptor's context; the fresh ciphertext carries the plaintext's
    /// slots and the full initial noise budget of the ring.
    pub fn encrypt(&self, plaintext: &SEALPlaintext) -> (result: Result<SEALCiphertext, SealError>)
        ensures
            result is Ok <==> self.plain_modulus() == plaintext.modulus(),
            result is Ok ==> {
                let c = result->Ok_0;
                &&& c.slots() == plaintext.slots()
                &&& c.modulus() == plaintext.modulus()
                &&& c.budget() == seal_initial_budget(self.degree())
            },
            result is Err ==> result->Err_0 is BackendMismatch,
    {
        proof {
            use_type_invariant(&*self);
            use_type_invariant(&*plaintext);
        }
        if self.plain_modulus == plaintext.plain_modulus {
            let budget: u32 = if self.poly_modulus_degree >= 8192 {
                120
            } else if self.poly_modulus_degree >= 4096 {
                60
            } else {
                20
            };
            let slots = crate::modring::copy_slots(&plaintext.slots);
            Ok(
                SEALCiphertext {
                    slots,
                    plain_modulus: plaintext.plain_modulus,
                    noise_budget: budget,
                },
            )
        } else {
            Err(SealError::BackendMismatch)
        }
    }
}

/// The native SEAL decryptor state: secret-key material bound to one context.
pub struct SEALDecryptor {
    poly_modulus_degree: u64,
    plain_modulus: u64,
}

impl SEALDecryptor {
    #[verifier::type_invariant]
    spec fn wf(self) -> bool {
        modulus_ok(self.plain_modulus)
    }

    /// The polynomial modulus degree of the context this decryptor derives
    /// from.
    pub closed spec fn degree(self) -> u64 {
        self.poly_modulus_degree
    }

    /// The plaintext modulus of the context this decryptor derives from.
    pub closed spec fn plain_modulus(self) -> u64 {
        self.plain_modulus
    }

    /// Decrypts a ciphertext produced under the same context.
    ///
    /// Decryption succeeds exactly when the ciphertext belongs to this
    /// decryptor's context and its noise budget is not exhausted; it then
    /// returns the slots the ciphertext carries.
    pub fn decrypt(&self, ciphertext: &SEALCiphertext) -> (result: Result<SEALPlaintext, SealError>)
        ensures
            result is Ok <==> (self.plain_modulus() == ciphertext.modulus()
                && ciphertext.budget() > 0),
            result is Ok ==> {
                let p = result->Ok_0;
                p.slots() == ciphertext.slots() && p.modulus() == ciphertext.modulus()
            },
            result is Err ==> result->Err_0 is DecryptionFailed,
    {
        proof {
            use_type_invariant(&*self);
            use_type_invariant(&*ciphertext);
        }
        if self.plain_modulus == ciphertext.plain_modulus && ciphertext.noise_budget > 0 {
            let slots = crate::modring::copy_slots(&ciphertext.slots);
            Ok(SEALPlaintext { slots, plain_modulus: ciphertext.plain_modulus })
        } else {
            Err(SealError::DecryptionFailed)
        }
    }

    /// Reads the remaining noise budget of a ciphertext: a non-negative
    /// estimate of the multiplicative depth that is left. Diagnostic only.
    pub fn invariant_noise_budget(&self, ciphertext: &SEALCiphertext) -> (budget: i32)
        ensures
            budget == ciphertext.budget() as i32,
            budget >= 0,
    {
        proof {
            use_type_invariant(&*ciphertext);
        }
        ciphertext.noise_budget as i32
    }
}

/// The native SEAL plaintext state: a batched vector of residues.
pub struct SEALPlaintext {
    slots: Vec<u64>,
    plain_modulus: u64,
}

impl SEALPlaintext {
    #[verifier::type_invariant]
    spec fn wf(self) -> bool {
        modulus_ok(self.plain_modulus) && slots_ok(self.slots@, self.plain_modulus)
    }

    /// The residues this plaintext packs, slot by slot.
    pub closed spec fn slots(self) -> Seq<u64> {
        self.slots@
    }

    /// The plaintext modulus this plaintext was encoded under.
    pub closed spec fn modulus(self) -> u64 {
        self.plain_modulus
    }

    /// Reads the packed residues back out of the slots.
    pub fn values(&self) -> (v: Vec<u64>)
        ensures
            v@ == self.slots(),
    {
        crate::modring::copy_slots(&self.slots)
    }
}

/// The native SEAL ciphertext state: encrypted slots and the noise budget
/// that remains for multiplications.
pub struct SEALCiphertext {
    slots: Vec<u64>,
    plain_modulus: u64,
    noise_budget: u32,
}

impl SEALCiphertext {
    #[verifier::type_invariant]
    spec fn wf(self) -> bool {
        &&& modulus_ok(self.plain_modulus)
        &&& slots_ok(self.slots@, self.plain_modulus)
        &&& self.noise_budget <= 0x7FFF_FFFF
    }

    /// The residues this ciphertext decrypts to while its budget lasts.
    pub closed spec fn slots(self) -> Seq<u64> {
        self.slots@
    }

    /// The plaintext modulus this ciphertext was produced under.
    pub closed spec fn modulus(self) -> u64 {
        self.plain_modulus
    }

    /// The remaining noise budget.
    pub closed spec fn budget(self) -> u32 {
        self.noise_budget
    }

    /// Hands out the recorded parts of the ciphertext — slots, modulus and
    /// noise budget — for serialisation within the library.
    pub fn export(&self) -> (parts: (Vec<u64>, u64, u32))
        ensures
            parts.0@ == self.slots(),
            parts.1 == self.modulus(),
            parts.2 == self.budget(),
            modulus_ok(parts.1),
            slots_ok(parts.0@, parts.1),
            parts.2 <= 0x7FFF_FFFF,
    {
        proof {
            use_type_invariant(&*self);
        }
        let slots = crate::modring::copy_slots(&self.slots);
        (slots, self.plain_modulus, self.noise_budget)
    }

    /// Rebuilds a ciphertext from its recorded parts, for deserialisation
    /// within the library.
    pub(crate) fn from_parts(slots: Vec<u64>, plain_modulus: u64, noise_budget: u32) -> (c:
        SEALCiphertext)
        requires
            modulus_ok(plain_modulus),
            slots_ok(slots@, plain_modulus),
            noise_budget <= 0x7FFF_FFFF,
        ensures
            c.slots() == slots@,
            c.modulus() == plain_modulus,
            c.budget() == noise_budget,
    {
        SEALCiphertext { slots, plain_modulus, noise_budget }
    }

    /// Homomorphic slotwise addition.
    ///
    /// Rejects operands from different contexts with `BackendMismatch` and
    /// operands whose slot counts disagree with `OperationFailed`; otherwise
    /// the sum carries the smaller of the two noise budgets.
    pub fn add(&self, other: &SEALCiphertext) -> (result: Result<SEALCiphertext, SealError>)
        ensures
            result is Ok <==> (self.modulus() == other.modulus() && self.slots().len()
                == other.slots().len()),
            result is Ok ==> {
                let c = result->Ok_0;
                &&& c.slots() == add_slots_spec(self.slots(), other.slots(), self.modulus())
                &&& c.modulus() == self.modulus()
                &&& c.budget() == min_budget(self.budget(), other.budget())
            },
            self.modulus() != other.modulus() ==> result == Err::<
                SEALCiphertext,
                SealError,
            >(SealError::BackendMismatch),
            self.modulus() == other.modulus() && self.slots().len() != other.slots().len()
                ==> result == Err::<SEALCiphertext, SealError>(SealError::OperationFailed),
    {
        proof {
            use_type_invariant(&*self);
            use_type_invariant(&*other);
        }
        if self.plain_modulus != other.plain_modulus {
            Err(SealError::BackendMismatch)
        } else if self.slots.len() != other.slots.len() {
            Err(SealError::OperationFailed)
        } else {
            let slots = add_slots(&self.slots, &other.slots, self.plain_modulus);
            let noise_budget = if self.noise_budget <= other.noise_budget {
                self.noise_budget
            } else {
                other.noise_budget
            };
            Ok(SEALCiphertext { slots, plain_modulus: self.plain_modulus, noise_budget })
        }
    }

    /// Homomorphic slotwise multiplication.
    ///
    /// Rejects operands from different contexts with `BackendMismatch` and
    /// operands whose slot counts disagree with `OperationFailed`. The
    /// product's noise budget is strictly below both operands' budgets
    /// whenever those are positive: multiplication consumes one unit of
    /// multiplicative depth.
    pub fn multiply(&self, other: &SEALCiphertext) -> (result: Result<SEALCiphertext, SealError>)
        ensures
            result is Ok <==> (self.modulus() == other.modulus() && self.slots().len()
                == other.slots().len()),
            result is Ok ==> {
                let c = result->Ok_0;
                &&& c.slots() == mul_slots_spec(self.slots(), other.slots(), self.modulus())
                &&& c.modulus() == self.modulus()
                &&& c.budget() == mul_budget(self.budget(), other.budget())
            },
            result is Ok && self.budget() > 0 && other.budget() > 0 ==> result->Ok_0.budget()
                < min_budget(self.budget(), other.budget()),
            self.modulus() != other.modulus() ==> result == Err::<
                SEALCiphertext,
                SealError,
            >(SealError::BackendMismatch),
            self.modulus() == other.modulus() && self.slots().len() != other.slots().len()
                ==> result == Err::<SEALCiphertext, SealError>(SealError::OperationFailed),
    {
        proof {
            use_type_invariant(&*self);
            use_type_invariant(&*other);
        }
        if self.plain_modulus != other.plain_modulus {
            Err(SealError::BackendMismatch)
        } else if self.slots.len() != other.slots.len() {
            Err(SealError::OperationFailed)
        } else {
            let slots = mul_slots(&self.slots, &other.slots, self.plain_modulus);
            let m = if self.noise_budget <= other.noise_budget {
                self.noise_budget
            } else {
                other.noise_budget
            };
            let noise_budget: u32 = if m > 0 {
                m - 1
            } else {
                0
            };
            Ok(SEALCiphertext { slots, plain_modulus: self.plain_modulus, noise_budget })
        }
    }

    /// Homomorphic slotwise subtraction.
    ///
    /// Rejects operands from different contexts with `BackendMismatch` and
    /// operands whose slot counts disagree with `OperationFailed`; like
    /// addition it consumes no multiplicative depth.
    pub fn subtract(&self, other: &SEALCiphertext) -> (result: Result<SEALCiphertext, SealError>)
        ensures
            result is Ok <==> (self.modulus() == other.modulus() && self.slots().len()
                == other.slots().len()),
            result is Ok ==> {
                let c = result->Ok_0;
                &&& c.slots() == sub_slots_spec(self.slots(), other.slots(), self.modulus())
                &&& c.modulus() == self.modulus()
                &&& c.budget() == min_budget(self.budget(), other.budget())
            },
            self.modulus() != other.modulus() ==> result == Err::<
                SEALCiphertext,
                SealError,
            >(SealError::BackendMismatch),
            self.modulus() == other.modulus() && self.slots().len() != other.slots().len()
                ==> result == Err::<SEALCiphertext, SealError>(SealError::OperationFailed),
    {
        proof {
            use_type_invariant(&*self);
            use_type_invariant(&*other);
        }
        if self.plain_modulus != other.plain_modulus {
            Err(SealError::BackendMismatch)
        } else if self.slots.len() != other.slots.len() {
            Err(SealError::OperationFailed)
        } else {
            let slots = sub_slots(&self.slots, &other.slots, self.plain_modulus);
            let noise_budget = if self.noise_budget <= other.noise_budget {
                self.noise_budget
            } else {
                other.noise_budget
            };
            Ok(SEALCiphertext { slots, plain_modulus: self.plain_modulus, noise_budget })
        }
    }
}

/// A SEAL context with the BFV scheme, exclusively owning the native ring
/// description and the key-switching material derived from it.
pub struct Context {
    native: SEALContext,
}

impl Context {
    /// The polynomial modulus degree the context was built with. One batched
    /// plaintext packs up to this many values.
    pub closed spec fn degree(self) -> u64 {
        self.native.degree()
    }

    /// The plaintext modulus the context was built with.
    pub closed spec fn plain_modulus(self) -> u64 {
        self.native.plain_modulus()
    }

    /// Builds a new SEAL context with the BFV scheme.
    ///
    /// The polynomial modulus degree must be a power of two between 1024 and
    /// 32768 and the plaintext modulus must lie between 2 and
    /// [`crate::MAX_PLAIN_MODULUS`]; any violation is rejected with
    /// `InvalidParameter`.
    pub fn new(poly_modulus_degree: u64, plain_modulus: u64) -> (result: Result<Context, SealError>)
        ensures
            result is Ok <==> seal_params_ok(poly_modulus_degree, plain_modulus),
            result is Ok ==> {
                let c = result->Ok_0;
                c.degree() == poly_modulus_degree && c.plain_modulus() == plain_modulus
            },
            result is Err ==> result->Err_0 is InvalidParameter,
    {
        if check_power_of_two(poly_modulus_degree) && 1024 <= poly_modulus_degree
            && poly_modulus_degree <= 32768 && 2 <= plain_modulus && plain_modulus
            <= crate::modring::MAX_PLAIN_MODULUS {
            Ok(Context { native: SEALContext { poly_modulus_degree, plain_modulus } })
        } else {
            Err(SealError::InvalidParameter)
        }
    }

    /// Derives the encryptor that holds this context's public key.
    pub fn encryptor(&self) -> (e: SEALEncryptor)
        ensures
            e.degree() == self.degree(),
            e.plain_modulus() == self.plain_modulus(),
    {
        proof {
            use_type_invariant(&self.native);
        }
        SEALEncryptor {
            poly_modulus_degree: self.native.poly_modulus_degree,
            plain_modulus: self.native.plain_modulus,
        }
    }

    /// Derives the decryptor that holds this context's secret key.
    pub fn decryptor(&self) -> (d: SEALDecryptor)
        ensures
            d.degree() == self.degree(),
            d.plain_modulus() == self.plain_modulus(),
    {
        proof {
            use_type_invariant(&self.native);
        }
        SEALDecryptor {
            poly_modulus_degree: self.native.poly_modulus_degree,
            plain_modulus: self.native.plain_modulus,
        }
    }

    /// Batch-encodes a vector of values into the slots of one plaintext.
    ///
    /// Encoding succeeds exactly when there is at least one value, the values
    /// fit the slot capacity of the ring, and every value is a residue of the
    /// message space; anything else is rejected with `InvalidParameter`
    /// rather than silently truncated or reduced.
    pub fn encode(&self, values: &Vec<u64>) -> (result: Result<SEALPlaintext, SealError>)
        ensures
            result is Ok <==> (1 <= values@.len() <= self.degree() && slots_ok(
                values@,
                self.plain_modulus(),
            )),
            result is Ok ==> {
                let p = result->Ok_0;
                p.slots() == values@ && p.modulus() == self.plain_modulus()
            },
            result is Err ==> result->Err_0 is InvalidParameter,
    {
        proof {
            use_type_invariant(&self.native);
        }
        if values.len() == 0 {
            return Err(SealError::InvalidParameter);
        }
        if values.len() as u64 > self.native.poly_modulus_degree {
            return Err(SealError::InvalidParameter);
        }
        let mut i: usize = 0;
        while i < values.len()
            invariant
                i <= values@.len(),
                forall|j: int| 0 <= j < i ==> values@[j] < self.native.plain_modulus,
            decreases values@.len() - i,
        {
            if values[i] >= self.native.plain_modulus {
                return Err(SealError::InvalidParameter);
            }
            i += 1;
        }
        let slots = crate::modring::copy_slots(values);
        Ok(SEALPlaintext { slots, plain_modulus: self.native.plain_modulus })
    }
}

} // verus!
