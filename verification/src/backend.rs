//! The closed set of backends behind the uniform capability interface, and
//! the scheme parameters a session chooses once, at creation time. A backend
//! is selected by tag and never switched thereafter; the tag travels with
//! every serialized ciphertext so that cross-backend confusion is rejected
//! instead of silently coerced.

use vstd::prelude::*;

use crate::helib::helib_initial_budget;
use crate::helib::helib_params_ok;
use crate::openfhe::openfhe_initial_budget;
use crate::openfhe::openfhe_params_ok;
use crate::seal::seal_initial_budget;
use crate::seal::seal_params_ok;

verus! {

/// One of the three interchangeable homomorphic-encryption backends.
#[derive(Clone, Copy, Debug, PartialEq, Eq, Structural)]
pub enum BackendTag {
    /// Microsoft SEAL, BFV scheme, batched vectors.
    Seal,
    /// IBM HElib, BGV scheme, scalar-only plaintexts.
    Helib,
    /// OpenFHE, BFV scheme, batched vectors.
    OpenFhe,
}

/// The byte that stands for a backend tag in serialized ciphertexts.
pub open spec fn spec_tag_byte(tag: BackendTag) -> u8 {
    match tag {
        BackendTag::Seal => 1,
        BackendTag::Helib => 2,
        BackendTag::OpenFhe => 3,
    }
}

/// The backend tag a serialized byte stands for, if any.
pub open spec fn spec_tag_of_byte(b: u8) -> Option<BackendTag> {
    if b == 1 {
        Some(BackendTag::Seal)
    } else if b == 2 {
        Some(BackendTag::Helib)
    } else if b == 3 {
        Some(BackendTag::OpenFhe)
    } else {
        None
    }
}

/// Writes a backend tag as its serialization byte.
pub fn tag_byte(tag: BackendTag) -> (b: u8)
    ensures
        b == spec_tag_byte(tag),
        spec_tag_of_byte(b) == Some(tag),
{
    match tag {
        BackendTag::Seal => 1,
        BackendTag::Helib => 2,
        BackendTag::OpenFhe => 3,
    }
}

/// Reads a backend tag back from its serialization byte.
pub fn tag_of_byte(b: u8) -> (tag: Option<BackendTag>)
    ensures
        tag == spec_tag_of_byte(b),
{
    if b == 1 {
        Some(BackendTag::Seal)
    } else if b == 2 {
        Some(BackendTag::Helib)
    } else if b == 3 {
        Some(BackendTag::OpenFhe)
    } else {
        None
    }
}

/// The scheme parameters a caller chooses for a new session: the BFV shape
/// for the batched backends, the BGV shape for the scalar one.
#[derive(Clone, Copy, Debug, PartialEq, Eq, Structural)]
pub enum SchemeParams {
    /// Parameters of a BFV ring: polynomial modulus degree and plaintext
    /// modulus.
    Bfv { poly_modulus_degree: u64, plain_modulus: u64 },
    /// Parameters of a BGV ring: cyclotomic index, plaintext modulus and
    /// lifting parameter.
    Bgv { cyclotomic_index: u64, plain_modulus: u64, lifting: u64 },
}

/// Whether the chosen parameters fit the chosen backend: the parameter shape
/// must match the backend's scheme and the values must satisfy the backend's
/// own constraints.
pub open spec fn params_valid(tag: BackendTag, params: SchemeParams) -> bool {
    match tag {
        BackendTag::Seal => match params {
            SchemeParams::Bfv { poly_modulus_degree, plain_modulus } => seal_params_ok(
                poly_modulus_degree,
                plain_modulus,
            ),
            SchemeParams::Bgv { .. } => false,
        },
        BackendTag::Helib => match params {
            SchemeParams::Bfv { .. } => false,
            SchemeParams::Bgv { cyclotomic_index, plain_modulus, lifting } => helib_params_ok(
                cyclotomic_index,
                plain_modulus,
                lifting,
            ),
        },
        BackendTag::OpenFhe => match params {
            SchemeParams::Bfv { poly_modulus_degree, plain_modulus } => openfhe_params_ok(
                poly_modulus_degree,
                plain_modulus,
            ),
            SchemeParams::Bgv { .. } => false,
        },
    }
}

/// The plaintext modulus the parameters carry.
pub open spec fn params_plain_modulus(params: SchemeParams) -> u64 {
    match params {
        SchemeParams::Bfv { plain_modulus, .. } => plain_modulus,
        SchemeParams::Bgv { plain_modulus, .. } => plain_modulus,
    }
}

/// How many values one plaintext of this backend packs: the ring dimension
/// for the batched backends, exactly one for the scalar backend.
pub open spec fn slot_capacity(tag: BackendTag, params: SchemeParams) -> u64 {
    match tag {
        BackendTag::Helib => 1,
        BackendTag::Seal => match params {
            SchemeParams::Bfv { poly_modulus_degree, .. } => poly_modulus_degree,
            SchemeParams::Bgv { .. } => 0,
        },
        BackendTag::OpenFhe => match params {
            SchemeParams::Bfv { poly_modulus_degree, .. } => poly_modulus_degree,
            SchemeParams::Bgv { .. } => 0,
        },
    }
}

/// The noise budget a fresh ciphertext of this backend starts with.
pub open spec fn initial_budget(tag: BackendTag, params: SchemeParams) -> u32 {
    match tag {
        BackendTag::Seal => match params {
            SchemeParams::Bfv { poly_modulus_degree, .. } => seal_initial_budget(
                poly_modulus_degree,
            ),
            SchemeParams::Bgv { .. } => 0,
        },
        BackendTag::Helib => match params {
            SchemeParams::Bfv { .. } => 0,
            SchemeParams::Bgv { cyclotomic_index, .. } => helib_initial_budget(cyclotomic_index),
        },
        BackendTag::OpenFhe => match params {
            SchemeParams::Bfv { poly_modulus_degree, .. } => openfhe_initial_budget(
                poly_modulus_degree,
            ),
            SchemeParams::Bgv { .. } => 0,
        },
    }
}

/// Valid parameters always leave at least two units of multiplicative depth,
/// so one multiplication never exhausts a fresh ciphertext.
pub proof fn lemma_initial_budget_positive(tag: BackendTag, params: SchemeParams)
    requires
        params_valid(tag, params),
    ensures
        initial_budget(tag, params) >= 2,
        initial_budget(tag, params) <= 0x7FFF_FFFF,
{
}

/// A workable default parameterisation for each backend, used by the
/// benchmark harness and available to callers that need no particular ring.
pub fn default_params(tag: BackendTag) -> (params: SchemeParams)
    ensures
        params_valid(tag, params),
{
    proof {
        assert(4096u64 & 4095u64 == 0) by (bit_vector);
    }
    match tag {
        BackendTag::Seal => SchemeParams::Bfv { poly_modulus_degree: 4096, plain_modulus: 65537 },
        BackendTag::Helib => SchemeParams::Bgv {
            cyclotomic_index: 4095,
            plain_modulus: 257,
            lifting: 1,
        },
        BackendTag::OpenFhe => SchemeParams::Bfv {
            poly_modulus_degree: 4096,
            plain_modulus: 65537,
        },
    }
}

} // verus!
