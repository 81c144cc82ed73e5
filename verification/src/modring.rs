//! Arithmetic in the plaintext message space: every backend encodes messages
//! as residues modulo its plaintext modulus, and the homomorphic operations
//! act slot by slot in that ring.

use vstd::prelude::*;

verus! {

/// Largest plaintext modulus any backend accepts. Keeping the modulus within
/// 32 bits keeps every slot sum and slot product inside `u64`.
pub const MAX_PLAIN_MODULUS: u64 = 0x1_0000_0000;

/// A plaintext modulus a backend can work with.
pub open spec fn modulus_ok(t: u64) -> bool {
    2 <= t <= MAX_PLAIN_MODULUS
}

/// Every slot is a residue of the message space.
pub open spec fn slots_ok(s: Seq<u64>, t: u64) -> bool {
    forall|i: int| 0 <= i < s.len() ==> s[i] < t
}

/// The noise budget of a freshly added ciphertext: the smaller of the two
/// operands' budgets. Addition consumes no multiplicative depth.
pub open spec fn min_budget(a: u32, b: u32) -> u32 {
    if a <= b {
        a
    } else {
        b
    }
}

/// The noise budget of a freshly multiplied ciphertext: one unit of
/// multiplicative depth below the smaller operand budget, never below zero.
pub open spec fn mul_budget(a: u32, b: u32) -> u32 {
    if min_budget(a, b) > 0 {
        (min_budget(a, b) - 1) as u32
    } else {
        0
    }
}

/// The sum of two residues, reduced into the message space.
pub open spec fn add_mod(a: u64, b: u64, t: u64) -> u64
    recommends
        modulus_ok(t),
{
    ((a + b) % (t as int)) as u64
}

/// The product of two residues, reduced into the message space.
pub open spec fn mul_mod(a: u64, b: u64, t: u64) -> u64
    recommends
        modulus_ok(t),
{
    ((a * b) % (t as int)) as u64
}

/// The difference of two residues, reduced into the message space.
pub open spec fn sub_mod(a: u64, b: u64, t: u64) -> u64
    recommends
        modulus_ok(t),
{
    ((a - b) % (t as int)) as u64
}

/// Slotwise `add_mod` over two equally long slot vectors.
pub open spec fn add_slots_spec(a: Seq<u64>, b: Seq<u64>, t: u64) -> Seq<u64>
    recommends
        a.len() == b.len(),
{
    Seq::new(a.len(), |i: int| add_mod(a[i], b[i], t))
}

/// Slotwise `mul_mod` over two equally long slot vectors.
pub open spec fn mul_slots_spec(a: Seq<u64>, b: Seq<u64>, t: u64) -> Seq<u64>
    recommends
        a.len() == b.len(),
{
    Seq::new(a.len(), |i: int| mul_mod(a[i], b[i], t))
}

/// Slotwise `sub_mod` over two equally long slot vectors.
pub open spec fn sub_slots_spec(a: Seq<u64>, b: Seq<u64>, t: u64) -> Seq<u64>
    recommends
        a.len() == b.len(),
{
    Seq::new(a.len(), |i: int| sub_mod(a[i], b[i], t))
}

/// Copies a slot vector.
pub fn copy_slots(src: &Vec<u64>) -> (r: Vec<u64>)
    ensures
        r@ == src@,
{
    let mut r: Vec<u64> = Vec::new();
    let mut i: usize = 0;
    while i < src.len()
        invariant
            i <= src@.len(),
            r@ == src@.subrange(0, i as int),
        decreases src@.len() - i,
    {
        r.push(src[i]);
        i += 1;
    }
    proof {
        assert(r@ =~= src@);
    }
    r
}

/// Adds two residues and reduces the sum.
pub fn add_in_modulus(a: u64, b: u64, t: u64) -> (r: u64)
    requires
        modulus_ok(t),
        a < t,
        b < t,
    ensures
        r == add_mod(a, b, t),
        r < t,
{
    (a + b) % t
}

/// Multiplies two residues and reduces the product.
pub fn mul_in_modulus(a: u64, b: u64, t: u64) -> (r: u64)
    requires
        modulus_ok(t),
        a < t,
        b < t,
    ensures
        r == mul_mod(a, b, t),
        r < t,
{
    proof {
        assert(a * b <= (MAX_PLAIN_MODULUS - 1) * (MAX_PLAIN_MODULUS - 1)) by (nonlinear_arith)
            requires
                a <= MAX_PLAIN_MODULUS - 1,
                b <= MAX_PLAIN_MODULUS - 1,
        ;
    }
    (a * b) % t
}

/// Subtracts one residue from another and reduces the difference.
pub fn sub_in_modulus(a: u64, b: u64, t: u64) -> (r: u64)
    requires
        modulus_ok(t),
        a < t,
        b < t,
    ensures
        r == sub_mod(a, b, t),
        r < t,
{
    if a >= b {
        proof {
            vstd::arithmetic::div_mod::lemma_small_mod((a - b) as nat, t as nat);
        }
        a - b
    } else {
        proof {
            vstd::arithmetic::div_mod::lemma_mod_multiples_vanish(1, a - b, t as int);
            vstd::arithmetic::div_mod::lemma_small_mod((a + t - b) as nat, t as nat);
        }
        a + t - b
    }
}

/// Slotwise addition of two equally long slot vectors.
pub fn add_slots(a: &Vec<u64>, b: &Vec<u64>, t: u64) -> (r: Vec<u64>)
    requires
        modulus_ok(t),
        a@.len() == b@.len(),
        slots_ok(a@, t),
        slots_ok(b@, t),
    ensures
        r@ == add_slots_spec(a@, b@, t),
        slots_ok(r@, t),
{
    let n = a.len();
    let mut r: Vec<u64> = Vec::new();
    let mut i: usize = 0;
    while i < n
        invariant
            n == a@.len() == b@.len(),
            i <= n,
            modulus_ok(t),
            slots_ok(a@, t),
            slots_ok(b@, t),
            r@.len() == i,
            forall|j: int| 0 <= j < i ==> r@[j] == add_mod(a@[j], b@[j], t),
        decreases n - i,
    {
        r.push(add_in_modulus(a[i], b[i], t));
        i += 1;
    }
    proof {
        assert(r@ =~= add_slots_spec(a@, b@, t));
    }
    r
}

/// Slotwise multiplication of two equally long slot vectors.
pub fn mul_slots(a: &Vec<u64>, b: &Vec<u64>, t: u64) -> (r: Vec<u64>)
    requires
        modulus_ok(t),
        a@.len() == b@.len(),
        slots_ok(a@, t),
        slots_ok(b@, t),
    ensures
        r@ == mul_slots_spec(a@, b@, t),
        slots_ok(r@, t),
{
    let n = a.len();
    let mut r: Vec<u64> = Vec::new();
    let mut i: usize = 0;
    while i < n
        invariant
            n == a@.len() == b@.len(),
            i <= n,
            modulus_ok(t),
            slots_ok(a@, t),
            slots_ok(b@, t),
            r@.len() == i,
            forall|j: int| 0 <= j < i ==> r@[j] == mul_mod(a@[j], b@[j], t),
        decreases n - i,
    {
        r.push(mul_in_modulus(a[i], b[i], t));
        i += 1;
    }
    proof {
        assert(r@ =~= mul_slots_spec(a@, b@, t));
    }
    r
}

/// Slotwise subtraction of two equally long slot vectors.
pub fn sub_slots(a: &Vec<u64>, b: &Vec<u64>, t: u64) -> (r: Vec<u64>)
    requires
        modulus_ok(t),
        a@.len() == b@.len(),
        slots_ok(a@, t),
        slots_ok(b@, t),
    ensures
        r@ == sub_slots_spec(a@, b@, t),
        slots_ok(r@, t),
{
    let n = a.len();
    let mut r: Vec<u64> = Vec::new();
    let mut i: usize = 0;
    while i < n
        invariant
            n == a@.len() == b@.len(),
            i <= n,
            modulus_ok(t),
            slots_ok(a@, t),
            slots_ok(b@, t),
            r@.len() == i,
            forall|j: int| 0 <= j < i ==> r@[j] == sub_mod(a@[j], b@[j], t),
        decreases n - i,
    {
        r.push(sub_in_modulus(a[i], b[i], t));
        i += 1;
    }
    proof {
        assert(r@ =~= sub_slots_spec(a@, b@, t));
    }
    r
}

} // verus!
