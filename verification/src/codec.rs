//! The opaque wire format of a ciphertext. A serialized ciphertext carries
//! the backend tag, the identity of the context it was produced under, the
//! plaintext modulus, the remaining noise budget and the encrypted slots, so
//! that the session layer can reject cross-backend and cross-context operands
//! before any native call is made.
//!
//! Layout, little-endian: one tag byte, eight bytes of context identity,
//! eight bytes of plaintext modulus, four bytes of noise budget, eight bytes
//! of slot count, then eight bytes per slot. Decoding accepts exactly the
//! byte strings that encoding produces.

use vstd::prelude::*;

use vstd::bytes::lemma_auto_spec_u32_to_from_le_bytes;
use vstd::bytes::lemma_auto_spec_u64_to_from_le_bytes;
use vstd::bytes::spec_u32_from_le_bytes;
use vstd::bytes::spec_u32_to_le_bytes;
use vstd::bytes::spec_u64_from_le_bytes;
use vstd::bytes::spec_u64_to_le_bytes;
use vstd::bytes::u32_from_le_bytes;
use vstd::bytes::u32_to_le_bytes;
use vstd::bytes::u64_from_le_bytes;
use vstd::bytes::u64_to_le_bytes;
use vstd::slice::slice_subrange;

use crate::backend::spec_tag_byte;
use crate::backend::spec_tag_of_byte;
use crate::backend::tag_byte;
use crate::backend::tag_of_byte;
use crate::backend::BackendTag;
use crate::modring::copy_slots;
use crate::modring::modulus_ok;
use crate::modring::slots_ok;

verus! {

/// The number of bytes before the slots: tag, context identity, modulus,
/// noise budget and slot count.
pub const HEADER_LEN: usize = 29;

/// The mathematical content of a serialized ciphertext.
#[verifier::ext_equal]
pub ghost struct CipherView {
    /// The backend the ciphertext belongs to.
    pub tag: BackendTag,
    /// The identity of the context the ciphertext was produced under.
    pub context_id: u64,
    /// The plaintext modulus of that context.
    pub modulus: u64,
    /// The remaining noise budget.
    pub noise_budget: u32,
    /// The encrypted residues, slot by slot.
    pub slots: Seq<u64>,
}

/// A well-formed ciphertext: a workable modulus, at least one slot, every
/// slot a residue, and a noise budget within the diagnostic range.
pub open spec fn view_wf(v: CipherView) -> bool {
    &&& modulus_ok(v.modulus)
    &&& slots_ok(v.slots, v.modulus)
    &&& 1 <= v.slots.len() < 0x1_0000_0000_0000_0000
    &&& v.noise_budget <= 0x7FFF_FFFF
}

/// A ciphertext in transportable form, as the session layer passes it to and
/// from callers.
pub struct CipherBlob {
    tag: BackendTag,
    context_id: u64,
    modulus: u64,
    noise_budget: u32,
    slots: Vec<u64>,
}

impl View for CipherBlob {
    type V = CipherView;

    closed spec fn view(&self) -> CipherView {
        CipherView {
            tag: self.tag,
            context_id: self.context_id,
            modulus: self.modulus,
            noise_budget: self.noise_budget,
            slots: self.slots@,
        }
    }
}

impl CipherBlob {
    #[verifier::type_invariant]
    spec fn wf(self) -> bool {
        view_wf(self@)
    }

    /// Assembles a ciphertext blob from its parts.
    pub(crate) fn assemble(
        tag: BackendTag,
        context_id: u64,
        modulus: u64,
        noise_budget: u32,
        slots: Vec<u64>,
    ) -> (blob: CipherBlob)
        requires
            modulus_ok(modulus),
            slots_ok(slots@, modulus),
            slots@.len() >= 1,
            noise_budget <= 0x7FFF_FFFF,
        ensures
            blob@ == (CipherView { tag, context_id, modulus, noise_budget, slots: slots@ }),
    {
        let n = slots.len();
        proof {
            assert(n < 0x1_0000_0000_0000_0000);
        }
        CipherBlob { tag, context_id, modulus, noise_budget, slots }
    }

    /// The backend the ciphertext belongs to.
    pub fn tag(&self) -> (t: BackendTag)
        ensures
            t == self@.tag,
    {
        self.tag
    }

    /// The identity of the context the ciphertext was produced under.
    pub fn context_id(&self) -> (id: u64)
        ensures
            id == self@.context_id,
    {
        self.context_id
    }

    /// The plaintext modulus of that context.
    pub fn modulus(&self) -> (m: u64)
        ensures
            m == self@.modulus,
    {
        self.modulus
    }

    /// The remaining noise budget.
    pub fn noise_budget(&self) -> (b: u32)
        ensures
            b == self@.noise_budget,
    {
        self.noise_budget
    }

    /// The encrypted residues, slot by slot.
    pub fn slots(&self) -> (s: Vec<u64>)
        ensures
            s@ == self@.slots,
    {
        copy_slots(&self.slots)
    }
}

/// The slot region of the wire format: eight little-endian bytes per slot.
pub open spec fn spec_encode_slots(s: Seq<u64>) -> Seq<u8>
    decreases s.len(),
{
    if s.len() == 0 {
        Seq::empty()
    } else {
        spec_encode_slots(s.drop_last()) + spec_u64_to_le_bytes(s.last())
    }
}

/// The whole wire format of a ciphertext.
pub open spec fn spec_encode(v: CipherView) -> Seq<u8> {
    seq![spec_tag_byte(v.tag)] + spec_u64_to_le_bytes(v.context_id) + spec_u64_to_le_bytes(
        v.modulus,
    ) + spec_u32_to_le_bytes(v.noise_budget) + spec_u64_to_le_bytes(v.slots.len() as u64)
        + spec_encode_slots(v.slots)
}

/// Reads `n` slots back out of a slot region.
pub open spec fn spec_decode_slots(b: Seq<u8>, n: nat) -> Seq<u64>
    decreases n,
{
    if n == 0 {
        Seq::empty()
    } else {
        spec_decode_slots(b, (n - 1) as nat).push(
            spec_u64_from_le_bytes(b.subrange(8 * (n - 1), 8 * n as int)),
        )
    }
}

/// The ciphertext a byte string stands for, if it is a well-formed encoding;
/// decoding accepts exactly what [`spec_encode`] produces on well-formed
/// ciphertexts.
pub open spec fn spec_decode(b: Seq<u8>) -> Option<CipherView> {
    if b.len() < HEADER_LEN {
        None
    } else {
        let tag_opt = spec_tag_of_byte(b[0]);
        let context_id = spec_u64_from_le_bytes(b.subrange(1, 9));
        let modulus = spec_u64_from_le_bytes(b.subrange(9, 17));
        let noise_budget = spec_u32_from_le_bytes(b.subrange(17, 21));
        let n = spec_u64_from_le_bytes(b.subrange(21, 29));
        if tag_opt is None || !modulus_ok(modulus) || noise_budget > 0x7FFF_FFFF || n < 1
            || b.len() != HEADER_LEN + 8 * n {
            None
        } else {
            let slots = spec_decode_slots(b.skip(HEADER_LEN as int), n as nat);
            if slots_ok(slots, modulus) {
                Some(
                    CipherView {
                        tag: tag_opt->0,
                        context_id,
                        modulus,
                        noise_budget,
                        slots,
                    },
                )
            } else {
                None
            }
        }
    }
}

/// The slot region is eight bytes per slot.
pub proof fn lemma_encode_slots_len(s: Seq<u64>)
    ensures
        spec_encode_slots(s).len() == 8 * s.len(),
    decreases s.len(),
{
    if s.len() > 0 {
        lemma_encode_slots_len(s.drop_last());
        lemma_auto_spec_u64_to_from_le_bytes();
    }
}

/// Reading slots out of a slot region only looks at its first `8 * n` bytes.
pub proof fn lemma_decode_slots_prefix(b1: Seq<u8>, b2: Seq<u8>, n: nat)
    requires
        8 * n <= b1.len(),
        8 * n <= b2.len(),
        b1.subrange(0, 8 * n as int) == b2.subrange(0, 8 * n as int),
    ensures
        spec_decode_slots(b1, n) == spec_decode_slots(b2, n),
    decreases n,
{
    if n > 0 {
        let p1 = b1.subrange(0, 8 * n as int);
        let p2 = b2.subrange(0, 8 * n as int);
        assert(b1.subrange(0, 8 * (n - 1)) =~= p1.subrange(0, 8 * (n - 1)));
        assert(b2.subrange(0, 8 * (n - 1)) =~= p2.subrange(0, 8 * (n - 1)));
        lemma_decode_slots_prefix(b1, b2, (n - 1) as nat);
        assert(b1.subrange(8 * (n - 1), 8 * n as int) =~= p1.subrange(8 * (n - 1), 8 * n as int));
        assert(b2.subrange(8 * (n - 1), 8 * n as int) =~= p2.subrange(8 * (n - 1), 8 * n as int));
    }
}

/// Each decoded slot is read from its own eight bytes of the slot region.
pub proof fn lemma_decode_slots_index(b: Seq<u8>, n: nat, i: int)
    requires
        8 * n <= b.len(),
        0 <= i < n,
    ensures
        spec_decode_slots(b, n).len() == n,
        spec_decode_slots(b, n)[i] == spec_u64_from_le_bytes(b.subrange(8 * i, 8 * i + 8)),
    decreases n,
{
    lemma_decode_slots_len(b, n);
    if i < n - 1 {
        lemma_decode_slots_index(b, (n - 1) as nat, i);
    } else {
        assert(b.subrange(8 * (n - 1), 8 * n as int) =~= b.subrange(8 * i, 8 * i + 8));
    }
}

/// Reading `n` slots yields `n` slots.
pub proof fn lemma_decode_slots_len(b: Seq<u8>, n: nat)
    ensures
        spec_decode_slots(b, n).len() == n,
    decreases n,
{
    if n > 0 {
        lemma_decode_slots_len(b, (n - 1) as nat);
    }
}

/// Reading a slot region back yields the slots it was written from.
pub proof fn lemma_slots_round_trip(s: Seq<u64>)
    ensures
        spec_decode_slots(spec_encode_slots(s), s.len()) == s,
    decreases s.len(),
{
    lemma_encode_slots_len(s);
    lemma_auto_spec_u64_to_from_le_bytes();
    if s.len() > 0 {
        let b = spec_encode_slots(s);
        let head = spec_encode_slots(s.drop_last());
        let n = s.len();
        lemma_encode_slots_len(s.drop_last());
        lemma_slots_round_trip(s.drop_last());
        assert(b.subrange(0, 8 * (n - 1)) =~= head.subrange(0, 8 * (n - 1)));
        lemma_decode_slots_prefix(b, head, (n - 1) as nat);
        assert(b.subrange(8 * (n - 1), 8 * n as int) =~= spec_u64_to_le_bytes(s.last()));
        assert(spec_decode_slots(b, n) =~= s);
    } else {
        assert(spec_decode_slots(spec_encode_slots(s), 0) =~= s);
    }
}

/// Decoding what encoding produced returns exactly the ciphertext that went
/// in, for every well-formed ciphertext.
pub proof fn lemma_codec_round_trip(v: CipherView)
    requires
        view_wf(v),
    ensures
        spec_decode(spec_encode(v)) == Some(v),
{
    let b = spec_encode(v);
    lemma_encode_slots_len(v.slots);
    lemma_auto_spec_u64_to_from_le_bytes();
    lemma_auto_spec_u32_to_from_le_bytes();
    let n = v.slots.len();
    assert(b.len() == HEADER_LEN + 8 * n);
    assert(b[0] == spec_tag_byte(v.tag));
    assert(spec_tag_of_byte(spec_tag_byte(v.tag)) == Some(v.tag));
    assert(b.subrange(1, 9) =~= spec_u64_to_le_bytes(v.context_id));
    assert(b.subrange(9, 17) =~= spec_u64_to_le_bytes(v.modulus));
    assert(b.subrange(17, 21) =~= spec_u32_to_le_bytes(v.noise_budget));
    assert(b.subrange(21, 29) =~= spec_u64_to_le_bytes(n as u64));
    assert(b.skip(HEADER_LEN as int) =~= spec_encode_slots(v.slots));
    lemma_slots_round_trip(v.slots);
    lemma_decode_slots_prefix(b.skip(HEADER_LEN as int), spec_encode_slots(v.slots), n);
    assert(spec_decode(b)->0 =~= v);
}

/// Serializes a ciphertext into its wire format.
pub fn encode_ciphertext(blob: &CipherBlob) -> (r: Vec<u8>)
    ensures
        r@ == spec_encode(blob@),
{
    proof {
        use_type_invariant(blob);
        lemma_auto_spec_u64_to_from_le_bytes();
        lemma_auto_spec_u32_to_from_le_bytes();
    }
    let mut out: Vec<u8> = Vec::new();
    out.push(tag_byte(blob.tag));
    let mut field = u64_to_le_bytes(blob.context_id);
    out.append(&mut field);
    let mut field = u64_to_le_bytes(blob.modulus);
    out.append(&mut field);
    let mut field = u32_to_le_bytes(blob.noise_budget);
    out.append(&mut field);
    let mut field = u64_to_le_bytes(blob.slots.len() as u64);
    out.append(&mut field);
    let ghost header = out@;
    let n = blob.slots.len();
    let mut i: usize = 0;
    while i < n
        invariant
            n == blob.slots@.len(),
            i <= n,
            out@ == header + spec_encode_slots(blob.slots@.subrange(0, i as int)),
        decreases n - i,
    {
        proof {
            let taken = blob.slots@.subrange(0, i as int + 1);
            assert(taken.drop_last() =~= blob.slots@.subrange(0, i as int));
            assert(taken.last() == blob.slots@[i as int]);
        }
        let mut piece = u64_to_le_bytes(blob.slots[i]);
        out.append(&mut piece);
        proof {
            assert(out@ =~= header + spec_encode_slots(blob.slots@.subrange(0, i as int + 1)));
        }
        i += 1;
    }
    proof {
        assert(blob.slots@.subrange(0, n as int) =~= blob.slots@);
        lemma_encode_slots_len(blob.slots@);
        assert(out@ =~= spec_encode(blob@));
    }
    out
}

/// Deserializes a ciphertext from its wire format, accepting exactly the
/// well-formed encodings and rejecting every other byte string.
#[verifier::loop_isolation(false)]
pub fn decode_ciphertext(bytes: &Vec<u8>) -> (r: Option<CipherBlob>)
    ensures
        r is Some <==> spec_decode(bytes@) is Some,
        r is Some ==> r->0@ == spec_decode(bytes@)->0,
        r is Some ==> view_wf(r->0@),
{
    proof {
        lemma_auto_spec_u64_to_from_le_bytes();
        lemma_auto_spec_u32_to_from_le_bytes();
    }
    if bytes.len() < HEADER_LEN {
        return None;
    }
    let tag = match tag_of_byte(bytes[0]) {
        Some(tag) => tag,
        None => {
            return None;
        },
    };
    let context_id = u64_from_le_bytes(slice_subrange(bytes.as_slice(), 1, 9));
    let modulus = u64_from_le_bytes(slice_subrange(bytes.as_slice(), 9, 17));
    let noise_budget = u32_from_le_bytes(slice_subrange(bytes.as_slice(), 17, 21));
    let n = u64_from_le_bytes(slice_subrange(bytes.as_slice(), 21, 29));
    if modulus < 2 || modulus > crate::modring::MAX_PLAIN_MODULUS {
        return None;
    }
    if noise_budget > 0x7FFF_FFFF {
        return None;
    }
    if n < 1 {
        return None;
    }
    let rest = bytes.len() - HEADER_LEN;
    proof {
        vstd::arithmetic::div_mod::lemma_fundamental_div_mod(rest as int, 8);
    }
    if rest % 8 != 0 || (rest / 8) as u64 != n {
        return None;
    }
    let count = rest / 8;
    let ghost tail = bytes@.skip(HEADER_LEN as int);
    let mut slots: Vec<u64> = Vec::new();
    let mut i: usize = 0;
    while i < count
        invariant
            count == n,
            HEADER_LEN + 8 * count == bytes@.len(),
            bytes@.len() <= usize::MAX,
            tail == bytes@.skip(HEADER_LEN as int),
            i <= count,
            slots@ == spec_decode_slots(tail, i as nat),
            modulus_ok(modulus),
            slots_ok(slots@, modulus),
        decreases count - i,
    {
        proof {
            lemma_decode_slots_len(tail, i as nat);
            assert(bytes@.subrange(
                HEADER_LEN + 8 * (i as int),
                HEADER_LEN + 8 * (i as int) + 8,
            ) =~= tail.subrange(8 * (i as int), 8 * (i as int) + 8));
        }
        let slot = u64_from_le_bytes(
            slice_subrange(bytes.as_slice(), HEADER_LEN + 8 * i, HEADER_LEN + 8 * i + 8),
        );
        if slot >= modulus {
            proof {
                lemma_decode_slots_index(tail, n as nat, i as int);
                assert(!slots_ok(spec_decode_slots(tail, n as nat), modulus));
            }
            return None;
        }
        slots.push(slot);
        proof {
            assert(slots@ =~= spec_decode_slots(tail, (i + 1) as nat));
        }
        i += 1;
    }
    proof {
        lemma_decode_slots_len(tail, n as nat);
        assert(spec_decode(bytes@) is Some);
        assert(spec_decode(bytes@)->0 =~= (CipherView {
            tag,
            context_id,
            modulus,
            noise_budget,
            slots: slots@,
        }));
    }
    Some(CipherBlob { tag, context_id, modulus, noise_budget, slots })
}

} // verus!
