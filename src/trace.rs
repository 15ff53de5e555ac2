use vstd::prelude::*;
use crate::machine::{MachineState, MachineView, NUM_REGS};
use sha1::Digest;

verus! {

/// Width of a state hash in bytes.
pub const HASH_LEN: usize = 20;

/// The SHA-1 digest of a byte string.
pub uninterp spec fn sha1_of(data: Seq<u8>) -> Seq<u8>;

/// Relies on sha1::Sha1::digest: the 20-byte SHA-1 digest of the input,
/// which depends on the input bytes alone.
#[verifier::external_body]
fn sha1_digest(data: &Vec<u8>) -> (r: Vec<u8>)
    ensures
        r@ == sha1_of(data@),
        r@.len() == HASH_LEN,
{
    sha1::Sha1::digest(data.as_slice()).to_vec()
}

/// One record of the trace: the step counter after an instruction and the
/// chained hash of the state it left (empty when hashing is switched off).
pub struct TraceEntry {
    pub step: u64,
    pub state_hash: Vec<u8>,
}

pub struct TraceEntryView {
    pub step: u64,
    pub state_hash: Seq<u8>,
}

impl View for TraceEntry {
    type V = TraceEntryView;

    open spec fn view(&self) -> TraceEntryView {
        TraceEntryView { step: self.step, state_hash: self.state_hash@ }
    }
}

pub open spec fn u32_le(v: u32) -> Seq<u8> {
    seq![v as u8, (v >> 8) as u8, (v >> 16) as u8, (v >> 24) as u8]
}

pub open spec fn u64_le(v: u64) -> Seq<u8> {
    u32_le(v as u32) + u32_le((v >> 32) as u32)
}

/// Little-endian bytes of a sequence of words, in order.
pub open spec fn words_le(ws: Seq<u32>) -> Seq<u8>
    decreases ws.len(),
{
    if ws.len() == 0 {
        seq![]
    } else {
        words_le(ws.drop_last()) + u32_le(ws.last())
    }
}

/// Canonical encoding of a state: the registers, the program counter and
/// the step counter, all little-endian.
pub open spec fn serialize(s: MachineView) -> Seq<u8> {
    words_le(s.regs) + u32_le(s.pc) + u64_le(s.step)
}

/// The hash that precedes the first step.
pub open spec fn genesis_hash() -> Seq<u8> {
    Seq::new(HASH_LEN as nat, |i: int| 0u8)
}

/// One link of the chain: the hash of the prior hash followed by the state.
pub open spec fn chain_step(prior: Seq<u8>, s: MachineView) -> Seq<u8> {
    sha1_of(prior + serialize(s))
}

/// The hashes of a sequence of states chained from `start`.
pub open spec fn chain(start: Seq<u8>, states: Seq<MachineView>) -> Seq<Seq<u8>>
    decreases states.len(),
{
    if states.len() == 0 {
        seq![]
    } else {
        let prev = chain(start, states.drop_last());
        prev.push(chain_step(if prev.len() == 0 { start } else { prev.last() }, states.last()))
    }
}

fn push_u32(out: &mut Vec<u8>, v: u32)
    ensures
        final(out)@ == old(out)@ + u32_le(v),
{
    out.push((v & 0xff) as u8);
    out.push(((v >> 8) & 0xff) as u8);
    out.push(((v >> 16) & 0xff) as u8);
    out.push(((v >> 24) & 0xff) as u8);
    proof {
        assert((v & 0xff) as u8 == v as u8) by (bit_vector);
        assert(((v >> 8) & 0xff) as u8 == (v >> 8) as u8) by (bit_vector);
        assert(((v >> 16) & 0xff) as u8 == (v >> 16) as u8) by (bit_vector);
        assert(((v >> 24) & 0xff) as u8 == (v >> 24) as u8) by (bit_vector);
        assert(final(out)@ =~= old(out)@ + u32_le(v));
    }
}

/// Appends the canonical encoding of a state.
pub fn serialize_into(out: &mut Vec<u8>, st: &MachineState)
    requires
        st@.wf(),
    ensures
        final(out)@ == old(out)@ + serialize(st@),
{
    let ghost start = out@;
    let mut k: usize = 0;
    while k < NUM_REGS
        invariant
            k <= NUM_REGS,
            st@.wf(),
            out@ == start + words_le(st@.regs.subrange(0, k as int)),
        decreases NUM_REGS - k,
    {
        push_u32(out, st.registers[k]);
        proof {
            assert(st@.regs.subrange(0, k + 1).drop_last() =~= st@.regs.subrange(0, k as int));
            assert(start + words_le(st@.regs.subrange(0, k + 1)) =~= start + words_le(
                st@.regs.subrange(0, k as int),
            ) + u32_le(st@.regs[k as int]));
        }
        k = k + 1;
    }
    proof {
        assert(st@.regs.subrange(0, NUM_REGS as int) =~= st@.regs);
    }
    push_u32(out, st.pc);
    #[verifier::truncate]
    let lo = st.step as u32;
    #[verifier::truncate]
    let hi = (st.step >> 32) as u32;
    push_u32(out, lo);
    push_u32(out, hi);
    proof {
        assert(final(out)@ =~= old(out)@ + serialize(st@));
    }
}

/// The hash that precedes the first step: twenty zero bytes.
pub fn genesis() -> (r: Vec<u8>)
    ensures
        r@ == genesis_hash(),
{
    let mut r: Vec<u8> = Vec::new();
    while r.len() < HASH_LEN
        invariant
            r@.len() <= HASH_LEN,
            forall|i: int| 0 <= i < r@.len() ==> r@[i] == 0,
        decreases HASH_LEN - r@.len(),
    {
        r.push(0);
    }
    proof {
        assert(r@ =~= genesis_hash());
    }
    r
}

/// Folds a post-step state into the chain: returns the new hash and the
/// trace entry that records it.
pub fn record(prior: &Vec<u8>, st: &MachineState) -> (r: (Vec<u8>, TraceEntry))
    requires
        st@.wf(),
    ensures
        r.0@ == chain_step(prior@, st@),
        r.1@ == (TraceEntryView { step: st@.step, state_hash: chain_step(prior@, st@) }),
{
    let mut data: Vec<u8> = Vec::new();
    data.extend_from_slice(prior.as_slice());
    proof {
        assert(data@ =~= prior@);
    }
    serialize_into(&mut data, st);
    let h = sha1_digest(&data);
    let entry = TraceEntry { step: st.step, state_hash: h.clone() };
    (h, entry)
}

/// Lower-case hexadecimal digit for a value below 16.
pub open spec fn hex_digit(v: u8) -> u8 {
    if v < 10 { (48 + v) as u8 } else { (87 + v) as u8 }
}

/// Two lower-case hexadecimal digits per byte, high nibble first.
pub open spec fn hex_spec(b: Seq<u8>) -> Seq<u8> {
    Seq::new(
        2 * b.len(),
        |i: int| if i % 2 == 0 { hex_digit(b[i / 2] / 16) } else { hex_digit(b[i / 2] % 16) },
    )
}

fn digit(v: u8) -> (r: u8)
    requires
        v < 16,
    ensures
        r == hex_digit(v),
{
    if v < 10 { 48 + v } else { 87 + v }
}

/// Renders a hash as ASCII hexadecimal: forty characters for a state hash.
pub fn to_hex(b: &Vec<u8>) -> (r: Vec<u8>)
    requires
        b@.len() <= 0x1000_0000,
    ensures
        r@ == hex_spec(b@),
{
    let mut out: Vec<u8> = Vec::new();
    let mut k: usize = 0;
    while k < b.len()
        invariant
            k <= b@.len(),
            b@.len() <= 0x1000_0000,
            out@.len() == 2 * k,
            forall|i: int| 0 <= i < out@.len() ==> out@[i] == hex_spec(b@)[i],
        decreases b@.len() - k,
    {
        let hi = digit(b[k] / 16);
        let lo = digit(b[k] % 16);
        out.push(hi);
        out.push(lo);
        k = k + 1;
    }
    proof {
        assert(out@ =~= hex_spec(b@));
    }
    out
}

} // verus!
