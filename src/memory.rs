use vstd::prelude::*;
use crate::image::{ImageView, ProgramImage};

verus! {

/// Base of the window where a guest program writes its results.
pub const OUTPUT_ADDRESS: u32 = 0xA000_2000;

/// Address a guest writes diagnostic characters to.
pub const DEBUG_ADDRESS: u32 = 0xA000_1000;

/// Base of the window that holds caller-supplied input values.
pub const INPUT_ADDRESS: u32 = 0xA000_1000;

/// Word written after the results to mark the output as complete.
pub const OUTPUT_DONE_MAGIC: u32 = 0xDEAD_BEEF;

/// The address of result word `k` in the output window.
pub open spec fn output_word_addr(k: int) -> u32 {
    (OUTPUT_ADDRESS + 4 * k) as u32
}

/// Whether the first `n` result words and the completion marker after them
/// can all be read.
pub open spec fn output_complete(m: ImageView, n: nat) -> bool {
    &&& forall|k: int| 0 <= k < n ==> m.read(output_word_addr(k), 4) is Some
    &&& m.read(output_word_addr(n as int), 4) == Some(OUTPUT_DONE_MAGIC)
}

/// Reads `n` result words from the output window, provided the word after
/// them holds the completion marker.
pub fn read_output(img: &ProgramImage, n: u32) -> (r: Option<Vec<u32>>)
    requires
        img.wf(),
        n < 0x1000,
    ensures
        r is Some <==> output_complete(img@, n as nat),
        r matches Some(v) ==> v@.len() == n && forall|k: int|
            0 <= k < n ==> img@.read(output_word_addr(k), 4) == Some(v@[k]),
{
    let mut out: Vec<u32> = Vec::new();
    let mut k: u32 = 0;
    while k < n
        invariant
            img.wf(),
            n < 0x1000,
            k <= n,
            out@.len() == k,
            forall|j: int| 0 <= j < k ==> img@.read(output_word_addr(j), 4) == Some(out@[j]),
        decreases n - k,
    {
        assert(output_word_addr(k as int) == OUTPUT_ADDRESS + 4 * k);
        match img.read(OUTPUT_ADDRESS + 4 * k, 4) {
            Some(v) => out.push(v),
            None => {
                assert(!(img@.read(output_word_addr(k as int), 4) is Some));
                return None;
            },
        }
        k = k + 1;
    }
    if img.read(OUTPUT_ADDRESS + 4 * n, 4) == Some(OUTPUT_DONE_MAGIC) {
        Some(out)
    } else {
        None
    }
}

} // verus!
