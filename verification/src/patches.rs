//! The patch that fixes the engine's vote kick code: which bytes are written where.
use vstd::prelude::*;

verus! {

/// Where, after the start of the engine's callvote function, the patch goes.
pub const OFFSET_VOTE_CLIENTKICK_FIX: usize = 0x11C8;

/// The bytes of the vote kick fix.
pub open spec fn vote_clientkick_fix_pattern() -> Seq<u8> {
    seq![
        0x39u8, 0xFE, 0x0F, 0x8D, 0x90, 0x00, 0x00, 0x00, 0x48, 0x69, 0xD6, 0xF8, 0x0B, 0x00, 0x00, 0x48,
        0x01, 0xD0, 0x90, 0x90, 0x90, 0x00, 0x00, 0x00, 0x00, 0x00, 0x00, 0x00, 0x0f, 0x85, 0x76, 0x00,
        0x00, 0x00, 0x90, 0x90, 0x90, 0x90,
    ]
}

/// Which bytes of the vote kick fix are written: `X` marks a byte to write,
/// `-` one to keep.
pub open spec fn vote_clientkick_fix_mask() -> Seq<u8> {
    seq![
        88u8, 88, 88, 88, 88, 88, 88, 88, 88, 88, 88, 88, 88, 88, 88, 88, 88, 88, 88, 88, 88, 45, 45, 45, 45,
        45, 45, 45, 88, 88, 88, 88, 88, 88, 88, 88, 88, 88,
    ]
}

/// The bytes of the vote kick fix.
pub fn vote_clientkick_fix_pattern_bytes() -> (r: Vec<u8>)
    ensures
        r@ == vote_clientkick_fix_pattern(),
{
    let r: Vec<u8> = vec![
        0x39u8, 0xFE, 0x0F, 0x8D, 0x90, 0x00, 0x00, 0x00, 0x48, 0x69, 0xD6, 0xF8, 0x0B, 0x00, 0x00, 0x48,
        0x01, 0xD0, 0x90, 0x90, 0x90, 0x00, 0x00, 0x00, 0x00, 0x00, 0x00, 0x00, 0x0f, 0x85, 0x76, 0x00,
        0x00, 0x00, 0x90, 0x90, 0x90, 0x90,
    ];
    assert(r@ =~= vote_clientkick_fix_pattern());
    r
}

/// The mask of the vote kick fix.
pub fn vote_clientkick_fix_mask_bytes() -> (r: Vec<u8>)
    ensures
        r@ == vote_clientkick_fix_mask(),
{
    let r: Vec<u8> = vec![
        88u8, 88, 88, 88, 88, 88, 88, 88, 88, 88, 88, 88, 88, 88, 88, 88, 88, 88, 88, 88, 88, 45, 45, 45, 45,
        45, 45, 45, 88, 88, 88, 88, 88, 88, 88, 88, 88, 88,
    ];
    assert(r@ =~= vote_clientkick_fix_mask());
    r
}

/// One byte written into the engine's code.
#[derive(Clone, Copy, Debug, PartialEq, Eq)]
pub struct PatchWrite {
    pub address: usize,
    pub value: u8,
}

/// The writes of a masked patch of the first `n` bytes at `base`: for each
/// position whose mask byte is `X`, the pattern byte at that position, in order.
pub open spec fn masked_writes(base: usize, pattern: Seq<u8>, mask: Seq<u8>, n: int) -> Seq<PatchWrite>
    decreases n,
{
    if n <= 0 {
        Seq::empty()
    } else if mask[n - 1] == 88u8 {
        masked_writes(base, pattern, mask, n - 1).push(
            PatchWrite { address: ((base + (n - 1)) % (usize::MAX as int + 1)) as usize, value: pattern[n - 1] },
        )
    } else {
        masked_writes(base, pattern, mask, n - 1)
    }
}

/// The bytes a masked patch writes: the pattern bytes at the positions that
/// the mask marks with `X`, at `orig_addr + offset` and on.
pub fn patch_by_mask(orig_addr: usize, offset: usize, pattern: &[u8], mask: &[u8]) -> (r: Vec<PatchWrite>)
    requires
        orig_addr + offset <= usize::MAX,
        pattern@.len() >= mask@.len(),
    ensures
        r@ == masked_writes((orig_addr + offset) as usize, pattern@, mask@, mask@.len() as int),
{
    let base = orig_addr + offset;
    let mut writes: Vec<PatchWrite> = Vec::new();
    let mut i: usize = 0;
    while i < mask.len()
        invariant
            i <= mask@.len(),
            pattern@.len() >= mask@.len(),
            base == orig_addr + offset,
            writes@ == masked_writes(base, pattern@, mask@, i as int),
        decreases mask@.len() - i,
    {
        if mask[i] == 88u8 {
            writes.push(PatchWrite { address: base.wrapping_add(i), value: pattern[i] });
        }
        i = i + 1;
    }
    writes
}

/// The bytes the vote kick fix writes into the callvote function at `orig_addr`.
pub fn patch_callvote_f(orig_addr: usize) -> (r: Vec<PatchWrite>)
    requires
        orig_addr + OFFSET_VOTE_CLIENTKICK_FIX <= usize::MAX,
    ensures
        r@ == masked_writes(
            (orig_addr + OFFSET_VOTE_CLIENTKICK_FIX) as usize,
            vote_clientkick_fix_pattern(),
            vote_clientkick_fix_mask(),
            38,
        ),
{
    let pattern = vote_clientkick_fix_pattern_bytes();
    let mask = vote_clientkick_fix_mask_bytes();
    patch_by_mask(orig_addr, OFFSET_VOTE_CLIENTKICK_FIX, pattern.as_slice(), mask.as_slice())
}

} // verus!
