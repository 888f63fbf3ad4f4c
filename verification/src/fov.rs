//! The field-of-view hook: a `jmp` at the projection code into a code cave
//! that scales the FOV by a multiplier before running the displaced
//! instructions and jumping back.
use vstd::prelude::*;

use crate::patch_utils::{
    address_low_u32, encode_jmp_rel32, jmp_rel32_bytes, le_i32_value, le_u32_bytes, le_u32_value,
    lemma_jmp_rel32_lands, lemma_le_u32_roundtrip, spec_rel32, u32_le_bytes, NOP_OPCODE,
};

verus! {

/// Offset of the hooked instructions in the game image.
pub const FOV_HOOK_OFFSET: usize = 0x89260F;

/// Offset of the instruction after them, where the cave returns.
pub const FOV_RETURN_OFFSET: usize = 0x892615;

/// Size of the code cave allocation.
pub const FOV_CAVE_SIZE: usize = 0x1000;

/// Offset of the cave's closing `jmp` in the cave.
pub const FOV_CAVE_JMP_OFFSET: usize = 12;

/// The instructions at the hook site in the supported game build:
/// `fstp dword ptr [esp+10h]` then `call edx`.
pub open spec fn fov_site_original_bytes() -> Seq<u8> {
    seq![0xD9u8, 0x5Cu8, 0x24u8, 0x10u8, 0xFFu8, 0xD2u8]
}

/// The cave: `fmul dword ptr [multiplier]`, the displaced instructions, then
/// `jmp` back with displacement `return_rel`.
pub open spec fn fov_cave_code(multiplier_addr: int, return_rel: int) -> Seq<u8> {
    seq![0xD8u8, 0x0Du8] + le_u32_bytes(multiplier_addr % 0x1_0000_0000)
        + fov_site_original_bytes() + jmp_rel32_bytes(return_rel)
}

/// Whether the bytes at the hook site are the ones this hook was made for.
pub fn is_expected_fov_hook_site(current: &[u8]) -> (b: bool)
    ensures
        b == (current@ == fov_site_original_bytes()),
{
    let expected: [u8; 6] = [0xD9, 0x5C, 0x24, 0x10, 0xFF, 0xD2];
    assert(expected@ == fov_site_original_bytes());
    if current.len() != 6 {
        return false;
    }
    let mut i: usize = 0;
    while i < 6
        invariant
            current@.len() == 6,
            expected@ == fov_site_original_bytes(),
            i <= 6,
            forall|k: int| 0 <= k < i ==> current@[k] == expected@[k],
        decreases 6 - i,
    {
        if current[i] != expected[i] {
            return false;
        }
        i = i + 1;
    }
    assert(current@ =~= fov_site_original_bytes());
    true
}

/// The hook site and the return address in an image loaded at `base`.
pub fn fov_hook_addresses(base: usize) -> (r: (usize, usize))
    requires
        base + FOV_RETURN_OFFSET <= usize::MAX,
    ensures
        r.0 == base + FOV_HOOK_OFFSET,
        r.1 == base + FOV_RETURN_OFFSET,
{
    (base + FOV_HOOK_OFFSET, base + FOV_RETURN_OFFSET)
}

/// The code for a cave at `cave` that multiplies by the `f32` at
/// `multiplier_addr` and returns to `return_addr`; `None` when the return
/// jump cannot reach.
pub fn build_fov_cave_code(cave: usize, return_addr: usize, multiplier_addr: usize) -> (r: Option<
    Vec<u8>,
>)
    requires
        cave + FOV_CAVE_SIZE <= usize::MAX + 1,
    ensures
        r is Some <==> spec_rel32(cave + 12, return_addr as int, 5) is Some,
        r matches Some(code) ==> code@ == fov_cave_code(
            multiplier_addr as int,
            spec_rel32(cave + 12, return_addr as int, 5)->0,
        ),
{
    let cave_jmp_addr = cave + FOV_CAVE_JMP_OFFSET;
    match encode_jmp_rel32(cave_jmp_addr, return_addr) {
        None => None,
        Some(jmp) => {
            let mut code: Vec<u8> = Vec::new();
            code.push(0xD8);
            code.push(0x0D);
            let addr = u32_le_bytes(address_low_u32(multiplier_addr));
            code.extend_from_slice(addr.as_slice());
            code.push(0xD9);
            code.push(0x5C);
            code.push(0x24);
            code.push(0x10);
            code.push(0xFF);
            code.push(0xD2);
            code.extend_from_slice(jmp.as_slice());
            assert(code@ =~= fov_cave_code(
                multiplier_addr as int,
                spec_rel32(cave + 12, return_addr as int, 5)->0,
            ));
            Some(code)
        },
    }
}

/// The six bytes written over the hook site: a `jmp` to the cave and a `nop`;
/// `None` when the cave is out of reach.
pub fn build_fov_hook_patch(hook_addr: usize, cave: usize) -> (r: Option<Vec<u8>>)
    ensures
        r is Some <==> spec_rel32(hook_addr as int, cave as int, 5) is Some,
        r matches Some(p) ==> p@ == jmp_rel32_bytes(
            spec_rel32(hook_addr as int, cave as int, 5)->0,
        ).push(NOP_OPCODE),
{
    match encode_jmp_rel32(hook_addr, cave) {
        None => None,
        Some(jmp) => {
            let mut p = jmp;
            p.push(NOP_OPCODE);
            Some(p)
        },
    }
}

/// The hook replaces exactly the displaced instructions: its patch is as long
/// as them, the return address follows them, the cave runs them unchanged
/// after the multiply, its `fmul` reads the multiplier's address, its last
/// `jmp` lands on the return address and the patch's `jmp` lands on the cave
/// (modulo 2^32, as a 32-bit processor computes jump targets).
pub proof fn lemma_fov_hook_round_trip(
    base: int,
    cave: int,
    multiplier_addr: int,
    return_rel: int,
    hook_rel: int,
)
    requires
        0 <= multiplier_addr,
        spec_rel32(cave + 12, base + FOV_RETURN_OFFSET, 5) == Some(return_rel),
        spec_rel32(base + FOV_HOOK_OFFSET, cave, 5) == Some(hook_rel),
    ensures
        jmp_rel32_bytes(hook_rel).push(NOP_OPCODE).len() == fov_site_original_bytes().len(),
        base + FOV_HOOK_OFFSET + fov_site_original_bytes().len() == base + FOV_RETURN_OFFSET,
        (base + FOV_HOOK_OFFSET + 5 + le_i32_value(jmp_rel32_bytes(hook_rel).subrange(1, 5)))
            % 0x1_0000_0000 == cave % 0x1_0000_0000,
        fov_cave_code(multiplier_addr, return_rel).len() == 17,
        fov_cave_code(multiplier_addr, return_rel).subrange(6, 12) == fov_site_original_bytes(),
        le_u32_value(fov_cave_code(multiplier_addr, return_rel).subrange(2, 6)) == multiplier_addr
            % 0x1_0000_0000,
        (cave + 12 + 5 + le_i32_value(fov_cave_code(multiplier_addr, return_rel).subrange(13, 17)))
            % 0x1_0000_0000 == (base + FOV_RETURN_OFFSET) % 0x1_0000_0000,
{
    lemma_jmp_rel32_lands(base + FOV_HOOK_OFFSET, cave);
    lemma_jmp_rel32_lands(cave + 12, base + FOV_RETURN_OFFSET);
    lemma_le_u32_roundtrip(multiplier_addr % 0x1_0000_0000);
    let code = fov_cave_code(multiplier_addr, return_rel);
    assert(code.subrange(6, 12) =~= fov_site_original_bytes());
    assert(code.subrange(2, 6) =~= le_u32_bytes(multiplier_addr % 0x1_0000_0000));
    assert(code.subrange(13, 17) =~= jmp_rel32_bytes(return_rel).subrange(1, 5));
}

} // verus!
