//! Machine-code building blocks: little-endian encodings, `rel32` jumps and
//! NOP fills.
use vstd::prelude::*;

verus! {

/// The opcode of `jmp rel32`.
pub const JMP_REL32_OPCODE: u8 = 0xE9;

/// The one-byte `nop`.
pub const NOP_OPCODE: u8 = 0x90;

/// Length of a `jmp rel32` instruction.
pub const JMP_REL32_LEN: usize = 5;

/// The signed distance from the end of an instruction of `instruction_len`
/// bytes at `src` to `dst`.
pub open spec fn spec_jump_delta(src: int, dst: int, instruction_len: int) -> int {
    dst - (src + instruction_len)
}

/// `x` reduced to a 32-bit signed value, as 32-bit arithmetic wraps it.
pub open spec fn wrap_i32(x: int) -> int {
    let m = x % 0x1_0000_0000;
    if m >= 0x8000_0000 {
        m - 0x1_0000_0000
    } else {
        m
    }
}

/// Whether the addresses and the length fit in a 32-bit address space.
pub open spec fn fits_32(src: int, dst: int, instruction_len: int) -> bool {
    &&& 0 <= src < 0x1_0000_0000
    &&& 0 <= dst < 0x1_0000_0000
    &&& 0 <= instruction_len < 0x1_0000_0000
}

/// The `rel32` displacement of an instruction of `instruction_len` bytes at
/// `src` that transfers control to `dst`. In a 32-bit address space the
/// target address wraps at 2^32, so every target is in reach and the
/// displacement is the distance taken modulo 2^32; beyond it the distance
/// itself has to fit in 32 bits.
pub open spec fn spec_rel32(src: int, dst: int, instruction_len: int) -> Option<int> {
    let delta = spec_jump_delta(src, dst, instruction_len);
    if fits_32(src, dst, instruction_len) {
        Some(wrap_i32(delta))
    } else if i32::MIN <= delta <= i32::MAX {
        Some(delta)
    } else {
        None
    }
}

/// The four bytes of `x`, least significant first.
pub open spec fn le_u32_bytes(x: int) -> Seq<u8> {
    seq![
        (x % 256) as u8,
        ((x / 256) % 256) as u8,
        ((x / 65536) % 256) as u8,
        ((x / 16777216) % 256) as u8,
    ]
}

/// The unsigned value of four little-endian bytes.
pub open spec fn le_u32_value(b: Seq<u8>) -> int {
    b[0] as int + 256 * b[1] + 65536 * b[2] + 16777216 * b[3]
}

/// The two's complement bit pattern of a 32-bit signed value.
pub open spec fn twos_complement_u32(d: int) -> int {
    if d < 0 {
        d + 0x1_0000_0000
    } else {
        d
    }
}

/// The signed value of four little-endian bytes read as two's complement.
pub open spec fn le_i32_value(b: Seq<u8>) -> int {
    let u = le_u32_value(b);
    if u >= 0x8000_0000 {
        u - 0x1_0000_0000
    } else {
        u
    }
}

/// What `i32::to_le_bytes` returns.
pub open spec fn le_i32_bytes(d: int) -> Seq<u8> {
    le_u32_bytes(twos_complement_u32(d))
}

/// A `jmp rel32` whose displacement is `d`.
pub open spec fn jmp_rel32_bytes(d: int) -> Seq<u8> {
    seq![JMP_REL32_OPCODE] + le_i32_bytes(d)
}

/// `len` one-byte NOPs.
pub open spec fn nop_bytes(len: nat) -> Seq<u8> {
    Seq::new(len, |i: int| NOP_OPCODE)
}

/// Reading back the bytes of a `u32` gives it.
pub proof fn lemma_le_u32_roundtrip(x: int)
    requires
        0 <= x < 0x1_0000_0000,
    ensures
        le_u32_value(le_u32_bytes(x)) == x,
        le_u32_bytes(x).len() == 4,
{
    let b = le_u32_bytes(x);
    assert(b[0] as int == x % 256);
    assert(b[1] as int == (x / 256) % 256);
    assert(b[2] as int == (x / 65536) % 256);
    assert(b[3] as int == (x / 16777216) % 256);
    assert(x % 256 + 256 * ((x / 256) % 256) + 65536 * ((x / 65536) % 256) + 16777216 * ((x
        / 16777216) % 256) == x) by (nonlinear_arith)
        requires
            0 <= x < 0x1_0000_0000,
    ;
}

/// Reading back the bytes of an `i32` gives it.
pub proof fn lemma_le_i32_roundtrip(d: int)
    requires
        i32::MIN <= d <= i32::MAX,
    ensures
        le_i32_value(le_i32_bytes(d)) == d,
        le_i32_bytes(d).len() == 4,
{
    lemma_le_u32_roundtrip(twos_complement_u32(d));
}

/// The little-endian bytes of `x`.
pub fn u32_le_bytes(x: u32) -> (r: Vec<u8>)
    ensures
        r@ == le_u32_bytes(x as int),
{
    let mut r: Vec<u8> = Vec::new();
    r.push((x % 256) as u8);
    r.push(((x / 256) % 256) as u8);
    r.push(((x / 65536) % 256) as u8);
    r.push(((x / 16777216) % 256) as u8);
    assert(r@ =~= le_u32_bytes(x as int));
    r
}

/// The little-endian two's complement bytes of `d`.
pub fn i32_le_bytes(d: i32) -> (r: Vec<u8>)
    ensures
        r@ == le_i32_bytes(d as int),
{
    let u: u32 = if d < 0 {
        ((d as i64 + 0x8000_0000) as u32) + 0x8000_0000
    } else {
        d as u32
    };
    assert(u as int == twos_complement_u32(d as int));
    u32_le_bytes(u)
}

/// The low 32 bits of an address, as a 32-bit target stores it.
pub fn address_low_u32(addr: usize) -> (r: u32)
    ensures
        r as int == addr as int % 0x1_0000_0000,
{
    (addr as u64 % 0x1_0000_0000) as u32
}

/// The `rel32` displacement of an instruction of `instruction_len` bytes at
/// `src` that transfers control to `dst` (see [`spec_rel32`]): in a 32-bit
/// address space the distance modulo 2^32, beyond it the distance when it
/// fits in 32 bits, else `None`.
pub fn relative_jump_displacement(src: usize, dst: usize, instruction_len: usize) -> (r: Option<
    i32,
>)
    ensures
        r is Some <==> spec_rel32(src as int, dst as int, instruction_len as int) is Some,
        r matches Some(d) ==> spec_rel32(src as int, dst as int, instruction_len as int) == Some(
            d as int,
        ),
{
    let delta: i128 = dst as i128 - (src as i128 + instruction_len as i128);
    if (src as u64) <= 0xFFFF_FFFF && (dst as u64) <= 0xFFFF_FFFF && (instruction_len as u64)
        <= 0xFFFF_FFFF {
        let shifted: i128 = delta + 0x4_0000_0000;
        let m: i128 = shifted % 0x1_0000_0000;
        proof {
            vstd::arithmetic::div_mod::lemma_mod_multiples_vanish(
                4,
                delta as int,
                0x1_0000_0000,
            );
            assert(0x1_0000_0000 * 4 + delta as int == shifted as int);
            assert(m as int == (delta as int) % 0x1_0000_0000);
        }
        if m >= 0x8000_0000 {
            Some((m - 0x1_0000_0000) as i32)
        } else {
            Some(m as i32)
        }
    } else if delta < i32::MIN as i128 || delta > i32::MAX as i128 {
        None
    } else {
        Some(delta as i32)
    }
}

/// A `jmp rel32` placed at `src` that lands on `dst`, when `dst` is in reach.
pub fn encode_jmp_rel32(src: usize, dst: usize) -> (r: Option<Vec<u8>>)
    ensures
        r is Some <==> spec_rel32(src as int, dst as int, 5) is Some,
        r matches Some(b) ==> b@ == jmp_rel32_bytes(spec_rel32(src as int, dst as int, 5)->0),
{
    match relative_jump_displacement(src, dst, JMP_REL32_LEN) {
        None => None,
        Some(d) => {
            let mut b: Vec<u8> = Vec::new();
            b.push(JMP_REL32_OPCODE);
            let rel = i32_le_bytes(d);
            b.extend_from_slice(rel.as_slice());
            assert(b@ =~= jmp_rel32_bytes(d as int));
            Some(b)
        },
    }
}

/// A `jmp rel32` encoded at `src` transfers control to `dst`: the address
/// after the instruction plus the displacement it holds is `dst` modulo 2^32
/// (where a 32-bit processor wraps it), and exactly `dst` when the distance
/// fits in 32 bits or the addresses lie beyond a 32-bit space.
pub proof fn lemma_jmp_rel32_lands(src: int, dst: int)
    requires
        spec_rel32(src, dst, 5) is Some,
    ensures
        ({
            let b = jmp_rel32_bytes(spec_rel32(src, dst, 5)->0);
            let target = src + 5 + le_i32_value(b.subrange(1, 5));
            &&& b.len() == 5
            &&& b[0] == JMP_REL32_OPCODE
            &&& target % 0x1_0000_0000 == dst % 0x1_0000_0000
            &&& (i32::MIN <= spec_jump_delta(src, dst, 5) <= i32::MAX || !fits_32(src, dst, 5))
                ==> target == dst
        }),
{
    let delta = spec_jump_delta(src, dst, 5);
    let d = spec_rel32(src, dst, 5)->0;
    assert(i32::MIN <= d <= i32::MAX);
    lemma_le_i32_roundtrip(d);
    assert(jmp_rel32_bytes(d).subrange(1, 5) =~= le_i32_bytes(d));
    if fits_32(src, dst, 5) {
        let m = delta % 0x1_0000_0000;
        vstd::arithmetic::div_mod::lemma_fundamental_div_mod(delta, 0x1_0000_0000);
        let q = delta / 0x1_0000_0000;
        assert(delta == 0x1_0000_0000 * q + m);
        if m >= 0x8000_0000 {
            assert(src + 5 + d == dst - 0x1_0000_0000 * (q + 1)) by (nonlinear_arith)
                requires
                    d == m - 0x1_0000_0000,
                    delta == 0x1_0000_0000 * q + m,
                    delta == dst - (src + 5),
            ;
            vstd::arithmetic::div_mod::lemma_mod_multiples_vanish(
                -(q + 1),
                dst,
                0x1_0000_0000,
            );
            assert(0x1_0000_0000 * (-(q + 1)) + dst == src + 5 + d) by (nonlinear_arith)
                requires
                    src + 5 + d == dst - 0x1_0000_0000 * (q + 1),
            ;
        } else {
            assert(src + 5 + d == dst - 0x1_0000_0000 * q) by (nonlinear_arith)
                requires
                    d == m,
                    delta == 0x1_0000_0000 * q + m,
                    delta == dst - (src + 5),
            ;
            vstd::arithmetic::div_mod::lemma_mod_multiples_vanish(-q, dst, 0x1_0000_0000);
            assert(0x1_0000_0000 * (-q) + dst == src + 5 + d) by (nonlinear_arith)
                requires
                    src + 5 + d == dst - 0x1_0000_0000 * q,
            ;
        }
        if i32::MIN <= delta <= i32::MAX {
            if delta >= 0 {
                vstd::arithmetic::div_mod::lemma_small_mod(delta as nat, 0x1_0000_0000);
            } else {
                vstd::arithmetic::div_mod::lemma_mod_multiples_vanish(1, delta, 0x1_0000_0000);
                vstd::arithmetic::div_mod::lemma_small_mod(
                    (delta + 0x1_0000_0000) as nat,
                    0x1_0000_0000,
                );
            }
        }
    }
}

/// `len` NOP bytes, as `patch_nop` writes them.
pub fn nop_fill(len: usize) -> (r: Vec<u8>)
    ensures
        r@ == nop_bytes(len as nat),
{
    let mut r: Vec<u8> = Vec::new();
    let mut i: usize = 0;
    while i < len
        invariant
            i <= len,
            r@ == nop_bytes(i as nat),
        decreases len - i,
    {
        r.push(NOP_OPCODE);
        assert(r@ =~= nop_bytes((i + 1) as nat));
        i = i + 1;
    }
    r
}

} // verus!
