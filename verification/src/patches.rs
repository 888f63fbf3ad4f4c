//! The patch groups: which bytes go where in the game image, and which groups
//! a configuration turns on.
use vstd::prelude::*;

use crate::config::PatchConfig;
use crate::patch_utils::{nop_bytes, nop_fill, NOP_OPCODE};

verus! {

/// The farthest a patch group reaches past the image base.
pub const MAX_PATCH_EXTENT: usize = 0x1060000;

/// One step of a patch group.
#[derive(Debug)]
pub enum PatchOp {
    /// Write `bytes` at `addr`.
    Write { addr: usize, bytes: Vec<u8> },
    /// Fill `len` bytes at `addr` with NOPs.
    Nop { addr: usize, len: usize },
    /// Flush the instruction cache over `len` bytes at `addr`.
    Flush { addr: usize, len: usize, tag: &'static str },
}

/// A patch step as the contracts see it.
pub enum PatchStep {
    Write(int, Seq<u8>),
    Nop(int, int),
    Flush(int, int, Seq<char>),
}

impl View for PatchOp {
    type V = PatchStep;

    open spec fn view(&self) -> PatchStep {
        match self {
            PatchOp::Write { addr, bytes } => PatchStep::Write(*addr as int, bytes@),
            PatchOp::Nop { addr, len } => PatchStep::Nop(*addr as int, *len as int),
            PatchOp::Flush { addr, len, tag } => PatchStep::Flush(*addr as int, *len as int, tag@),
        }
    }
}

pub open spec fn plan_view(ops: Seq<PatchOp>) -> Seq<PatchStep> {
    ops.map_values(|o: PatchOp| o@)
}

/// The bytes a step puts into memory, if it writes any.
pub open spec fn step_bytes(s: PatchStep) -> Option<Seq<u8>> {
    match s {
        PatchStep::Write(_, b) => Some(b),
        PatchStep::Nop(_, len) => Some(nop_bytes(len as nat)),
        PatchStep::Flush(..) => None,
    }
}

/// The first address and the length of what a step writes (a flush writes
/// nothing).
pub open spec fn step_range(s: PatchStep) -> (int, int) {
    match s {
        PatchStep::Write(a, b) => (a, b.len() as int),
        PatchStep::Nop(a, len) => (a, len),
        PatchStep::Flush(a, _, _) => (a, 0),
    }
}

/// No two steps of a plan write the same byte.
pub open spec fn writes_disjoint(steps: Seq<PatchStep>) -> bool {
    forall|i: int, j: int|
        #![trigger steps[i], steps[j]]
        0 <= i < j < steps.len() ==> {
            let (a, n) = step_range(steps[i]);
            let (c, m) = step_range(steps[j]);
            a + n <= c || c + m <= a
        }
}

/// The anti-tamper group. Offsets are virtual addresses of the supported
/// build less its preferred base `0x400000`: the tamper trigger
/// `mov dword ptr [ecx+128h], 25h` at VA `0x00D63F56` is `b + 0x963F56`.
pub open spec fn anti_tamper_plan(b: int) -> Seq<PatchStep> {
    seq![
        PatchStep::Nop(b + 0x963F56, 10),
        PatchStep::Flush(b + 0x960000, 0x10000, "anti tamper region"@),
        PatchStep::Write(b + 0x1059EA4, seq![0x00u8, 0x00u8, 0x00u8, 0x00u8]),
        PatchStep::Flush(b + 0x1050000, 0x10000, "anti debug region"@),
        PatchStep::Nop(b + 0x9525EC, 5),
        PatchStep::Write(b + 0x4BB9BF, seq![0x01u8]),
        PatchStep::Write(b + 0x963F35, seq![0x31u8, 0xC0u8, 0x90u8, 0x90u8, 0x90u8, 0x90u8]),
        PatchStep::Write(b + 0x963F11, seq![0x31u8, 0xC0u8]),
        PatchStep::Flush(b + 0x4B0000, 0x10000, "first flag quit region"@),
        PatchStep::Flush(b + 0x490000, 0x10000, "second flag quit region"@),
        PatchStep::Flush(b + 0x950000, 0x10000, "killswitch region"@),
        PatchStep::Flush(b + 0x960000, 0x10000, "debug check region"@),
    ]
}

pub open spec fn fldz_nops() -> Seq<u8> {
    seq![0xD9u8, 0xEEu8, 0x90u8, 0x90u8, 0x90u8, 0x90u8]
}

pub open spec fn fstp_st0_nops() -> Seq<u8> {
    seq![0xD9u8, 0xD8u8, 0x90u8, 0x90u8, 0x90u8, 0x90u8]
}

pub open spec fn xorps_xmm0_nops() -> Seq<u8> {
    seq![0x0Fu8, 0x57u8, 0xC0u8, 0x90u8, 0x90u8, 0x90u8, 0x90u8, 0x90u8]
}

/// The camera-fix group. The frame-time multiply at `b + 0x881AA0` lies in
/// none of the group's other flushed regions, so its region
/// `b + 0x880000` is flushed too.
pub open spec fn camera_fix_plan(b: int) -> Seq<PatchStep> {
    seq![
        PatchStep::Write(b + 0x7BCFBE, fldz_nops()),
        PatchStep::Write(b + 0x7BD001, fstp_st0_nops()),
        PatchStep::Write(b + 0x7BD015, fstp_st0_nops()),
        PatchStep::Nop(b + 0x7BDC44, 8),
        PatchStep::Nop(b + 0x7BDC4C, 8),
        PatchStep::Write(b + 0x851244, seq![0xEBu8]),
        PatchStep::Write(b + 0x851274, seq![0xEBu8]),
        PatchStep::Write(b + 0x8A2281, xorps_xmm0_nops()),
        PatchStep::Write(b + 0x8A229C, xorps_xmm0_nops()),
        PatchStep::Write(b + 0x881AA0, seq![0xD8u8, 0x4Du8, 0x0Cu8, 0x90u8, 0x90u8, 0x90u8]),
        PatchStep::Write(b + 0x7BD440, seq![0xD9u8, 0xEEu8]),
        PatchStep::Write(b + 0x7BD4A9, seq![0xDCu8, 0x0Du8, 0x88u8, 0x9Eu8, 0xF4u8, 0x00u8]),
        PatchStep::Write(b + 0x7BD4AF, fstp_st0_nops()),
        PatchStep::Flush(b + 0x7B0000, 0x20000, "camera update region"@),
        PatchStep::Flush(b + 0x850000, 0x10000, "shake LUT region"@),
        PatchStep::Flush(b + 0x8A0000, 0x10000, "amplitude region"@),
        PatchStep::Flush(b + 0x8C0000, 0x10000, "camera position region"@),
        PatchStep::Flush(b + 0x880000, 0x10000, "camera frame-time region"@),
    ]
}

pub open spec fn camera_shake_plan(b: int) -> Seq<PatchStep> {
    seq![
        PatchStep::Write(b + 0x88F790, fldz_nops()),
        PatchStep::Write(b + 0x88F7BD, fldz_nops()),
        PatchStep::Write(b + 0x88F735, fldz_nops()),
        PatchStep::Flush(b + 0x880000, 0x10000, "exterior camera jitter region"@),
    ]
}

pub open spec fn dlc_car_dealer_plan(b: int) -> Seq<PatchStep> {
    seq![
        PatchStep::Write(b + 0x5F696B, seq![0xEBu8]),
        PatchStep::Write(b + 0x59DE9F, seq![0xEBu8]),
        PatchStep::Write(b + 0x9A5296, seq![0xEBu8]),
        PatchStep::Flush(b + 0x5F0000, 0x10000, "DLC car dealer region"@),
    ]
}

fn b1(a: u8) -> (v: Vec<u8>)
    ensures
        v@ == seq![a],
{
    let mut v: Vec<u8> = Vec::new();
    v.push(a);
    assert(v@ =~= seq![a]);
    v
}

fn b2(a: u8, b: u8) -> (v: Vec<u8>)
    ensures
        v@ == seq![a, b],
{
    let mut v = b1(a);
    v.push(b);
    assert(v@ =~= seq![a, b]);
    v
}

fn b4(a: u8, b: u8, c: u8, d: u8) -> (v: Vec<u8>)
    ensures
        v@ == seq![a, b, c, d],
{
    let mut v = b2(a, b);
    v.push(c);
    v.push(d);
    assert(v@ =~= seq![a, b, c, d]);
    v
}

fn b6(a: u8, b: u8, c: u8, d: u8, e: u8, f: u8) -> (v: Vec<u8>)
    ensures
        v@ == seq![a, b, c, d, e, f],
{
    let mut v = b4(a, b, c, d);
    v.push(e);
    v.push(f);
    assert(v@ =~= seq![a, b, c, d, e, f]);
    v
}

fn b8(a: u8, b: u8, c: u8, d: u8, e: u8, f: u8, g: u8, h: u8) -> (v: Vec<u8>)
    ensures
        v@ == seq![a, b, c, d, e, f, g, h],
{
    let mut v = b6(a, b, c, d, e, f);
    v.push(g);
    v.push(h);
    assert(v@ =~= seq![a, b, c, d, e, f, g, h]);
    v
}

fn write_op(addr: usize, bytes: Vec<u8>) -> (op: PatchOp)
    ensures
        op@ == PatchStep::Write(addr as int, bytes@),
{
    PatchOp::Write { addr, bytes }
}

/// The anti-tamper group for an image at `base`: silences the tamper trigger,
/// the `IsDebuggerPresent` checks and the flag that quits the game.
pub fn apply_anti_tamper_patches(base: usize) -> (plan: Vec<PatchOp>)
    requires
        base + MAX_PATCH_EXTENT <= usize::MAX,
    ensures
        plan_view(plan@) == anti_tamper_plan(base as int),
{
    let mut p: Vec<PatchOp> = Vec::new();
    p.push(PatchOp::Nop { addr: base + 0x963F56, len: 10 });
    p.push(PatchOp::Flush { addr: base + 0x960000, len: 0x10000, tag: "anti tamper region" });
    p.push(write_op(base + 0x1059EA4, b4(0x00, 0x00, 0x00, 0x00)));
    p.push(PatchOp::Flush { addr: base + 0x1050000, len: 0x10000, tag: "anti debug region" });
    p.push(PatchOp::Nop { addr: base + 0x9525EC, len: 5 });
    p.push(write_op(base + 0x4BB9BF, b1(0x01)));
    p.push(write_op(base + 0x963F35, b6(0x31, 0xC0, 0x90, 0x90, 0x90, 0x90)));
    p.push(write_op(base + 0x963F11, b2(0x31, 0xC0)));
    p.push(PatchOp::Flush { addr: base + 0x4B0000, len: 0x10000, tag: "first flag quit region" });
    p.push(PatchOp::Flush { addr: base + 0x490000, len: 0x10000, tag: "second flag quit region" });
    p.push(PatchOp::Flush { addr: base + 0x950000, len: 0x10000, tag: "killswitch region" });
    p.push(PatchOp::Flush { addr: base + 0x960000, len: 0x10000, tag: "debug check region" });
    assert(plan_view(p@) =~= anti_tamper_plan(base as int));
    p
}

/// The camera-fix group: phase accumulators, shake lookups, amplitudes and
/// the frame-time multiply, each region flushed after the writes.
pub fn apply_camera_fix_patches(base: usize) -> (plan: Vec<PatchOp>)
    requires
        base + MAX_PATCH_EXTENT <= usize::MAX,
    ensures
        plan_view(plan@) == camera_fix_plan(base as int),
{
    let mut p: Vec<PatchOp> = Vec::new();
    p.push(write_op(base + 0x7BCFBE, b6(0xD9, 0xEE, 0x90, 0x90, 0x90, 0x90)));
    p.push(write_op(base + 0x7BD001, b6(0xD9, 0xD8, 0x90, 0x90, 0x90, 0x90)));
    p.push(write_op(base + 0x7BD015, b6(0xD9, 0xD8, 0x90, 0x90, 0x90, 0x90)));
    p.push(PatchOp::Nop { addr: base + 0x7BDC44, len: 8 });
    p.push(PatchOp::Nop { addr: base + 0x7BDC4C, len: 8 });
    p.push(write_op(base + 0x851244, b1(0xEB)));
    p.push(write_op(base + 0x851274, b1(0xEB)));
    p.push(write_op(base + 0x8A2281, b8(0x0F, 0x57, 0xC0, 0x90, 0x90, 0x90, 0x90, 0x90)));
    p.push(write_op(base + 0x8A229C, b8(0x0F, 0x57, 0xC0, 0x90, 0x90, 0x90, 0x90, 0x90)));
    p.push(write_op(base + 0x881AA0, b6(0xD8, 0x4D, 0x0C, 0x90, 0x90, 0x90)));
    p.push(write_op(base + 0x7BD440, b2(0xD9, 0xEE)));
    p.push(write_op(base + 0x7BD4A9, b6(0xDC, 0x0D, 0x88, 0x9E, 0xF4, 0x00)));
    p.push(write_op(base + 0x7BD4AF, b6(0xD9, 0xD8, 0x90, 0x90, 0x90, 0x90)));
    p.push(PatchOp::Flush { addr: base + 0x7B0000, len: 0x20000, tag: "camera update region" });
    p.push(PatchOp::Flush { addr: base + 0x850000, len: 0x10000, tag: "shake LUT region" });
    p.push(PatchOp::Flush { addr: base + 0x8A0000, len: 0x10000, tag: "amplitude region" });
    p.push(PatchOp::Flush { addr: base + 0x8C0000, len: 0x10000, tag: "camera position region" });
    p.push(PatchOp::Flush { addr: base + 0x880000, len: 0x10000, tag: "camera frame-time region" });
    assert(plan_view(p@) =~= camera_fix_plan(base as int));
    p
}

/// The exterior camera shake group: the shake accumulators load zero.
pub fn apply_camera_shake_patch(base: usize) -> (plan: Vec<PatchOp>)
    requires
        base + MAX_PATCH_EXTENT <= usize::MAX,
    ensures
        plan_view(plan@) == camera_shake_plan(base as int),
{
    let mut p: Vec<PatchOp> = Vec::new();
    p.push(write_op(base + 0x88F790, b6(0xD9, 0xEE, 0x90, 0x90, 0x90, 0x90)));
    p.push(write_op(base + 0x88F7BD, b6(0xD9, 0xEE, 0x90, 0x90, 0x90, 0x90)));
    p.push(write_op(base + 0x88F735, b6(0xD9, 0xEE, 0x90, 0x90, 0x90, 0x90)));
    p.push(
        PatchOp::Flush { addr: base + 0x880000, len: 0x10000, tag: "exterior camera jitter region" },
    );
    assert(plan_view(p@) =~= camera_shake_plan(base as int));
    p
}

/// The DLC car dealer group: DLC cars are listed as ordinary cars.
pub fn apply_dlc_car_dealer_patches(base: usize) -> (plan: Vec<PatchOp>)
    requires
        base + MAX_PATCH_EXTENT <= usize::MAX,
    ensures
        plan_view(plan@) == dlc_car_dealer_plan(base as int),
{
    let mut p: Vec<PatchOp> = Vec::new();
    p.push(write_op(base + 0x5F696B, b1(0xEB)));
    p.push(write_op(base + 0x59DE9F, b1(0xEB)));
    p.push(write_op(base + 0x9A5296, b1(0xEB)));
    p.push(PatchOp::Flush { addr: base + 0x5F0000, len: 0x10000, tag: "DLC car dealer region" });
    assert(plan_view(p@) =~= dlc_car_dealer_plan(base as int));
    p
}

/// The bytes a step writes: its own bytes, or NOPs (`patch_nop`).
pub fn patch_op_bytes(op: &PatchOp) -> (r: Option<Vec<u8>>)
    ensures
        match r {
            Some(b) => step_bytes(op@) == Some(b@),
            None => step_bytes(op@) is None,
        },
{
    match op {
        PatchOp::Write { addr: _, bytes } => Some(bytes.clone()),
        PatchOp::Nop { addr: _, len } => Some(nop_fill(*len)),
        PatchOp::Flush { .. } => None,
    }
}

/// Within each patch group no two steps write the same byte, so the order of
/// the writes does not matter.
pub proof fn lemma_patch_groups_disjoint(b: int)
    ensures
        writes_disjoint(anti_tamper_plan(b)),
        writes_disjoint(camera_fix_plan(b)),
        writes_disjoint(camera_shake_plan(b)),
        writes_disjoint(dlc_car_dealer_plan(b)),
{
    let a = anti_tamper_plan(b);
    assert forall|i: int, j: int| 0 <= i < j < a.len() implies {
        let (x, n) = step_range(#[trigger] a[i]);
        let (y, m) = step_range(#[trigger] a[j]);
        x + n <= y || y + m <= x
    } by {
        assert(seq![0x00u8, 0x00u8, 0x00u8, 0x00u8].len() == 4);
        assert(seq![0x01u8].len() == 1);
        assert(seq![0x31u8, 0xC0u8, 0x90u8, 0x90u8, 0x90u8, 0x90u8].len() == 6);
        assert(seq![0x31u8, 0xC0u8].len() == 2);
    }
    let c = camera_fix_plan(b);
    assert forall|i: int, j: int| 0 <= i < j < c.len() implies {
        let (x, n) = step_range(#[trigger] c[i]);
        let (y, m) = step_range(#[trigger] c[j]);
        x + n <= y || y + m <= x
    } by {
        assert(fldz_nops().len() == 6);
        assert(fstp_st0_nops().len() == 6);
        assert(xorps_xmm0_nops().len() == 8);
        assert(seq![0xEBu8].len() == 1);
        assert(seq![0xD8u8, 0x4Du8, 0x0Cu8, 0x90u8, 0x90u8, 0x90u8].len() == 6);
        assert(seq![0xD9u8, 0xEEu8].len() == 2);
        assert(seq![0xDCu8, 0x0Du8, 0x88u8, 0x9Eu8, 0xF4u8, 0x00u8].len() == 6);
    }
    let s = camera_shake_plan(b);
    assert forall|i: int, j: int| 0 <= i < j < s.len() implies {
        let (x, n) = step_range(#[trigger] s[i]);
        let (y, m) = step_range(#[trigger] s[j]);
        x + n <= y || y + m <= x
    } by {
        assert(fldz_nops().len() == 6);
    }
    let d = dlc_car_dealer_plan(b);
    assert forall|i: int, j: int| 0 <= i < j < d.len() implies {
        let (x, n) = step_range(#[trigger] d[i]);
        let (y, m) = step_range(#[trigger] d[j]);
        x + n <= y || y + m <= x
    } by {
        assert(seq![0xEBu8].len() == 1);
    }
}

/// Step `f` flushes the instruction cache over every byte that step `w`
/// writes.
pub open spec fn flush_covers(w: PatchStep, f: PatchStep) -> bool {
    match f {
        PatchStep::Flush(fa, flen, _) => {
            let (a, n) = step_range(w);
            fa <= a && a + n <= fa + flen
        },
        _ => false,
    }
}

/// Every byte a plan writes lies in a region that the plan flushes.
pub open spec fn writes_flushed(steps: Seq<PatchStep>) -> bool {
    forall|i: int|
        0 <= i < steps.len() && !(steps[i] is Flush) ==> exists|j: int|
            0 <= j < steps.len() && #[trigger] flush_covers(steps[i], steps[j])
}

/// The anti-tamper, camera-fix and camera-shake groups flush every byte they
/// write. (The DLC group does not: its writes at `0x59DE9F` and `0x9A5296`
/// lie outside the one region it flushes.)
pub proof fn lemma_patch_groups_flushed(b: int)
    ensures
        writes_flushed(anti_tamper_plan(b)),
        writes_flushed(camera_fix_plan(b)),
        writes_flushed(camera_shake_plan(b)),
{
    let a = anti_tamper_plan(b);
    assert forall|i: int| 0 <= i < a.len() && !(a[i] is Flush) implies exists|j: int|
        0 <= j < a.len() && #[trigger] flush_covers(a[i], a[j]) by {
        assert(seq![0x00u8, 0x00u8, 0x00u8, 0x00u8].len() == 4);
        assert(seq![0x01u8].len() == 1);
        assert(seq![0x31u8, 0xC0u8, 0x90u8, 0x90u8, 0x90u8, 0x90u8].len() == 6);
        assert(seq![0x31u8, 0xC0u8].len() == 2);
        if i == 0 {
            assert(flush_covers(a[i], a[1]));
        } else if i == 2 {
            assert(flush_covers(a[i], a[3]));
        } else if i == 4 {
            assert(flush_covers(a[i], a[10]));
        } else if i == 5 {
            assert(flush_covers(a[i], a[8]));
        } else {
            assert(flush_covers(a[i], a[11]));
        }
    }
    let c = camera_fix_plan(b);
    assert forall|i: int| 0 <= i < c.len() && !(c[i] is Flush) implies exists|j: int|
        0 <= j < c.len() && #[trigger] flush_covers(c[i], c[j]) by {
        assert(fldz_nops().len() == 6);
        assert(fstp_st0_nops().len() == 6);
        assert(xorps_xmm0_nops().len() == 8);
        assert(seq![0xEBu8].len() == 1);
        assert(seq![0xD8u8, 0x4Du8, 0x0Cu8, 0x90u8, 0x90u8, 0x90u8].len() == 6);
        assert(seq![0xD9u8, 0xEEu8].len() == 2);
        assert(seq![0xDCu8, 0x0Du8, 0x88u8, 0x9Eu8, 0xF4u8, 0x00u8].len() == 6);
        if i == 5 || i == 6 {
            assert(flush_covers(c[i], c[14]));
        } else if i == 7 || i == 8 {
            assert(flush_covers(c[i], c[15]));
        } else if i == 9 {
            assert(flush_covers(c[i], c[17]));
        } else {
            assert(flush_covers(c[i], c[13]));
        }
    }
    let s = camera_shake_plan(b);
    assert forall|i: int| 0 <= i < s.len() && !(s[i] is Flush) implies exists|j: int|
        0 <= j < s.len() && #[trigger] flush_covers(s[i], s[j]) by {
        assert(fldz_nops().len() == 6);
        assert(flush_covers(s[i], s[3]));
    }
}

/// Step `s` writes exactly `bytes` starting at `a`.
pub open spec fn write_matches(s: PatchStep, a: int, bytes: Seq<u8>) -> bool {
    !(s is Flush) && step_range(s).0 == a && step_bytes(s) == Some(bytes)
}

/// Some step of the plan writes exactly `bytes` at `a`.
pub open spec fn writes_at(steps: Seq<PatchStep>, a: int, bytes: Seq<u8>) -> bool {
    exists|i: int| 0 <= i < steps.len() && #[trigger] write_matches(steps[i], a, bytes)
}

/// Every step of the plan that writes starts at one of `sites`.
pub open spec fn writes_only_at(steps: Seq<PatchStep>, sites: Seq<int>) -> bool {
    forall|i: int|
        0 <= i < steps.len() && !(#[trigger] steps[i] is Flush) ==> sites.contains(
            step_range(steps[i]).0,
        )
}

/// What the anti-tamper group writes, site by site: ten NOPs over the tamper
/// trigger, a null `IsDebuggerPresent` pointer, five NOPs over the kill
/// switch call, the flag value 1, and `xor eax, eax` (padded with NOPs) over
/// the debugger check and the latched result; nothing else.
pub proof fn lemma_anti_tamper_contents(b: int)
    ensures
        writes_at(anti_tamper_plan(b), b + 0x963F56, seq![0x90u8, 0x90u8, 0x90u8, 0x90u8, 0x90u8, 0x90u8, 0x90u8, 0x90u8, 0x90u8, 0x90u8]),
        writes_at(anti_tamper_plan(b), b + 0x1059EA4, seq![0x00u8, 0x00u8, 0x00u8, 0x00u8]),
        writes_at(anti_tamper_plan(b), b + 0x9525EC, seq![0x90u8, 0x90u8, 0x90u8, 0x90u8, 0x90u8]),
        writes_at(anti_tamper_plan(b), b + 0x4BB9BF, seq![0x01u8]),
        writes_at(anti_tamper_plan(b), b + 0x963F35, seq![0x31u8, 0xC0u8, 0x90u8, 0x90u8, 0x90u8, 0x90u8]),
        writes_at(anti_tamper_plan(b), b + 0x963F11, seq![0x31u8, 0xC0u8]),
        writes_only_at(anti_tamper_plan(b), seq![b + 0x963F56, b + 0x1059EA4, b + 0x9525EC, b + 0x4BB9BF, b + 0x963F35, b + 0x963F11]),
{
    let p = anti_tamper_plan(b);
    assert(nop_bytes(10) =~= seq![0x90u8, 0x90u8, 0x90u8, 0x90u8, 0x90u8, 0x90u8, 0x90u8, 0x90u8, 0x90u8, 0x90u8]);
    assert(nop_bytes(5) =~= seq![0x90u8, 0x90u8, 0x90u8, 0x90u8, 0x90u8]);
    assert(write_matches(p[0], b + 0x963F56, seq![0x90u8, 0x90u8, 0x90u8, 0x90u8, 0x90u8, 0x90u8, 0x90u8, 0x90u8, 0x90u8, 0x90u8]));
    assert(write_matches(p[2], b + 0x1059EA4, seq![0x00u8, 0x00u8, 0x00u8, 0x00u8]));
    assert(write_matches(p[4], b + 0x9525EC, seq![0x90u8, 0x90u8, 0x90u8, 0x90u8, 0x90u8]));
    assert(write_matches(p[5], b + 0x4BB9BF, seq![0x01u8]));
    assert(write_matches(p[6], b + 0x963F35, seq![0x31u8, 0xC0u8, 0x90u8, 0x90u8, 0x90u8, 0x90u8]));
    assert(write_matches(p[7], b + 0x963F11, seq![0x31u8, 0xC0u8]));
    let s = seq![b + 0x963F56, b + 0x1059EA4, b + 0x9525EC, b + 0x4BB9BF, b + 0x963F35, b + 0x963F11];
    assert forall|i: int| 0 <= i < p.len() && !(#[trigger] p[i] is Flush) implies s.contains(
        step_range(p[i]).0,
    ) by {
        if i == 0 { assert(s[0] == step_range(p[i]).0); }
        else if i == 2 { assert(s[1] == step_range(p[i]).0); }
        else if i == 4 { assert(s[2] == step_range(p[i]).0); }
        else if i == 5 { assert(s[3] == step_range(p[i]).0); }
        else if i == 6 { assert(s[4] == step_range(p[i]).0); }
        else { assert(s[5] == step_range(p[i]).0); }
    }
}

/// What the camera-fix group writes, site by site: `fldz` and `fstp st(0)`
/// over the phase accumulators, eight NOPs over each downstream write,
/// short jumps over the shake lookup checks, `xorps xmm0, xmm0` over the
/// amplitude loads, `fmul dword ptr [ebp+0Ch]` (the frame time) over the
/// constant multiply, `fldz` over the `fld st(0)` at `0x7BD440`, and the
/// discarded suspension feed write; nothing else.
pub proof fn lemma_camera_fix_contents(b: int)
    ensures
        writes_at(camera_fix_plan(b), b + 0x7BCFBE, seq![0xD9u8, 0xEEu8, 0x90u8, 0x90u8, 0x90u8, 0x90u8]),
        writes_at(camera_fix_plan(b), b + 0x7BD001, seq![0xD9u8, 0xD8u8, 0x90u8, 0x90u8, 0x90u8, 0x90u8]),
        writes_at(camera_fix_plan(b), b + 0x7BD015, seq![0xD9u8, 0xD8u8, 0x90u8, 0x90u8, 0x90u8, 0x90u8]),
        writes_at(camera_fix_plan(b), b + 0x7BDC44, seq![0x90u8, 0x90u8, 0x90u8, 0x90u8, 0x90u8, 0x90u8, 0x90u8, 0x90u8]),
        writes_at(camera_fix_plan(b), b + 0x7BDC4C, seq![0x90u8, 0x90u8, 0x90u8, 0x90u8, 0x90u8, 0x90u8, 0x90u8, 0x90u8]),
        writes_at(camera_fix_plan(b), b + 0x851244, seq![0xEBu8]),
        writes_at(camera_fix_plan(b), b + 0x851274, seq![0xEBu8]),
        writes_at(camera_fix_plan(b), b + 0x8A2281, seq![0x0Fu8, 0x57u8, 0xC0u8, 0x90u8, 0x90u8, 0x90u8, 0x90u8, 0x90u8]),
        writes_at(camera_fix_plan(b), b + 0x8A229C, seq![0x0Fu8, 0x57u8, 0xC0u8, 0x90u8, 0x90u8, 0x90u8, 0x90u8, 0x90u8]),
        writes_at(camera_fix_plan(b), b + 0x881AA0, seq![0xD8u8, 0x4Du8, 0x0Cu8, 0x90u8, 0x90u8, 0x90u8]),
        writes_at(camera_fix_plan(b), b + 0x7BD440, seq![0xD9u8, 0xEEu8]),
        writes_at(camera_fix_plan(b), b + 0x7BD4A9, seq![0xDCu8, 0x0Du8, 0x88u8, 0x9Eu8, 0xF4u8, 0x00u8]),
        writes_at(camera_fix_plan(b), b + 0x7BD4AF, seq![0xD9u8, 0xD8u8, 0x90u8, 0x90u8, 0x90u8, 0x90u8]),
        writes_only_at(camera_fix_plan(b), seq![b + 0x7BCFBE, b + 0x7BD001, b + 0x7BD015, b + 0x7BDC44, b + 0x7BDC4C, b + 0x851244, b + 0x851274, b + 0x8A2281, b + 0x8A229C, b + 0x881AA0, b + 0x7BD440, b + 0x7BD4A9, b + 0x7BD4AF]),
{
    let p = camera_fix_plan(b);
    assert(nop_bytes(8) =~= seq![0x90u8, 0x90u8, 0x90u8, 0x90u8, 0x90u8, 0x90u8, 0x90u8, 0x90u8]);
    assert(write_matches(p[0], b + 0x7BCFBE, seq![0xD9u8, 0xEEu8, 0x90u8, 0x90u8, 0x90u8, 0x90u8]));
    assert(write_matches(p[1], b + 0x7BD001, seq![0xD9u8, 0xD8u8, 0x90u8, 0x90u8, 0x90u8, 0x90u8]));
    assert(write_matches(p[2], b + 0x7BD015, seq![0xD9u8, 0xD8u8, 0x90u8, 0x90u8, 0x90u8, 0x90u8]));
    assert(write_matches(p[3], b + 0x7BDC44, seq![0x90u8, 0x90u8, 0x90u8, 0x90u8, 0x90u8, 0x90u8, 0x90u8, 0x90u8]));
    assert(write_matches(p[4], b + 0x7BDC4C, seq![0x90u8, 0x90u8, 0x90u8, 0x90u8, 0x90u8, 0x90u8, 0x90u8, 0x90u8]));
    assert(write_matches(p[5], b + 0x851244, seq![0xEBu8]));
    assert(write_matches(p[6], b + 0x851274, seq![0xEBu8]));
    assert(write_matches(p[7], b + 0x8A2281, seq![0x0Fu8, 0x57u8, 0xC0u8, 0x90u8, 0x90u8, 0x90u8, 0x90u8, 0x90u8]));
    assert(write_matches(p[8], b + 0x8A229C, seq![0x0Fu8, 0x57u8, 0xC0u8, 0x90u8, 0x90u8, 0x90u8, 0x90u8, 0x90u8]));
    assert(write_matches(p[9], b + 0x881AA0, seq![0xD8u8, 0x4Du8, 0x0Cu8, 0x90u8, 0x90u8, 0x90u8]));
    assert(write_matches(p[10], b + 0x7BD440, seq![0xD9u8, 0xEEu8]));
    assert(write_matches(p[11], b + 0x7BD4A9, seq![0xDCu8, 0x0Du8, 0x88u8, 0x9Eu8, 0xF4u8, 0x00u8]));
    assert(write_matches(p[12], b + 0x7BD4AF, seq![0xD9u8, 0xD8u8, 0x90u8, 0x90u8, 0x90u8, 0x90u8]));
    let s = seq![b + 0x7BCFBE, b + 0x7BD001, b + 0x7BD015, b + 0x7BDC44, b + 0x7BDC4C, b + 0x851244, b + 0x851274, b + 0x8A2281, b + 0x8A229C, b + 0x881AA0, b + 0x7BD440, b + 0x7BD4A9, b + 0x7BD4AF];
    assert forall|i: int| 0 <= i < p.len() && !(#[trigger] p[i] is Flush) implies s.contains(
        step_range(p[i]).0,
    ) by {
        assert(i < 13);
        assert(s[i] == step_range(p[i]).0);
    }
}

/// Every write of the exterior camera-shake group is `fldz` followed by four
/// NOPs, so each shake accumulator loads zero; the writes are at the three
/// accumulator loads and nowhere else.
pub proof fn lemma_camera_shake_contents(b: int)
    ensures
        forall|i: int|
            0 <= i < camera_shake_plan(b).len() && !(#[trigger] camera_shake_plan(b)[i] is Flush)
                ==> step_bytes(camera_shake_plan(b)[i]) == Some(seq![0xD9u8, 0xEEu8, 0x90u8, 0x90u8, 0x90u8, 0x90u8]),
        writes_at(camera_shake_plan(b), b + 0x88F790, seq![0xD9u8, 0xEEu8, 0x90u8, 0x90u8, 0x90u8, 0x90u8]),
        writes_at(camera_shake_plan(b), b + 0x88F7BD, seq![0xD9u8, 0xEEu8, 0x90u8, 0x90u8, 0x90u8, 0x90u8]),
        writes_at(camera_shake_plan(b), b + 0x88F735, seq![0xD9u8, 0xEEu8, 0x90u8, 0x90u8, 0x90u8, 0x90u8]),
        writes_only_at(camera_shake_plan(b), seq![b + 0x88F790, b + 0x88F7BD, b + 0x88F735]),
{
    let p = camera_shake_plan(b);
    assert(fldz_nops() =~= seq![0xD9u8, 0xEEu8, 0x90u8, 0x90u8, 0x90u8, 0x90u8]);
    assert(write_matches(p[0], b + 0x88F790, seq![0xD9u8, 0xEEu8, 0x90u8, 0x90u8, 0x90u8, 0x90u8]));
    assert(write_matches(p[1], b + 0x88F7BD, seq![0xD9u8, 0xEEu8, 0x90u8, 0x90u8, 0x90u8, 0x90u8]));
    assert(write_matches(p[2], b + 0x88F735, seq![0xD9u8, 0xEEu8, 0x90u8, 0x90u8, 0x90u8, 0x90u8]));
    let s = seq![b + 0x88F790, b + 0x88F7BD, b + 0x88F735];
    assert forall|i: int| 0 <= i < p.len() && !(#[trigger] p[i] is Flush) implies s.contains(
        step_range(p[i]).0,
    ) by {
        assert(s[i] == step_range(p[i]).0);
    }
}

/// Every write of the DLC car dealer group is the short-jump opcode `0xEB`
/// over a conditional jump, at the list row classification and the two
/// other DLC checks, and nowhere else.
pub proof fn lemma_dlc_car_dealer_contents(b: int)
    ensures
        forall|i: int|
            0 <= i < dlc_car_dealer_plan(b).len() && !(
            #[trigger] dlc_car_dealer_plan(b)[i] is Flush) ==> step_bytes(dlc_car_dealer_plan(b)[i])
                == Some(seq![0xEBu8]),
        writes_at(dlc_car_dealer_plan(b), b + 0x5F696B, seq![0xEBu8]),
        writes_at(dlc_car_dealer_plan(b), b + 0x59DE9F, seq![0xEBu8]),
        writes_at(dlc_car_dealer_plan(b), b + 0x9A5296, seq![0xEBu8]),
        writes_only_at(dlc_car_dealer_plan(b), seq![b + 0x5F696B, b + 0x59DE9F, b + 0x9A5296]),
{
    let p = dlc_car_dealer_plan(b);
    assert(write_matches(p[0], b + 0x5F696B, seq![0xEBu8]));
    assert(write_matches(p[1], b + 0x59DE9F, seq![0xEBu8]));
    assert(write_matches(p[2], b + 0x9A5296, seq![0xEBu8]));
    let s = seq![b + 0x5F696B, b + 0x59DE9F, b + 0x9A5296];
    assert forall|i: int| 0 <= i < p.len() && !(#[trigger] p[i] is Flush) implies s.contains(
        step_range(p[i]).0,
    ) by {
        assert(s[i] == step_range(p[i]).0);
    }
}

/// The patch groups, in the order they are applied.
#[derive(Clone, Copy, Debug, PartialEq, Eq, Structural)]
pub enum PatchGroup {
    FovMultiplier,
    AntiTamper,
    CameraFix,
    CameraShakeFix,
    DlcCarDealerFix,
}

pub open spec fn spec_patch_group_plan(c: PatchConfig) -> Seq<(PatchGroup, bool)> {
    seq![
        (PatchGroup::FovMultiplier, c.fov_enabled),
        (PatchGroup::AntiTamper, c.anti_tamper_enabled),
        (PatchGroup::CameraFix, c.camera_fix_enabled),
        (PatchGroup::CameraShakeFix, c.camera_shake_fix_enabled),
        (PatchGroup::DlcCarDealerFix, c.dlc_car_dealer_fix_enabled),
    ]
}

/// Every patch group in application order, with whether the configuration
/// turns it on.
pub fn plan_patch_groups(config: &PatchConfig) -> (r: Vec<(PatchGroup, bool)>)
    ensures
        r@ == spec_patch_group_plan(*config),
{
    let mut r: Vec<(PatchGroup, bool)> = Vec::new();
    r.push((PatchGroup::FovMultiplier, config.fov_enabled));
    r.push((PatchGroup::AntiTamper, config.anti_tamper_enabled));
    r.push((PatchGroup::CameraFix, config.camera_fix_enabled));
    r.push((PatchGroup::CameraShakeFix, config.camera_shake_fix_enabled));
    r.push((PatchGroup::DlcCarDealerFix, config.dlc_car_dealer_fix_enabled));
    assert(r@ =~= spec_patch_group_plan(*config));
    r
}

} // verus!
