use tdu2_runtime_patch::fov::{
    build_fov_cave_code, build_fov_hook_patch, fov_hook_addresses, is_expected_fov_hook_site,
    FOV_HOOK_OFFSET, FOV_RETURN_OFFSET,
};
use tdu2_runtime_patch::hooks::{
    dinput_hooks_outcome, plan_vtable_patch, verify_vtable_patch, DinputHookOutcome,
};
use tdu2_runtime_patch::patch_utils::{
    address_low_u32, encode_jmp_rel32, i32_le_bytes, nop_fill, relative_jump_displacement,
    u32_le_bytes,
};
use tdu2_runtime_patch::patches::{
    apply_anti_tamper_patches, apply_camera_fix_patches, apply_camera_shake_patch,
    apply_dlc_car_dealer_patches, patch_op_bytes, plan_patch_groups, PatchGroup, PatchOp,
};
use tdu2_runtime_patch::config::PatchConfig;

#[test]
fn jump_displacement_forward_and_backward() {
    assert_eq!(relative_jump_displacement(0x1000, 0x2000, 5), Some(0x1000 - 5));
    assert_eq!(relative_jump_displacement(0x2000, 0x1000, 5), Some(-0x1000 - 5));
    assert_eq!(relative_jump_displacement(0x1000, 0x1005, 5), Some(0));
}

#[test]
fn jump_displacement_limits() {
    let src = 0x1000usize;
    let max = src + 5 + i32::MAX as usize;
    assert_eq!(relative_jump_displacement(src, max, 5), Some(i32::MAX));
    // In a 32-bit address space the displacement wraps, as the processor does.
    assert_eq!(relative_jump_displacement(src, max + 1, 5), Some(i32::MIN));
    let far_src = 0x1_0000_0000usize;
    let min = far_src + 5 - 0x8000_0000usize;
    assert_eq!(relative_jump_displacement(far_src, min, 5), Some(i32::MIN));
    assert_eq!(relative_jump_displacement(far_src, min - 1, 5), None);
    assert_eq!(relative_jump_displacement(usize::MAX, 0, 5), None);
}

#[test]
fn jump_displacement_wraps_across_two_gib() {
    let src = 0x1000_0000usize;
    let dst = 0xF000_0000usize;
    let d = relative_jump_displacement(src, dst, 5).unwrap();
    assert_eq!(d, -0x2000_0005);
    assert_eq!((src as u32).wrapping_add(5).wrapping_add(d as u32), dst as u32);
    let back = relative_jump_displacement(dst, src, 5).unwrap();
    assert_eq!((dst as u32).wrapping_add(5).wrapping_add(back as u32), src as u32);
    assert_eq!(
        encode_jmp_rel32(src, dst),
        Some(vec![0xE9, 0xFB, 0xFF, 0xFF, 0xDF])
    );
}

#[test]
fn le_encodings() {
    assert_eq!(u32_le_bytes(0x1234_5678), vec![0x78, 0x56, 0x34, 0x12]);
    assert_eq!(i32_le_bytes(-1), vec![0xFF, 0xFF, 0xFF, 0xFF]);
    assert_eq!(i32_le_bytes(-2), (-2i32).to_le_bytes().to_vec());
    assert_eq!(i32_le_bytes(i32::MIN), i32::MIN.to_le_bytes().to_vec());
    assert_eq!(address_low_u32(0x1_2345_6789), 0x2345_6789);
}

#[test]
fn jmp_encoding() {
    assert_eq!(encode_jmp_rel32(0x1000, 0x1010), Some(vec![0xE9, 0x0B, 0, 0, 0]));
    assert_eq!(encode_jmp_rel32(0x1010, 0x1000), Some(vec![0xE9, 0xEB, 0xFF, 0xFF, 0xFF]));
    assert_eq!(encode_jmp_rel32(0, 0x1_0000_0000), None);
}

#[test]
fn nop_fill_bytes() {
    assert_eq!(nop_fill(3), vec![0x90, 0x90, 0x90]);
    assert!(nop_fill(0).is_empty());
}

#[test]
fn fov_site_check() {
    assert!(is_expected_fov_hook_site(&[0xD9, 0x5C, 0x24, 0x10, 0xFF, 0xD2]));
    assert!(!is_expected_fov_hook_site(&[0xE9, 0x5C, 0x24, 0x10, 0xFF, 0xD2]));
    assert!(!is_expected_fov_hook_site(&[0xD9, 0x5C, 0x24, 0x10, 0xFF]));
}

#[test]
fn fov_addresses() {
    assert_eq!(fov_hook_addresses(0x400000), (0x400000 + FOV_HOOK_OFFSET, 0x400000 + FOV_RETURN_OFFSET));
    assert_eq!(FOV_RETURN_OFFSET - FOV_HOOK_OFFSET, 6);
}

#[test]
fn fov_cave_code_bytes() {
    let base = 0x400000usize;
    let (_, ret) = fov_hook_addresses(base);
    let cave = 0x1000_0000usize;
    let code = build_fov_cave_code(cave, ret, 0x0012_3456).unwrap();
    let rel = (ret as i64 - (cave as i64 + 12 + 5)) as i32;
    let mut expected = vec![0xD8, 0x0D, 0x56, 0x34, 0x12, 0x00, 0xD9, 0x5C, 0x24, 0x10, 0xFF, 0xD2, 0xE9];
    expected.extend_from_slice(&rel.to_le_bytes());
    assert_eq!(code, expected);
    // The jump lands on the return address.
    let decoded = i32::from_le_bytes([code[13], code[14], code[15], code[16]]);
    assert_eq!((cave as i64 + 17 + decoded as i64) as usize, ret);
}

#[test]
fn fov_cave_out_of_reach() {
    assert_eq!(build_fov_cave_code(0x2_0000_0000, 0x400000, 0), None);
}

#[test]
fn fov_hook_patch_bytes() {
    let patch = build_fov_hook_patch(0x0C9260F, 0x1000_0000).unwrap();
    let rel = (0x1000_0000i64 - (0x0C9260F + 5)) as i32;
    let mut expected = vec![0xE9];
    expected.extend_from_slice(&rel.to_le_bytes());
    expected.push(0x90);
    assert_eq!(patch, expected);
    assert_eq!(build_fov_hook_patch(0, 0x1_0000_0000), None);
}

#[test]
fn vtable_patch_decisions() {
    assert_eq!(plan_vtable_patch(0x1000, 0x1000), None);
    assert_eq!(plan_vtable_patch(0x1000, 0x2233_4455), Some(vec![0x55, 0x44, 0x33, 0x22]));
    assert_eq!(verify_vtable_patch(0x1000, 0x2000, 0x2000), Some(0x1000));
    assert_eq!(verify_vtable_patch(0x1000, 0x2000, 0x1000), None);
    assert_eq!(dinput_hooks_outcome(false, true), DinputHookOutcome::NotInstalled);
    assert_eq!(dinput_hooks_outcome(true, true), DinputHookOutcome::Installed);
    assert_eq!(dinput_hooks_outcome(true, false), DinputHookOutcome::InstalledWithoutDeviceData);
}

fn writes(plan: &[PatchOp]) -> Vec<(usize, Vec<u8>)> {
    plan.iter()
        .filter_map(|op| match op {
            PatchOp::Write { addr, .. } | PatchOp::Nop { addr, .. } => {
                Some((*addr, patch_op_bytes(op).unwrap()))
            }
            PatchOp::Flush { .. } => None,
        })
        .collect()
}

#[test]
fn anti_tamper_plan_contents() {
    let base = 0x400000;
    let plan = apply_anti_tamper_patches(base);
    assert_eq!(plan.len(), 12);
    let w = writes(&plan);
    assert_eq!(w[0], (base + 0x963F56, vec![0x90; 10]));
    assert_eq!(w[1], (base + 0x1059EA4, vec![0, 0, 0, 0]));
    assert_eq!(w[2], (base + 0x9525EC, vec![0x90; 5]));
    assert_eq!(w[3], (base + 0x4BB9BF, vec![0x01]));
    assert_eq!(w[4], (base + 0x963F35, vec![0x31, 0xC0, 0x90, 0x90, 0x90, 0x90]));
    assert_eq!(w[5], (base + 0x963F11, vec![0x31, 0xC0]));
    match &plan[1] {
        PatchOp::Flush { addr, len, tag } => {
            assert_eq!(*addr, base + 0x960000);
            assert_eq!(*len, 0x10000);
            assert_eq!(*tag, "anti tamper region");
        }
        _ => panic!("expected a flush"),
    }
}

fn assert_disjoint(w: &[(usize, Vec<u8>)]) {
    for i in 0..w.len() {
        for j in i + 1..w.len() {
            let (a, x) = &w[i];
            let (b, y) = &w[j];
            assert!(a + x.len() <= *b || b + y.len() <= *a);
        }
    }
}

#[test]
fn patch_groups_do_not_overlap() {
    let base = 0x400000;
    assert_disjoint(&writes(&apply_anti_tamper_patches(base)));
    assert_disjoint(&writes(&apply_camera_fix_patches(base)));
    assert_disjoint(&writes(&apply_camera_shake_patch(base)));
    assert_disjoint(&writes(&apply_dlc_car_dealer_patches(base)));
}

#[test]
fn camera_and_dlc_plans() {
    let base = 0;
    let cam = writes(&apply_camera_fix_patches(base));
    assert_eq!(cam.len(), 13);
    assert_eq!(cam[9], (0x881AA0, vec![0xD8, 0x4D, 0x0C, 0x90, 0x90, 0x90]));
    assert_eq!(cam[3], (0x7BDC44, vec![0x90; 8]));
    let shake = writes(&apply_camera_shake_patch(base));
    assert_eq!(shake.len(), 3);
    assert_eq!(shake[2], (0x88F735, vec![0xD9, 0xEE, 0x90, 0x90, 0x90, 0x90]));
    let dlc = writes(&apply_dlc_car_dealer_patches(base));
    assert_eq!(dlc, vec![(0x5F696B, vec![0xEB]), (0x59DE9F, vec![0xEB]), (0x9A5296, vec![0xEB])]);
}

#[test]
fn patch_group_order_follows_config() {
    let mut c = PatchConfig::default();
    c.camera_fix_enabled = false;
    c.fov_enabled = false;
    assert_eq!(
        plan_patch_groups(&c),
        vec![
            (PatchGroup::FovMultiplier, false),
            (PatchGroup::AntiTamper, true),
            (PatchGroup::CameraFix, false),
            (PatchGroup::CameraShakeFix, true),
            (PatchGroup::DlcCarDealerFix, true),
        ]
    );
}

fn flushes(plan: &[PatchOp]) -> Vec<(usize, usize)> {
    plan.iter()
        .filter_map(|op| match op {
            PatchOp::Flush { addr, len, .. } => Some((*addr, *len)),
            _ => None,
        })
        .collect()
}

fn assert_flushed(plan: &[PatchOp]) {
    let f = flushes(plan);
    for (a, bytes) in writes(plan) {
        assert!(f.iter().any(|(fa, flen)| *fa <= a && a + bytes.len() <= fa + flen));
    }
}

#[test]
fn patch_groups_flush_what_they_write() {
    let base = 0x400000;
    assert_flushed(&apply_anti_tamper_patches(base));
    assert_flushed(&apply_camera_fix_patches(base));
    assert_flushed(&apply_camera_shake_patch(base));
}

#[test]
fn camera_fix_flushes_frame_time_region() {
    let base = 0x400000;
    let plan = apply_camera_fix_patches(base);
    assert_eq!(plan.len(), 18);
    match &plan[17] {
        PatchOp::Flush { addr, len, tag } => {
            assert_eq!(*addr, base + 0x880000);
            assert_eq!(*len, 0x10000);
            assert_eq!(*tag, "camera frame-time region");
        }
        _ => panic!("expected a flush"),
    }
}
