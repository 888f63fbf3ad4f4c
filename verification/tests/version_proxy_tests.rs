use tdu2_runtime_patch::version_proxy::{
    export_name, initialize_version_proxy, is_required_export, version_exports, ExportBinding,
    VersionExport,
};

fn all_found(base: usize) -> Vec<(Option<usize>, Option<usize>)> {
    (0..12).map(|i| (Some(base + i), Some(0x9000 + i))).collect()
}

#[test]
fn exports_in_order() {
    let e = version_exports();
    assert_eq!(e.len(), 12);
    assert_eq!(e[0], VersionExport::GetFileVersionInfoA);
    assert_eq!(e[11], VersionExport::VerQueryValueW);
    assert_eq!(export_name(e[6]), "VerInstallFileA");
    assert_eq!(export_name(VersionExport::GetFileVersionInfoSizeW), "GetFileVersionInfoSizeW");
    assert!(!is_required_export(VersionExport::VerInstallFileW));
    assert!(is_required_export(VersionExport::VerQueryValueA));
}

#[test]
fn no_module_no_proxy() {
    assert!(initialize_version_proxy(0, 0, &all_found(0x1000)).is_none());
}

#[test]
fn prefers_kernelbase_then_kernel32() {
    let mut lookups = all_found(0x1000);
    lookups[2] = (None, Some(0x7777));
    let plan = initialize_version_proxy(0x10, 0x20, &lookups).unwrap();
    assert_eq!(plan.module, 0x10);
    assert_eq!(plan.bindings[0], ExportBinding::Resolved(0x1000));
    assert_eq!(plan.bindings[2], ExportBinding::Resolved(0x7777));
    let plan = initialize_version_proxy(0, 0x20, &lookups).unwrap();
    assert_eq!(plan.module, 0x20);
}

#[test]
fn installers_fall_back_to_stubs() {
    let mut lookups = all_found(0x1000);
    lookups[6] = (None, None);
    lookups[7] = (None, None);
    let plan = initialize_version_proxy(0x10, 0, &lookups).unwrap();
    assert_eq!(plan.bindings[6], ExportBinding::Stub);
    assert_eq!(plan.bindings[7], ExportBinding::Stub);
}

#[test]
fn missing_required_export_fails() {
    let mut lookups = all_found(0x1000);
    lookups[10] = (None, None);
    assert!(initialize_version_proxy(0x10, 0x20, &lookups).is_none());
}
