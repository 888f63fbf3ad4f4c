//! The `version.dll` proxy: which system exports it forwards to, where each
//! one is looked up, and which ones it can do without.
use vstd::prelude::*;

verus! {

/// The exports of `version.dll`, in the order they are resolved.
#[derive(Clone, Copy, Debug, PartialEq, Eq, Structural)]
pub enum VersionExport {
    GetFileVersionInfoA,
    GetFileVersionInfoSizeA,
    GetFileVersionInfoSizeW,
    GetFileVersionInfoW,
    VerFindFileA,
    VerFindFileW,
    VerInstallFileA,
    VerInstallFileW,
    VerLanguageNameA,
    VerLanguageNameW,
    VerQueryValueA,
    VerQueryValueW,
}

pub open spec fn version_export_order() -> Seq<VersionExport> {
    seq![
        VersionExport::GetFileVersionInfoA,
        VersionExport::GetFileVersionInfoSizeA,
        VersionExport::GetFileVersionInfoSizeW,
        VersionExport::GetFileVersionInfoW,
        VersionExport::VerFindFileA,
        VersionExport::VerFindFileW,
        VersionExport::VerInstallFileA,
        VersionExport::VerInstallFileW,
        VersionExport::VerLanguageNameA,
        VersionExport::VerLanguageNameW,
        VersionExport::VerQueryValueA,
        VersionExport::VerQueryValueW,
    ]
}

/// The number of forwarded exports.
pub const VERSION_EXPORT_COUNT: usize = 12;

/// The exports in resolution order.
pub fn version_exports() -> (r: Vec<VersionExport>)
    ensures
        r@ == version_export_order(),
{
    let mut r: Vec<VersionExport> = Vec::new();
    r.push(VersionExport::GetFileVersionInfoA);
    r.push(VersionExport::GetFileVersionInfoSizeA);
    r.push(VersionExport::GetFileVersionInfoSizeW);
    r.push(VersionExport::GetFileVersionInfoW);
    r.push(VersionExport::VerFindFileA);
    r.push(VersionExport::VerFindFileW);
    r.push(VersionExport::VerInstallFileA);
    r.push(VersionExport::VerInstallFileW);
    r.push(VersionExport::VerLanguageNameA);
    r.push(VersionExport::VerLanguageNameW);
    r.push(VersionExport::VerQueryValueA);
    r.push(VersionExport::VerQueryValueW);
    assert(r@ =~= version_export_order());
    r
}

pub open spec fn spec_export_name(e: VersionExport) -> Seq<char> {
    match e {
        VersionExport::GetFileVersionInfoA => "GetFileVersionInfoA"@,
        VersionExport::GetFileVersionInfoSizeA => "GetFileVersionInfoSizeA"@,
        VersionExport::GetFileVersionInfoSizeW => "GetFileVersionInfoSizeW"@,
        VersionExport::GetFileVersionInfoW => "GetFileVersionInfoW"@,
        VersionExport::VerFindFileA => "VerFindFileA"@,
        VersionExport::VerFindFileW => "VerFindFileW"@,
        VersionExport::VerInstallFileA => "VerInstallFileA"@,
        VersionExport::VerInstallFileW => "VerInstallFileW"@,
        VersionExport::VerLanguageNameA => "VerLanguageNameA"@,
        VersionExport::VerLanguageNameW => "VerLanguageNameW"@,
        VersionExport::VerQueryValueA => "VerQueryValueA"@,
        VersionExport::VerQueryValueW => "VerQueryValueW"@,
    }
}

/// The symbol name of an export.
pub fn export_name(e: VersionExport) -> (r: &'static str)
    ensures
        r@ == spec_export_name(e),
{
    match e {
        VersionExport::GetFileVersionInfoA => "GetFileVersionInfoA",
        VersionExport::GetFileVersionInfoSizeA => "GetFileVersionInfoSizeA",
        VersionExport::GetFileVersionInfoSizeW => "GetFileVersionInfoSizeW",
        VersionExport::GetFileVersionInfoW => "GetFileVersionInfoW",
        VersionExport::VerFindFileA => "VerFindFileA",
        VersionExport::VerFindFileW => "VerFindFileW",
        VersionExport::VerInstallFileA => "VerInstallFileA",
        VersionExport::VerInstallFileW => "VerInstallFileW",
        VersionExport::VerLanguageNameA => "VerLanguageNameA",
        VersionExport::VerLanguageNameW => "VerLanguageNameW",
        VersionExport::VerQueryValueA => "VerQueryValueA",
        VersionExport::VerQueryValueW => "VerQueryValueW",
    }
}

/// Whether the proxy needs the export; the installers fall back to a stub
/// that reports nothing installed.
pub open spec fn spec_is_required_export(e: VersionExport) -> bool {
    e != VersionExport::VerInstallFileA && e != VersionExport::VerInstallFileW
}

pub fn is_required_export(e: VersionExport) -> (b: bool)
    ensures
        b == spec_is_required_export(e),
{
    match e {
        VersionExport::VerInstallFileA | VersionExport::VerInstallFileW => false,
        _ => true,
    }
}

/// Where a forwarded export goes.
#[derive(Clone, Copy, Debug, PartialEq, Eq, Structural)]
pub enum ExportBinding {
    /// The system function at this address.
    Resolved(usize),
    /// The local stub that returns 0.
    Stub,
}

/// The module the proxy forwards to and where each export goes.
#[derive(Debug)]
pub struct VersionProxyPlan {
    pub module: usize,
    pub bindings: Vec<ExportBinding>,
}

/// An export's address: from `kernelbase.dll`, else from `kernel32.dll`.
pub open spec fn spec_choose(lookup: (Option<usize>, Option<usize>)) -> Option<usize> {
    match lookup.0 {
        Some(a) => Some(a),
        None => lookup.1,
    }
}

pub open spec fn spec_binding(e: VersionExport, lookup: (Option<usize>, Option<usize>)) -> Option<
    ExportBinding,
> {
    match spec_choose(lookup) {
        Some(a) => Some(ExportBinding::Resolved(a)),
        None => if spec_is_required_export(e) {
            None
        } else {
            Some(ExportBinding::Stub)
        },
    }
}

/// Whether every required export was found in one of the two modules.
pub open spec fn all_required_found(lookups: Seq<(Option<usize>, Option<usize>)>) -> bool {
    forall|i: int|
        0 <= i < VERSION_EXPORT_COUNT ==> #[trigger] spec_binding(
            version_export_order()[i],
            lookups[i],
        ) is Some
}

/// The proxy's forwarding table, from the module handles of `kernelbase.dll`
/// and `kernel32.dll` (0 when not loaded) and, for each export in
/// [`version_exports`] order, its address in each of them. `None` when neither
/// module is loaded or a required export is in neither.
pub fn initialize_version_proxy(
    kernelbase: usize,
    kernel32: usize,
    lookups: &Vec<(Option<usize>, Option<usize>)>,
) -> (r: Option<VersionProxyPlan>)
    requires
        lookups@.len() == VERSION_EXPORT_COUNT,
    ensures
        r is Some <==> (kernelbase != 0 || kernel32 != 0) && all_required_found(lookups@),
        r matches Some(p) ==> {
            &&& p.module == (if kernelbase != 0 {
                kernelbase
            } else {
                kernel32
            })
            &&& p.bindings@.len() == VERSION_EXPORT_COUNT
            &&& forall|i: int|
                0 <= i < VERSION_EXPORT_COUNT ==> spec_binding(
                    version_export_order()[i],
                    lookups@[i],
                ) == Some(#[trigger] p.bindings@[i])
        },
{
    if kernelbase == 0 && kernel32 == 0 {
        return None;
    }
    let exports = version_exports();
    let mut bindings: Vec<ExportBinding> = Vec::new();
    let mut i: usize = 0;
    while i < VERSION_EXPORT_COUNT
        invariant
            i <= VERSION_EXPORT_COUNT,
            lookups@.len() == VERSION_EXPORT_COUNT,
            exports@ == version_export_order(),
            bindings@.len() == i,
            forall|k: int|
                0 <= k < i ==> spec_binding(version_export_order()[k], lookups@[k]) == Some(
                    #[trigger] bindings@[k],
                ),
        decreases VERSION_EXPORT_COUNT - i,
    {
        let e = exports[i];
        let (primary, fallback) = lookups[i];
        let chosen = match primary {
            Some(a) => Some(a),
            None => fallback,
        };
        match chosen {
            Some(a) => {
                bindings.push(ExportBinding::Resolved(a));
            },
            None => {
                if is_required_export(e) {
                    assert(spec_binding(version_export_order()[i as int], lookups@[i as int])
                        is None);
                    return None;
                }
                bindings.push(ExportBinding::Stub);
            },
        }
        i = i + 1;
    }
    assert forall|k: int| 0 <= k < VERSION_EXPORT_COUNT implies #[trigger] spec_binding(
        version_export_order()[k],
        lookups@[k],
    ) is Some by {
        assert(spec_binding(version_export_order()[k], lookups@[k]) == Some(bindings@[k]));
    }
    let module = if kernelbase != 0 {
        kernelbase
    } else {
        kernel32
    };
    Some(VersionProxyPlan { module, bindings })
}

/// Whether an export is the wide-character (UTF-16) one of its pair.
pub open spec fn is_wide_export(e: VersionExport) -> bool {
    match e {
        VersionExport::GetFileVersionInfoSizeW | VersionExport::GetFileVersionInfoW | VersionExport::VerFindFileW | VersionExport::VerInstallFileW | VersionExport::VerLanguageNameW | VersionExport::VerQueryValueW => true,
        _ => false,
    }
}

/// Each export is looked up under its own name: the names are the exports'
/// names, no two exports share one, and a name ends in `W` exactly for the
/// wide-character export and in `A` for the ANSI one.
pub proof fn lemma_export_names(e: VersionExport, f: VersionExport)
    ensures
        spec_export_name(VersionExport::GetFileVersionInfoA) == "GetFileVersionInfoA"@,
        spec_export_name(VersionExport::GetFileVersionInfoSizeA) == "GetFileVersionInfoSizeA"@,
        spec_export_name(VersionExport::GetFileVersionInfoSizeW) == "GetFileVersionInfoSizeW"@,
        spec_export_name(VersionExport::GetFileVersionInfoW) == "GetFileVersionInfoW"@,
        spec_export_name(VersionExport::VerFindFileA) == "VerFindFileA"@,
        spec_export_name(VersionExport::VerFindFileW) == "VerFindFileW"@,
        spec_export_name(VersionExport::VerInstallFileA) == "VerInstallFileA"@,
        spec_export_name(VersionExport::VerInstallFileW) == "VerInstallFileW"@,
        spec_export_name(VersionExport::VerLanguageNameA) == "VerLanguageNameA"@,
        spec_export_name(VersionExport::VerLanguageNameW) == "VerLanguageNameW"@,
        spec_export_name(VersionExport::VerQueryValueA) == "VerQueryValueA"@,
        spec_export_name(VersionExport::VerQueryValueW) == "VerQueryValueW"@,
        e != f ==> spec_export_name(e) != spec_export_name(f),
        spec_export_name(e).len() > 0,
        spec_export_name(e).last() == (if is_wide_export(e) {
            'W'
        } else {
            'A'
        }),
{
    reveal_strlit("GetFileVersionInfoA");
    reveal_strlit("GetFileVersionInfoSizeA");
    reveal_strlit("GetFileVersionInfoSizeW");
    reveal_strlit("GetFileVersionInfoW");
    reveal_strlit("VerFindFileA");
    reveal_strlit("VerFindFileW");
    reveal_strlit("VerInstallFileA");
    reveal_strlit("VerInstallFileW");
    reveal_strlit("VerLanguageNameA");
    reveal_strlit("VerLanguageNameW");
    reveal_strlit("VerQueryValueA");
    reveal_strlit("VerQueryValueW");
    // The names differ in length between pairs and in their last character
    // within a pair.
    assert(spec_export_name(e).len() == spec_export_name(f).len() && spec_export_name(e).last()
        == spec_export_name(f).last() ==> e == f);
}

} // verus!
