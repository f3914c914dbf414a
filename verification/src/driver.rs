//! Which camera components are installed, where their files are, and how
//! the installer is invoked.
use vstd::prelude::*;
use vstd::string::StringSliceAdditionalSpecFns;
use vstd::string::StringExecFns;
use crate::text::{str_equals, contains_ignoring_ascii_case, contains_bytes, ascii_lower_bytes};

verus! {

/// Class identifier of the Media Foundation media source.
pub const MEDIA_SOURCE_CLSID: &'static str = "{CD31FFCF-F7BE-42DC-A072-F49AD0E66AF7}";

/// Class identifier of the DirectShow filter.
pub const DIRECTSHOW_CLSID: &'static str = "{AEF3B972-5FA5-4647-9571-358EB472BC9E}";

/// Registry view of 64-bit components.
pub const REGISTRY_VIEW_64: &'static str = "/reg:64";

/// Registry view of 32-bit components.
pub const REGISTRY_VIEW_32: &'static str = "/reg:32";

/// Whether each camera output has its components installed.
#[derive(Debug, Clone, Copy, PartialEq, Eq, Structural)]
pub struct DriverStatus {
    pub media_foundation_installed: bool,
    pub direct_show_installed: bool,
}

/// What a registry query printed, and whether it succeeded.
#[derive(Debug, Clone)]
pub struct RegistryOutput {
    pub success: bool,
    pub stdout: String,
}

/// The registry key under which the server of `clsid` is registered.
pub fn registry_key(clsid: &str) -> (key: String)
    ensures
        key@ == "HKLM\\SOFTWARE\\Classes\\CLSID\\"@ + clsid@ + "\\InprocServer32"@,
{
    let mut key = String::from_str("HKLM\\SOFTWARE\\Classes\\CLSID\\");
    key.append(clsid);
    key.append("\\InprocServer32");
    key
}

/// Whether a registry query shows the server registered with a file whose
/// path contains `expected_file`, letters compared without regard to
/// ASCII case.
pub open spec fn points_to(output: RegistryOutput, expected_file: Seq<char>) -> bool {
    output.success && contains_bytes(
        ascii_lower_bytes(vstd::utf8::encode_utf8(output.stdout@)),
        ascii_lower_bytes(vstd::utf8::encode_utf8(expected_file)),
    )
}

/// Whether `output` shows the server registered with `expected_file`.
pub fn registry_points_to(output: &RegistryOutput, expected_file: &str) -> (found: bool)
    ensures
        found == points_to(*output, expected_file@),
{
    output.success && contains_ignoring_ascii_case(
        output.stdout.as_str().as_bytes(),
        expected_file.as_bytes(),
    )
}

/// File of the installed Media Foundation source.
pub open spec fn media_source_file() -> Seq<char> {
    "RustVirtualCameraMediaSource-0.3.0.dll"@
}

/// File of the installed 64-bit DirectShow filter.
pub open spec fn directshow64_file() -> Seq<char> {
    "RustVirtualCameraDirectShow64-0.3.0.dll"@
}

/// File of the installed 32-bit DirectShow filter.
pub open spec fn directshow32_file() -> Seq<char> {
    "RustVirtualCameraDirectShow32-0.3.0.dll"@
}

/// Whether the 64-bit DirectShow filter is registered; only then does the
/// 32-bit view need to be queried.
pub fn directshow64_registered(directshow_64: &RegistryOutput) -> (registered: bool)
    ensures
        registered == points_to(*directshow_64, directshow64_file()),
{
    registry_points_to(directshow_64, "RustVirtualCameraDirectShow64-0.3.0.dll")
}

/// The installation state shown by the three registry queries: the media
/// source in the 64-bit view, and the DirectShow filter in the 64-bit and
/// the 32-bit view.
pub fn driver_status(
    media_source_64: &RegistryOutput,
    directshow_64: &RegistryOutput,
    directshow_32: &RegistryOutput,
) -> (status: DriverStatus)
    ensures
        status.media_foundation_installed == points_to(*media_source_64, media_source_file()),
        status.direct_show_installed == (points_to(*directshow_64, directshow64_file())
            && points_to(*directshow_32, directshow32_file())),
{
    DriverStatus {
        media_foundation_installed: registry_points_to(
            media_source_64,
            "RustVirtualCameraMediaSource-0.3.0.dll",
        ),
        direct_show_installed: registry_points_to(
            directshow_64,
            "RustVirtualCameraDirectShow64-0.3.0.dll",
        ) && registry_points_to(directshow_32, "RustVirtualCameraDirectShow32-0.3.0.dll"),
    }
}

/// A native component's file name is not one of the known components.
#[derive(Debug, Clone, Copy, PartialEq, Eq, Structural)]
pub enum NativeFileError {
    Unknown,
}

impl NativeFileError {
    /// The message shown to the user.
    pub fn message(&self) -> (text: String)
        ensures
            text@ == "알 수 없는 네이티브 구성요소입니다."@,
    {
        "알 수 없는 네이티브 구성요소입니다.".to_owned()
    }
}

/// Where the file of a native component lies: relative to the packaged
/// resources, and relative to the development tree.
pub open spec fn native_file_table(file: Seq<char>) -> Option<(Seq<char>, Seq<char>)> {
    if file == "mfvcam_manager.exe"@ {
        Some(("mfvcam/mfvcam_manager.exe"@, "mfvcam-manager/dist/mfvcam_manager.exe"@))
    } else if file == "RustVirtualCameraMediaSource.dll"@ {
        Some((
            "mfvcam/RustVirtualCameraMediaSource.dll"@,
            "windows-camera-reference/Samples/VirtualCamera/x64/Release/VirtualCameraMediaSource.dll"@,
        ))
    } else if file == "dshow_manager64.exe"@ {
        Some(("dshow/dshow_manager64.exe"@, "dshow-manager/dist/x64/dshow_manager.exe"@))
    } else if file == "dshow_manager32.exe"@ {
        Some(("dshow/dshow_manager32.exe"@, "dshow-manager/dist/Win32/dshow_manager.exe"@))
    } else if file == "softcam64.dll"@ {
        Some(("dshow/softcam64.dll"@, "softcam/x64/Release/softcam.dll"@))
    } else if file == "softcam32.dll"@ {
        Some(("dshow/softcam32.dll"@, "softcam/Win32/Release/softcam.dll"@))
    } else {
        None
    }
}

/// The packaged directory of a native component: the Media Foundation
/// files lie under `mfvcam/`, the DirectShow files under `dshow/`.
pub open spec fn packaged_directory(file: Seq<char>) -> Seq<char> {
    if file == "mfvcam_manager.exe"@ || file == "RustVirtualCameraMediaSource.dll"@ {
        "mfvcam/"@
    } else {
        "dshow/"@
    }
}

/// Every known native component is packaged under its own file name: its
/// packaged location is its packaged directory followed by that name.
pub proof fn lemma_packaged_under_own_name(file: Seq<char>)
    requires
        native_file_table(file) is Some,
    ensures
        native_file_table(file).unwrap().0 == packaged_directory(file) + file,
{
    reveal_strlit("mfvcam/");
    reveal_strlit("dshow/");
    if file == "mfvcam_manager.exe"@ {
        reveal_strlit("mfvcam_manager.exe");
        reveal_strlit("mfvcam/mfvcam_manager.exe");
        assert("mfvcam/"@ + file =~= "mfvcam/mfvcam_manager.exe"@);
    } else if file == "RustVirtualCameraMediaSource.dll"@ {
        reveal_strlit("RustVirtualCameraMediaSource.dll");
        reveal_strlit("mfvcam/RustVirtualCameraMediaSource.dll");
        assert("mfvcam/"@ + file =~= "mfvcam/RustVirtualCameraMediaSource.dll"@);
    } else if file == "dshow_manager64.exe"@ {
        reveal_strlit("dshow_manager64.exe");
        reveal_strlit("dshow/dshow_manager64.exe");
        assert("dshow/"@ + file =~= "dshow/dshow_manager64.exe"@);
    } else if file == "dshow_manager32.exe"@ {
        reveal_strlit("dshow_manager32.exe");
        reveal_strlit("dshow/dshow_manager32.exe");
        assert("dshow/"@ + file =~= "dshow/dshow_manager32.exe"@);
    } else if file == "softcam64.dll"@ {
        reveal_strlit("softcam64.dll");
        reveal_strlit("dshow/softcam64.dll");
        assert("dshow/"@ + file =~= "dshow/softcam64.dll"@);
    } else if file == "softcam32.dll"@ {
        reveal_strlit("softcam32.dll");
        reveal_strlit("dshow/softcam32.dll");
        assert("dshow/"@ + file =~= "dshow/softcam32.dll"@);
    }
}

/// Two different native components never resolve to the same packaged
/// file.
pub proof fn lemma_packaged_files_distinct(first: Seq<char>, second: Seq<char>)
    requires
        native_file_table(first) is Some,
        native_file_table(second) is Some,
        first != second,
    ensures
        native_file_table(first).unwrap().0 != native_file_table(second).unwrap().0,
{
    lemma_packaged_under_own_name(first);
    lemma_packaged_under_own_name(second);
    reveal_strlit("mfvcam/");
    reveal_strlit("dshow/");
    let a = packaged_directory(first);
    let b = packaged_directory(second);
    if a + first == b + second {
        if a == b {
            assert((a + first).subrange(a.len() as int, (a + first).len() as int) =~= first);
            assert((b + second).subrange(b.len() as int, (b + second).len() as int) =~= second);
        } else {
            assert((a + first)[0] == a[0]);
            assert((b + second)[0] == b[0]);
        }
    }
}

/// The packaged and the development location of a native component.
pub fn native_file_locations(file: &str) -> (locations: Result<(&'static str, &'static str), NativeFileError>)
    ensures
        match native_file_table(file@) {
            Some((packaged, development)) => locations matches Ok((p, d)) && p@ == packaged
                && d@ == development,
            None => locations == Err::<(&'static str, &'static str), NativeFileError>(
                NativeFileError::Unknown,
            ),
        },
{
    if str_equals(file, "mfvcam_manager.exe") {
        Ok(("mfvcam/mfvcam_manager.exe", "mfvcam-manager/dist/mfvcam_manager.exe"))
    } else if str_equals(file, "RustVirtualCameraMediaSource.dll") {
        Ok((
            "mfvcam/RustVirtualCameraMediaSource.dll",
            "windows-camera-reference/Samples/VirtualCamera/x64/Release/VirtualCameraMediaSource.dll",
        ))
    } else if str_equals(file, "dshow_manager64.exe") {
        Ok(("dshow/dshow_manager64.exe", "dshow-manager/dist/x64/dshow_manager.exe"))
    } else if str_equals(file, "dshow_manager32.exe") {
        Ok(("dshow/dshow_manager32.exe", "dshow-manager/dist/Win32/dshow_manager.exe"))
    } else if str_equals(file, "softcam64.dll") {
        Ok(("dshow/softcam64.dll", "softcam/x64/Release/softcam.dll"))
    } else if str_equals(file, "softcam32.dll") {
        Ok(("dshow/softcam32.dll", "softcam/Win32/Release/softcam.dll"))
    } else {
        Err(NativeFileError::Unknown)
    }
}

/// Where a native component lies in the development tree: `native/` beside
/// the directory `manifest_dir` of the application's manifest, the parts
/// joined by the platform's path `separator`.
pub fn development_native_path(manifest_dir: &str, separator: &str, relative: &str) -> (path: String)
    ensures
        path@ == manifest_dir@ + separator@ + ".."@ + separator@ + "native"@ + separator@ + relative@,
{
    let mut path = String::from_str(manifest_dir);
    path.append(separator);
    path.append("..");
    path.append(separator);
    path.append("native");
    path.append(separator);
    path.append(relative);
    path
}

/// Which native component is to be used: the packaged one if it exists,
/// else the development one if it exists.
pub enum NativeFileChoice {
    Packaged,
    Development,
    Missing,
}

/// Chooses between the packaged and the development file of a component.
pub fn choose_native_file(packaged_exists: bool, development_exists: bool) -> (choice: NativeFileChoice)
    ensures
        packaged_exists ==> choice is Packaged,
        !packaged_exists && development_exists ==> choice is Development,
        !packaged_exists && !development_exists ==> choice is Missing,
{
    if packaged_exists {
        NativeFileChoice::Packaged
    } else if development_exists {
        NativeFileChoice::Development
    } else {
        NativeFileChoice::Missing
    }
}

/// A camera output whose components can be installed or removed.
#[derive(Debug, Clone, Copy, PartialEq, Eq, Structural)]
pub enum DriverBackend {
    MediaFoundation,
    DirectShow,
}

/// The backend name is neither `media-foundation` nor `directshow`.
#[derive(Debug, Clone, Copy, PartialEq, Eq, Structural)]
pub enum DriverBackendError {
    Unsupported,
}

impl DriverBackendError {
    /// The message shown to the user.
    pub fn message(&self) -> (text: String)
        ensures
            text@ == "지원하지 않는 카메라 출력 방식입니다."@,
    {
        "지원하지 않는 카메라 출력 방식입니다.".to_owned()
    }
}

/// The output that `backend` names.
pub fn driver_backend(backend: &str) -> (output: Result<DriverBackend, DriverBackendError>)
    ensures
        backend@ == "media-foundation"@ ==> output == Ok::<DriverBackend, DriverBackendError>(
            DriverBackend::MediaFoundation,
        ),
        backend@ == "directshow"@ ==> output == Ok::<DriverBackend, DriverBackendError>(
            DriverBackend::DirectShow,
        ),
        backend@ != "media-foundation"@ && backend@ != "directshow"@ ==> output == Err::<
            DriverBackend,
            DriverBackendError,
        >(DriverBackendError::Unsupported),
{
    proof {
        reveal_strlit("media-foundation");
        reveal_strlit("directshow");
        assert("media-foundation"@.len() != "directshow"@.len());
    }
    if str_equals(backend, "media-foundation") {
        Ok(DriverBackend::MediaFoundation)
    } else if str_equals(backend, "directshow") {
        Ok(DriverBackend::DirectShow)
    } else {
        Err(DriverBackendError::Unsupported)
    }
}

impl DriverBackend {
    /// The name the user knows the output by.
    pub fn label(&self) -> (label: &'static str)
        ensures
            label@ == match self {
                DriverBackend::MediaFoundation => "Windows 11"@,
                DriverBackend::DirectShow => "DirectShow"@,
            },
    {
        match self {
            DriverBackend::MediaFoundation => "Windows 11",
            DriverBackend::DirectShow => "DirectShow",
        }
    }

    /// The component that installs and removes this output.
    pub fn manager_file(&self) -> (file: &'static str)
        ensures
            file@ == match self {
                DriverBackend::MediaFoundation => "mfvcam_manager.exe"@,
                DriverBackend::DirectShow => "dshow_manager64.exe"@,
            },
    {
        match self {
            DriverBackend::MediaFoundation => "mfvcam_manager.exe",
            DriverBackend::DirectShow => "dshow_manager64.exe",
        }
    }
}

/// Arguments that install the Media Foundation source from `media_source`.
pub fn media_foundation_install_arguments(media_source: &str) -> (arguments: String)
    ensures
        arguments@ == "install \""@ + media_source@ + "\""@,
{
    let mut arguments = String::from_str("install \"");
    arguments.append(media_source);
    arguments.append("\"");
    arguments
}

/// Arguments that remove the Media Foundation source.
pub fn media_foundation_uninstall_arguments() -> (arguments: String)
    ensures
        arguments@ == "uninstall"@,
{
    String::from_str("uninstall")
}

/// Arguments that install the DirectShow filters from the two libraries,
/// registering the 32-bit one through `helper32`.
pub fn directshow_install_arguments(dll64: &str, dll32: &str, helper32: &str) -> (arguments: String)
    ensures
        arguments@ == "install \""@ + dll64@ + "\" \""@ + dll32@ + "\" \""@ + helper32@ + "\""@,
{
    let mut arguments = String::from_str("install \"");
    arguments.append(dll64);
    arguments.append("\" \"");
    arguments.append(dll32);
    arguments.append("\" \"");
    arguments.append(helper32);
    arguments.append("\"");
    arguments
}

/// Arguments that remove the DirectShow filters, the 32-bit one through
/// `helper32`.
pub fn directshow_uninstall_arguments(helper32: &str) -> (arguments: String)
    ensures
        arguments@ == "uninstall \""@ + helper32@ + "\""@,
{
    let mut arguments = String::from_str("uninstall \"");
    arguments.append(helper32);
    arguments.append("\"");
    arguments
}

} // verus!
