use rust_virtual_camera::driver::directshow64_registered;
use rust_virtual_camera::driver::{
    choose_native_file, development_native_path, directshow_install_arguments,
    directshow_uninstall_arguments, driver_backend, driver_status,
    media_foundation_install_arguments, media_foundation_uninstall_arguments,
    native_file_locations, registry_key, registry_points_to, DriverBackend, DriverBackendError,
    NativeFileChoice, NativeFileError, RegistryOutput, MEDIA_SOURCE_CLSID,
};

fn output(success: bool, stdout: &str) -> RegistryOutput {
    RegistryOutput { success, stdout: stdout.into() }
}

#[test]
fn registry_key_of_a_class() {
    assert_eq!(
        registry_key(MEDIA_SOURCE_CLSID),
        "HKLM\\SOFTWARE\\Classes\\CLSID\\{CD31FFCF-F7BE-42DC-A072-F49AD0E66AF7}\\InprocServer32"
    );
}

#[test]
fn registry_match_ignores_ascii_case() {
    let found = output(true, "    (Default)    REG_SZ    C:\\Program Files\\RUSTVIRTUALCAMERAMEDIASOURCE-0.3.0.DLL\r\n");
    assert!(registry_points_to(&found, "RustVirtualCameraMediaSource-0.3.0.dll"));
    assert!(!registry_points_to(&found, "RustVirtualCameraDirectShow64-0.3.0.dll"));
    let failed = output(false, "RustVirtualCameraMediaSource-0.3.0.dll");
    assert!(!registry_points_to(&failed, "RustVirtualCameraMediaSource-0.3.0.dll"));
    assert!(registry_points_to(&output(true, ""), ""));
}

#[test]
fn driver_status_needs_both_directshow_views() {
    let ms = output(true, "x\\RustVirtualCameraMediaSource-0.3.0.dll");
    let d64 = output(true, "x\\RustVirtualCameraDirectShow64-0.3.0.dll");
    let d32 = output(true, "x\\RustVirtualCameraDirectShow32-0.3.0.dll");
    let none = output(false, "");
    let all = driver_status(&ms, &d64, &d32);
    assert!(all.media_foundation_installed && all.direct_show_installed);
    let partial = driver_status(&none, &d64, &none);
    assert!(!partial.media_foundation_installed && !partial.direct_show_installed);
    let swapped = driver_status(&ms, &d32, &d64);
    assert!(!swapped.direct_show_installed);
}

#[test]
fn native_files_have_two_locations() {
    assert_eq!(
        native_file_locations("softcam64.dll"),
        Ok(("dshow/softcam64.dll", "softcam/x64/Release/softcam.dll"))
    );
    assert_eq!(
        native_file_locations("mfvcam_manager.exe"),
        Ok(("mfvcam/mfvcam_manager.exe", "mfvcam-manager/dist/mfvcam_manager.exe"))
    );
    assert_eq!(native_file_locations("other.dll"), Err(NativeFileError::Unknown));
    assert_eq!(NativeFileError::Unknown.message(), "알 수 없는 네이티브 구성요소입니다.");
}

#[test]
fn packaged_file_is_preferred() {
    assert!(matches!(choose_native_file(true, true), NativeFileChoice::Packaged));
    assert!(matches!(choose_native_file(false, true), NativeFileChoice::Development));
    assert!(matches!(choose_native_file(false, false), NativeFileChoice::Missing));
}

#[test]
fn development_path_lies_beside_the_manifest() {
    assert_eq!(
        development_native_path("/src/app/src-tauri", "/", "softcam/x64/Release/softcam.dll"),
        "/src/app/src-tauri/../native/softcam/x64/Release/softcam.dll"
    );
    assert_eq!(
        development_native_path("C:\\app\\src-tauri", "\\", "softcam/x64/Release/softcam.dll"),
        "C:\\app\\src-tauri\\..\\native\\softcam/x64/Release/softcam.dll"
    );
}

#[test]
fn driver_backends_and_arguments() {
    assert_eq!(driver_backend("media-foundation"), Ok(DriverBackend::MediaFoundation));
    assert_eq!(driver_backend("directshow"), Ok(DriverBackend::DirectShow));
    assert_eq!(driver_backend("DirectShow"), Err(DriverBackendError::Unsupported));
    assert_eq!(DriverBackend::MediaFoundation.label(), "Windows 11");
    assert_eq!(DriverBackend::DirectShow.manager_file(), "dshow_manager64.exe");
    assert_eq!(media_foundation_install_arguments("C:\\a b.dll"), "install \"C:\\a b.dll\"");
    assert_eq!(media_foundation_uninstall_arguments(), "uninstall");
    assert_eq!(
        directshow_install_arguments("a64", "a32", "h32"),
        "install \"a64\" \"a32\" \"h32\""
    );
    assert_eq!(directshow_uninstall_arguments("h32"), "uninstall \"h32\"");
}

#[test]
fn directshow64_registration_decides_the_second_query() {
    assert!(directshow64_registered(&output(true, "c:\\rustvirtualcameradirectshow64-0.3.0.dll")));
    assert!(!directshow64_registered(&output(true, "c:\\RustVirtualCameraDirectShow32-0.3.0.dll")));
}
