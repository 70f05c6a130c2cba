use windows_kernel::kits::{
    bindings_file_name, include_argument, kernel_mode_subdirectory, kits_subdirectory,
    select_km_directory, select_kits_version, Error, KernelDirectoryType, KitsEntry,
};

fn entry(name: &str, has_km: bool) -> KitsEntry {
    KitsEntry { name: Some(name.as_bytes().to_vec()), has_km }
}

#[test]
fn subdirectory_names() {
    assert_eq!(kits_subdirectory(KernelDirectoryType::Library), "Lib");
    assert_eq!(kits_subdirectory(KernelDirectoryType::Include), "Include");
    assert_eq!(kernel_mode_subdirectory(), "km");
}

#[test]
fn greatest_version_with_km_is_chosen() {
    let entries = vec![
        entry("10.0.17763.0", true),
        entry("10.0.22621.0", false),
        entry("10.0.19041.0", true),
        entry("wdf", true),
        KitsEntry { name: None, has_km: true },
        entry("8.1", true),
        entry("10.0.10240.0", true),
    ];
    assert_eq!(select_kits_version(&entries), Some(2));
    assert!(matches!(select_km_directory(Some(&entries)), Ok(2)));
}

#[test]
fn byte_order_not_numeric_order() {
    let entries = vec![entry("10.0.9.0", true), entry("10.0.10.0", true)];
    assert_eq!(select_kits_version(&entries), Some(0));
}

#[test]
fn no_version_is_directory_not_found() {
    let entries = vec![entry("wdf", true), entry("10.0.1", false)];
    assert_eq!(select_kits_version(&entries), None);
    assert!(matches!(select_km_directory(Some(&entries)), Err(Error::DirectoryNotFound)));
    assert!(matches!(select_km_directory(None), Err(Error::DirectoryNotFound)));
    assert_eq!(select_kits_version(&Vec::new()), None);
}

#[test]
fn prefix_must_be_exact() {
    let entries = vec![entry("10", true), entry("10-", true), entry("10.", true)];
    assert_eq!(select_kits_version(&entries), Some(2));
}

#[test]
fn binding_file_names() {
    assert_eq!(windows_kernel::kits::wrapper_header_path("wsk"), "src/wrapper_wsk.h");
    assert_eq!(bindings_file_name("ntifs"), "bindings_ntifs.rs");
    assert_eq!(include_argument("C:\\Kits\\km"), "-IC:\\Kits\\km");
}
