use blight::err::BlibError;
use blight::text::{contains_sub, str_eq};
use blight::Device;

fn names(list: &[&str]) -> Vec<String> {
    list.iter().map(|s| s.to_string()).collect()
}

#[test]
fn detecting_device_nvidia() {
    let interfaces = names(&["nvidia_0", "generic"]);
    let name = Device::detect_device(&interfaces);
    assert!(name.is_ok());
    assert_eq!(name.unwrap(), "nvidia_0");
}

#[test]
fn detecting_device_amd() {
    let interfaces = names(&["nvidia_0", "generic", "amdgpu_x"]);
    let name = Device::detect_device(&interfaces);
    assert!(name.is_ok());
    assert_eq!(name.unwrap(), "amdgpu_x");
}

#[test]
fn detecting_device_acpi() {
    let interfaces = names(&["acpi_video0", "generic"]);
    let name = Device::detect_device(&interfaces);
    assert!(name.is_ok());
    assert_eq!(name.unwrap(), "acpi_video0");
}

#[test]
fn detecting_device_fallback() {
    let interfaces = names(&["generic"]);
    let name = Device::detect_device(&interfaces);
    assert!(name.is_ok());
    assert_eq!(name.unwrap(), "generic");
}

#[test]
fn detecting_device_intel() {
    let interfaces = names(&["nvidia_0", "intel_backlight"]);
    assert_eq!(Device::detect_device(&interfaces).unwrap(), "intel_backlight");
}

#[test]
fn detecting_device_prefers_first_priority_match() {
    let interfaces = names(&["acpi_video0", "amdgpu_x", "intel_backlight"]);
    assert_eq!(Device::detect_device(&interfaces).unwrap(), "amdgpu_x");
}

#[test]
fn detecting_device_empty_dir() {
    let interfaces: Vec<String> = Vec::new();
    assert!(matches!(
        Device::detect_device(&interfaces),
        Err(BlibError::NoDeviceFound)
    ));
}

#[test]
fn substring_search() {
    assert!(contains_sub("amdgpu_x", "amd"));
    assert!(contains_sub("nvidia_0", "nv"));
    assert!(!contains_sub("generic", "amd"));
    assert!(contains_sub("anything", ""));
    assert!(!contains_sub("", "acpi"));
}

#[test]
fn string_equality() {
    assert!(str_eq("white", "white"));
    assert!(!str_eq("white", "whit"));
    assert!(!str_eq("white", "White"));
}
