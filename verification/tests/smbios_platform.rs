use qemu_resources::sbsa::component::service::smbios_platform::SbsaSmbiosPlatform;

#[test]
fn new_creates_a_platform_component() {
    let _platform: SbsaSmbiosPlatform = SbsaSmbiosPlatform::new();
}

#[test]
fn default_creates_a_platform_component() {
    let _platform: SbsaSmbiosPlatform = SbsaSmbiosPlatform::default();
}
