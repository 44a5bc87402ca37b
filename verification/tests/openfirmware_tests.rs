use newton_emu::openfirmware::boot_script::{BootInfo, BootScriptParser};
use newton_emu::openfirmware::OpenFirmware;

#[test]
fn boot_script_fields_are_read() {
    let script = "<CHRP-BOOT>\n  boot-device  hd:2,\\\\:tbxi  \r\nboot-file  mac os\nload-base 0x4000\nboot-script  load  go \nother stuff\n";
    let info = BootScriptParser::new(script.to_string()).parse().unwrap();
    assert_eq!(info.boot_device.as_deref(), Some("hd:2,\\\\:tbxi"));
    assert_eq!(info.boot_file.as_deref(), Some("mac os"));
    assert_eq!(info.load_base, Some(0x4000));
    assert_eq!(info.boot_script.as_deref(), Some("load  go"));
    assert!(info.is_bootable());
}

#[test]
fn boot_script_bad_fields_are_skipped() {
    let script = "boot-device\nload-base 4000\nload-base 0xZZ\nboot-file a\nboot-file b";
    let info = BootScriptParser::new(script.to_string()).parse().unwrap();
    assert_eq!(info.boot_device, None);
    assert_eq!(info.load_base, None);
    assert_eq!(info.boot_file.as_deref(), Some("b"));
    let empty = BootInfo::default();
    assert!(!empty.is_bootable());
}

#[test]
fn openfirmware_starts_with_standard_tree() {
    let mut of = OpenFirmware::new();
    assert_eq!(of.device_tree().get_property("/", "device_type").unwrap(), b"chrp");
    assert_eq!(of.device_tree().get_property("/cpus/PowerPC,G4", "reg").unwrap(), &[0, 0, 0, 0]);
    of.execute_forth("1 2 +").unwrap();
    assert_eq!(of.forth_mut().pop().unwrap(), 3);
    let r = of.call_client_service("finddevice", &[0], &["/memory".to_string()]).unwrap();
    assert_eq!(r.returns.len(), 1);
    assert!(r.returns[0] > 0);
}
