use vermuda::storage::{plan_storage, StorageDevice};

#[test]
fn full_plan_keeps_attachment_order() {
    assert_eq!(
        plan_storage(true, true, true, 2),
        vec![
            StorageDevice::Boot,
            StorageDevice::Root,
            StorageDevice::Iso,
            StorageDevice::Disk(0),
            StorageDevice::Disk(1),
        ]
    );
}

#[test]
fn missing_boot_image_is_left_out() {
    assert_eq!(
        plan_storage(false, true, false, 1),
        vec![StorageDevice::Root, StorageDevice::Disk(0)]
    );
}

#[test]
fn empty_plan_without_devices() {
    assert!(plan_storage(false, false, false, 0).is_empty());
}

#[test]
fn boot_and_installation_media_are_read_only() {
    assert!(StorageDevice::Boot.read_only());
    assert!(StorageDevice::Iso.read_only());
    assert!(!StorageDevice::Root.read_only());
    assert!(!StorageDevice::Disk(3).read_only());
}
