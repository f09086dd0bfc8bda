//! Which storage devices the machine gets, and in which order.
use vstd::prelude::*;

verus! {

/// One storage device of the machine.
#[derive(Debug, Clone, Copy, PartialEq, Eq, Structural)]
pub enum StorageDevice {
    /// The boot image, as a read-only virtio block device.
    Boot,
    /// The root disk image, as a writable virtio block device.
    Root,
    /// The installation medium, as a read-only USB mass-storage device.
    Iso,
    /// The extra block device at this index of the configured list, as a
    /// writable NVMe controller.
    Disk(usize),
}

pub open spec fn is_read_only(d: StorageDevice) -> bool {
    d is Boot || d is Iso
}

/// The devices in attachment order: the boot image when it is on disk, the
/// root disk, the installation medium, then each extra block device.
pub open spec fn storage_plan(
    boot_present: bool,
    has_root: bool,
    has_iso: bool,
    n_disks: nat,
) -> Seq<StorageDevice> {
    (if boot_present { seq![StorageDevice::Boot] } else { seq![] }).add(
        if has_root { seq![StorageDevice::Root] } else { seq![] },
    ).add(if has_iso { seq![StorageDevice::Iso] } else { seq![] }).add(
        Seq::new(n_disks, |i: int| StorageDevice::Disk(i as usize)),
    )
}

impl StorageDevice {
    /// Whether the device is attached read-only.
    pub fn read_only(&self) -> (r: bool)
        ensures
            r == is_read_only(*self),
    {
        match self {
            StorageDevice::Boot | StorageDevice::Iso => true,
            StorageDevice::Root | StorageDevice::Disk(_) => false,
        }
    }
}

/// Lists the storage devices to attach, in order.
pub fn plan_storage(boot_present: bool, has_root: bool, has_iso: bool, n_disks: usize) -> (r: Vec<
    StorageDevice,
>)
    ensures
        r@ == storage_plan(boot_present, has_root, has_iso, n_disks as nat),
{
    let mut devices: Vec<StorageDevice> = Vec::new();
    if boot_present {
        devices.push(StorageDevice::Boot);
    }
    if has_root {
        devices.push(StorageDevice::Root);
    }
    if has_iso {
        devices.push(StorageDevice::Iso);
    }
    let ghost head = devices@;
    let mut i: usize = 0;
    while i < n_disks
        invariant
            i <= n_disks,
            devices@ == head.add(Seq::new(i as nat, |k: int| StorageDevice::Disk(k as usize))),
        decreases n_disks - i,
    {
        devices.push(StorageDevice::Disk(i));
        i = i + 1;
        assert(devices@ =~= head.add(Seq::new(i as nat, |k: int| StorageDevice::Disk(k as usize))));
    }
    assert(head =~= (if boot_present { seq![StorageDevice::Boot] } else { seq![] }).add(
        if has_root { seq![StorageDevice::Root] } else { seq![] },
    ).add(if has_iso { seq![StorageDevice::Iso] } else { seq![] }));
    devices
}

} // verus!
