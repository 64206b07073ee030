use kvm_core::bindings::{KvmRegs, KvmSregs, KvmSegment, KvmDtable, KvmUserspaceMemoryRegion};
use kvm_core::machine::{
    release_plan, HeldResources, Kvm, ReleaseAction, VmmError,
};

fn region(slot: u32, gpa: u64, size: u64) -> KvmUserspaceMemoryRegion {
    KvmUserspaceMemoryRegion {
        slot,
        flags: 0,
        guest_phys_addr: gpa,
        memory_size: size,
        userspace_addr: 0,
    }
}

fn zero_regs() -> KvmRegs {
    KvmRegs {
        rax: 0, rbx: 0, rcx: 0, rdx: 0, rsi: 0, rdi: 0, rsp: 0, rbp: 0,
        r8: 0, r9: 0, r10: 0, r11: 0, r12: 0, r13: 0, r14: 0, r15: 0,
        rip: 0, rflags: 0,
    }
}

fn zero_segment() -> KvmSegment {
    KvmSegment {
        base: 0, limit: 0, selector: 0, type_: 0, present: 0, dpl: 0, db: 0,
        s: 0, l: 0, g: 0, avl: 0, unusable: 0, padding: 0,
    }
}

fn zero_sregs() -> KvmSregs {
    KvmSregs {
        cs: zero_segment(), ds: zero_segment(), es: zero_segment(),
        fs: zero_segment(), gs: zero_segment(), ss: zero_segment(),
        tr: zero_segment(), ldt: zero_segment(),
        gdt: KvmDtable { base: 0, limit: 0 },
        idt: KvmDtable { base: 0, limit: 0 },
        cr0: 0, cr2: 0, cr3: 0, cr4: 0, cr8: 0, efer: 0, apic_base: 0,
        interrupt_bitmap_0: 0, interrupt_bitmap_1: 0,
        interrupt_bitmap_2: 0, interrupt_bitmap_3: 0,
    }
}

#[test]
fn open_failure_on_negative_descriptor() {
    assert_eq!(Kvm::new(-1, 12).err(), Some(VmmError::OpenFailure));
}

#[test]
fn version_mismatch_closes_the_door() {
    // A mismatched version yields the error and no subsystem handle, so no
    // VM handle can ever be derived from that open.
    let r = Kvm::new(3, 11);
    assert_eq!(r.err(), Some(VmmError::VersionMismatch { got: 11 }));
}

#[test]
fn validated_open_owns_descriptor() {
    let kvm = Kvm::new(3, 12).unwrap();
    assert_eq!(kvm.fd(), 3);
    assert_eq!(kvm.into_fd(), 3);
}

#[test]
fn vm_creation_outcomes() {
    let kvm = Kvm::new(3, 12).unwrap();
    assert_eq!(kvm.create_vm(-1).err(), Some(VmmError::VmCreationFailure));
    let vm = kvm.create_vm(4).unwrap();
    assert_eq!(vm.fd(), 4);
    assert_eq!(vm.into_fd(), 4);
}

#[test]
fn control_page_size_query_outcomes() {
    let kvm = Kvm::new(3, 12).unwrap();
    assert_eq!(kvm.get_vcpu_mmap_size(-1).err(), Some(VmmError::QueryFailure));
    assert_eq!(kvm.get_vcpu_mmap_size(12288).unwrap(), 12288);
}

#[test]
fn disjoint_regions_are_accepted() {
    let kvm = Kvm::new(3, 12).unwrap();
    let mut vm = kvm.create_vm(4).unwrap();
    assert!(vm.set_user_memory_region(&region(0, 0x1000, 0x1000)).is_ok());
    assert!(vm.set_user_memory_region(&region(1, 0x2000, 0x1000)).is_ok());
}

#[test]
fn overlapping_region_is_rejected() {
    let kvm = Kvm::new(3, 12).unwrap();
    let mut vm = kvm.create_vm(4).unwrap();
    assert!(vm.set_user_memory_region(&region(0, 0x1000, 0x1000)).is_ok());
    assert_eq!(
        vm.set_user_memory_region(&region(1, 0x1800, 0x1000)).err(),
        Some(VmmError::RegionRejected)
    );
    // The rejected region left no trace: the same range under a fresh slot
    // still conflicts, a disjoint one is still accepted.
    assert!(vm.set_user_memory_region(&region(2, 0x2000, 0x1000)).is_ok());
}

#[test]
fn reused_slot_index_is_rejected() {
    let kvm = Kvm::new(3, 12).unwrap();
    let mut vm = kvm.create_vm(4).unwrap();
    assert!(vm.set_user_memory_region(&region(0, 0x1000, 0x1000)).is_ok());
    assert_eq!(
        vm.set_user_memory_region(&region(0, 0x10000, 0x1000)).err(),
        Some(VmmError::RegionRejected)
    );
}

#[test]
fn empty_and_wrapping_regions_are_rejected() {
    let kvm = Kvm::new(3, 12).unwrap();
    let mut vm = kvm.create_vm(4).unwrap();
    assert_eq!(
        vm.set_user_memory_region(&region(0, 0x1000, 0)).err(),
        Some(VmmError::RegionRejected)
    );
    assert_eq!(
        vm.set_user_memory_region(&region(0, u64::MAX, 2)).err(),
        Some(VmmError::RegionRejected)
    );
    // A range ending exactly at the top of the address space is fine.
    assert!(vm.set_user_memory_region(&region(0, u64::MAX - 0xfff, 0x1000)).is_ok());
}

#[test]
fn vcpu_creation_outcomes() {
    let kvm = Kvm::new(3, 12).unwrap();
    let vm = kvm.create_vm(4).unwrap();
    assert_eq!(vm.create_vcpu(0, -1).err(), Some(VmmError::VcpuCreationFailure));
    let vcpu = vm.create_vcpu(0, 5).unwrap();
    assert_eq!(vcpu.fd(), 5);
    assert_eq!(vcpu.into_fd(), 5);
}

#[test]
fn register_access_outcomes() {
    let kvm = Kvm::new(3, 12).unwrap();
    let vm = kvm.create_vm(4).unwrap();
    let vcpu = vm.create_vcpu(0, 5).unwrap();
    assert_eq!(
        vcpu.get_regs(-1, zero_regs()).err(),
        Some(VmmError::RegisterAccessFailure)
    );
    let mut regs = zero_regs();
    regs.rip = 0x1000;
    regs.rsp = 0x2000;
    regs.rflags = 0x2;
    let back = vcpu.get_regs(0, regs).unwrap();
    assert_eq!(back.rip, 0x1000);
    assert_eq!(back.rsp, 0x2000);
    assert_eq!(back.rflags, 0x2);
    assert_eq!(vcpu.set_regs(-1).err(), Some(VmmError::RegisterAccessFailure));
    assert!(vcpu.set_regs(0).is_ok());
    assert_eq!(
        vcpu.get_sregs(-1, zero_sregs()).err(),
        Some(VmmError::RegisterAccessFailure)
    );
    let mut sregs = zero_sregs();
    sregs.cs.limit = 0xffff;
    assert_eq!(vcpu.get_sregs(0, sregs).unwrap().cs.limit, 0xffff);
    assert_eq!(vcpu.set_sregs(-1).err(), Some(VmmError::RegisterAccessFailure));
    assert!(vcpu.set_sregs(0).is_ok());
}

#[test]
fn run_and_map_outcomes() {
    let kvm = Kvm::new(3, 12).unwrap();
    let vm = kvm.create_vm(4).unwrap();
    let vcpu = vm.create_vcpu(0, 5).unwrap();
    assert_eq!(vcpu.run(-1).err(), Some(VmmError::RunFailure));
    assert!(vcpu.run(0).is_ok());
    assert_eq!(vcpu.map_run(None).err(), Some(VmmError::MapFailure));
    assert_eq!(vcpu.map_run(Some(0x7f00_0000)).unwrap(), 0x7f00_0000);
}

#[test]
fn release_plan_covers_every_held_resource_once() {
    let all = HeldResources {
        control_page: true,
        vcpu: true,
        vm: true,
        guest_memory: true,
        subsystem: true,
    };
    let plan = release_plan(&all);
    assert_eq!(
        plan,
        vec![
            (ReleaseAction::UnmapControlPage, true),
            (ReleaseAction::CloseVcpu, true),
            (ReleaseAction::CloseVm, true),
            (ReleaseAction::UnmapGuestMemory, true),
            (ReleaseAction::CloseSubsystem, true),
        ]
    );
}

#[test]
fn release_plan_after_early_setup_failure() {
    // A failure right after VM creation: only the subsystem, the VM and the
    // guest memory were ever acquired.
    let held = HeldResources {
        control_page: false,
        vcpu: false,
        vm: true,
        guest_memory: true,
        subsystem: true,
    };
    let plan = release_plan(&held);
    assert_eq!(plan.len(), 5);
    let performed: Vec<ReleaseAction> =
        plan.iter().filter(|e| e.1).map(|e| e.0).collect();
    assert_eq!(
        performed,
        vec![
            ReleaseAction::CloseVm,
            ReleaseAction::UnmapGuestMemory,
            ReleaseAction::CloseSubsystem,
        ]
    );
}
