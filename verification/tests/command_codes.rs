use kvm_core::bindings::{
    KvmDtable, KvmRegs, KvmSegment, KvmSregs, KvmUserspaceMemoryRegion,
    io_code, ior_code, iow_code, KVMIO, KVM_API_VERSION, KVM_CREATE_VCPU, KVM_CREATE_VM,
    KVM_EXIT_HLT, KVM_EXIT_INTERNAL_ERROR, KVM_EXIT_IO, KVM_EXIT_IO_IN, KVM_EXIT_IO_OUT,
    KVM_EXIT_SHUTDOWN, KVM_EXIT_UNKNOWN, KVM_GET_API_VERSION, KVM_GET_REGS, KVM_GET_SREGS,
    KVM_GET_VCPU_MMAP_SIZE, KVM_RUN, KVM_SET_REGS, KVM_SET_SREGS, KVM_SET_USER_MEMORY_REGION,
    REGS_BYTES, SREGS_BYTES, USER_MEMORY_REGION_BYTES,
};

#[test]
fn supported_api_version_is_twelve() {
    assert_eq!(KVM_API_VERSION, 12);
}

#[test]
fn no_payload_codes_match_encoding() {
    assert_eq!(io_code(KVMIO, 0x00), KVM_GET_API_VERSION);
    assert_eq!(io_code(KVMIO, 0x01), KVM_CREATE_VM);
    assert_eq!(io_code(KVMIO, 0x04), KVM_GET_VCPU_MMAP_SIZE);
    assert_eq!(io_code(KVMIO, 0x41), KVM_CREATE_VCPU);
    assert_eq!(io_code(KVMIO, 0x80), KVM_RUN);
}

#[test]
fn payload_codes_match_encoding() {
    assert_eq!(iow_code(KVMIO, USER_MEMORY_REGION_BYTES, 0x46), KVM_SET_USER_MEMORY_REGION);
    assert_eq!(ior_code(KVMIO, REGS_BYTES, 0x81), KVM_GET_REGS);
    assert_eq!(iow_code(KVMIO, REGS_BYTES, 0x82), KVM_SET_REGS);
    assert_eq!(ior_code(KVMIO, SREGS_BYTES, 0x83), KVM_GET_SREGS);
    assert_eq!(iow_code(KVMIO, SREGS_BYTES, 0x84), KVM_SET_SREGS);
}

#[test]
fn command_codes_match_kernel_reference_values() {
    assert_eq!(KVM_GET_API_VERSION, 0xAE00);
    assert_eq!(KVM_CREATE_VM, 0xAE01);
    assert_eq!(KVM_GET_VCPU_MMAP_SIZE, 0xAE04);
    assert_eq!(KVM_CREATE_VCPU, 0xAE41);
    assert_eq!(KVM_SET_USER_MEMORY_REGION, 0x4020AE46);
    assert_eq!(KVM_RUN, 0xAE80);
    assert_eq!(KVM_GET_REGS, 0x8090AE81);
    assert_eq!(KVM_SET_REGS, 0x4090AE82);
    assert_eq!(KVM_GET_SREGS, 0x8138AE83);
    assert_eq!(KVM_SET_SREGS, 0x4138AE84);
}

#[test]
fn binding_defaults_are_zeroed() {
    let region = KvmUserspaceMemoryRegion::default();
    assert_eq!(region.slot, 0);
    assert_eq!(region.memory_size, 0);
    assert_eq!(region.userspace_addr, 0);
    let regs = KvmRegs::default();
    assert_eq!(regs.rax, 0);
    assert_eq!(regs.rip, 0);
    assert_eq!(regs.rflags, 0);
    let seg = KvmSegment::default();
    assert_eq!(seg.base, 0);
    assert_eq!(seg.limit, 0);
    let dt = KvmDtable::default();
    assert_eq!(dt.base, 0);
    let sregs = KvmSregs::default();
    assert_eq!(sregs.cs, KvmSegment::default());
    assert_eq!(sregs.cr0, 0);
    assert_eq!(sregs.interrupt_bitmap_3, 0);
}

#[test]
fn exit_reason_discriminants() {
    assert_eq!(KVM_EXIT_UNKNOWN, 0);
    assert_eq!(KVM_EXIT_IO, 2);
    assert_eq!(KVM_EXIT_HLT, 5);
    assert_eq!(KVM_EXIT_SHUTDOWN, 8);
    assert_eq!(KVM_EXIT_INTERNAL_ERROR, 17);
    assert_eq!(KVM_EXIT_IO_IN, 0);
    assert_eq!(KVM_EXIT_IO_OUT, 1);
}
