//! Typed constants and bit-exact command encoding for the kernel
//! virtualization ABI.
//!
//! The kernel facility is driven through numeric ioctl commands. Each command
//! word packs a direction, a payload size, the facility's type tag and a
//! command number into fixed bit fields. The named constants below are the
//! exact words the kernel expects; `lemma_command_codes` proves each one equal
//! to the documented encoding formula, so the literals cannot drift from the
//! scheme they came from.

use vstd::prelude::*;

verus! {

/// The single protocol version this core supports.
pub const KVM_API_VERSION: i32 = 12;

/// Facility type tag used by every command word of the virtualization ABI.
pub const KVMIO: u64 = 0xAE;

/// Direction field value: no payload.
pub const IOCTL_DIR_NONE: u64 = 0;
/// Direction field value: userspace writes the payload to the kernel.
pub const IOCTL_DIR_WRITE: u64 = 1;
/// Direction field value: userspace reads the payload from the kernel.
pub const IOCTL_DIR_READ: u64 = 2;

/// Byte size of the memory-region descriptor handed to the kernel.
pub const USER_MEMORY_REGION_BYTES: u64 = 32;
/// Byte size of the general-purpose register block.
pub const REGS_BYTES: u64 = 144;
/// Byte size of the special-register block.
pub const SREGS_BYTES: u64 = 312;

pub const KVM_GET_API_VERSION: u64 = 0xAE00;
pub const KVM_CREATE_VM: u64 = 0xAE01;
pub const KVM_GET_VCPU_MMAP_SIZE: u64 = 0xAE04;
pub const KVM_CREATE_VCPU: u64 = 0xAE41;
pub const KVM_SET_USER_MEMORY_REGION: u64 = 0x4020AE46;
pub const KVM_RUN: u64 = 0xAE80;
pub const KVM_GET_REGS: u64 = 0x8090AE81;
pub const KVM_SET_REGS: u64 = 0x4090AE82;
pub const KVM_GET_SREGS: u64 = 0x8138AE83;
pub const KVM_SET_SREGS: u64 = 0x4138AE84;

// Exit-reason discriminants reported in the shared run structure.
pub const KVM_EXIT_UNKNOWN: u32 = 0;
pub const KVM_EXIT_EXCEPTION: u32 = 1;
pub const KVM_EXIT_IO: u32 = 2;
pub const KVM_EXIT_HYPERCALL: u32 = 3;
pub const KVM_EXIT_DEBUG: u32 = 4;
pub const KVM_EXIT_HLT: u32 = 5;
pub const KVM_EXIT_MMIO: u32 = 6;
pub const KVM_EXIT_IRQ_WINDOW_OPEN: u32 = 7;
pub const KVM_EXIT_SHUTDOWN: u32 = 8;
pub const KVM_EXIT_FAIL_ENTRY: u32 = 9;
pub const KVM_EXIT_INTR: u32 = 10;
pub const KVM_EXIT_SET_TPR: u32 = 11;
pub const KVM_EXIT_TPR_ACCESS: u32 = 12;
pub const KVM_EXIT_S390_SIEIC: u32 = 13;
pub const KVM_EXIT_S390_RESET: u32 = 14;
pub const KVM_EXIT_DCR: u32 = 15;
pub const KVM_EXIT_NMI: u32 = 16;
pub const KVM_EXIT_INTERNAL_ERROR: u32 = 17;

/// I/O exit direction: the guest reads from the port.
pub const KVM_EXIT_IO_IN: u8 = 0;
/// I/O exit direction: the guest writes to the port.
pub const KVM_EXIT_IO_OUT: u8 = 1;

/// The documented command-word encoding: direction in bits 30.., payload size
/// in bits 16..30, facility type tag in bits 8..16, command number in bits 0..8.
pub open spec fn ioctl_code_spec(dir: u64, size: u64, ty: u64, nr: u64) -> u64 {
    (dir << 30) | (size << 16) | (ty << 8) | nr
}

/// Encodes a command word that carries no payload.
pub fn io_code(ty: u64, nr: u64) -> (r: u64)
    ensures
        r == ioctl_code_spec(IOCTL_DIR_NONE, 0, ty, nr),
{
    proof {
        assert((0u64 << 30) | (0u64 << 16) | (ty << 8) | nr == (ty << 8) | nr) by (bit_vector);
    }
    (ty << 8) | nr
}

/// Encodes a command word whose payload of `size` bytes is read from the kernel.
pub fn ior_code(ty: u64, size: u64, nr: u64) -> (r: u64)
    ensures
        r == ioctl_code_spec(IOCTL_DIR_READ, size, ty, nr),
{
    (2u64 << 30) | (size << 16) | (ty << 8) | nr
}

/// Encodes a command word whose payload of `size` bytes is written to the kernel.
pub fn iow_code(ty: u64, size: u64, nr: u64) -> (r: u64)
    ensures
        r == ioctl_code_spec(IOCTL_DIR_WRITE, size, ty, nr),
{
    (1u64 << 30) | (size << 16) | (ty << 8) | nr
}

/// Every named command word equals the documented encoding formula applied to
/// its direction, payload size, facility tag and command number.
pub proof fn lemma_command_codes()
    ensures
        KVM_GET_API_VERSION == ioctl_code_spec(IOCTL_DIR_NONE, 0, KVMIO, 0x00),
        KVM_CREATE_VM == ioctl_code_spec(IOCTL_DIR_NONE, 0, KVMIO, 0x01),
        KVM_GET_VCPU_MMAP_SIZE == ioctl_code_spec(IOCTL_DIR_NONE, 0, KVMIO, 0x04),
        KVM_CREATE_VCPU == ioctl_code_spec(IOCTL_DIR_NONE, 0, KVMIO, 0x41),
        KVM_SET_USER_MEMORY_REGION == ioctl_code_spec(
            IOCTL_DIR_WRITE, USER_MEMORY_REGION_BYTES, KVMIO, 0x46),
        KVM_RUN == ioctl_code_spec(IOCTL_DIR_NONE, 0, KVMIO, 0x80),
        KVM_GET_REGS == ioctl_code_spec(IOCTL_DIR_READ, REGS_BYTES, KVMIO, 0x81),
        KVM_SET_REGS == ioctl_code_spec(IOCTL_DIR_WRITE, REGS_BYTES, KVMIO, 0x82),
        KVM_GET_SREGS == ioctl_code_spec(IOCTL_DIR_READ, SREGS_BYTES, KVMIO, 0x83),
        KVM_SET_SREGS == ioctl_code_spec(IOCTL_DIR_WRITE, SREGS_BYTES, KVMIO, 0x84),
{
    assert(0xAE00u64 == (0u64 << 30) | (0u64 << 16) | (0xAEu64 << 8) | 0x00) by (bit_vector);
    assert(0xAE01u64 == (0u64 << 30) | (0u64 << 16) | (0xAEu64 << 8) | 0x01) by (bit_vector);
    assert(0xAE04u64 == (0u64 << 30) | (0u64 << 16) | (0xAEu64 << 8) | 0x04) by (bit_vector);
    assert(0xAE41u64 == (0u64 << 30) | (0u64 << 16) | (0xAEu64 << 8) | 0x41) by (bit_vector);
    assert(0x4020AE46u64 == (1u64 << 30) | (32u64 << 16) | (0xAEu64 << 8) | 0x46) by (bit_vector);
    assert(0xAE80u64 == (0u64 << 30) | (0u64 << 16) | (0xAEu64 << 8) | 0x80) by (bit_vector);
    assert(0x8090AE81u64 == (2u64 << 30) | (144u64 << 16) | (0xAEu64 << 8) | 0x81) by (bit_vector);
    assert(0x4090AE82u64 == (1u64 << 30) | (144u64 << 16) | (0xAEu64 << 8) | 0x82) by (bit_vector);
    assert(0x8138AE83u64 == (2u64 << 30) | (312u64 << 16) | (0xAEu64 << 8) | 0x83) by (bit_vector);
    assert(0x4138AE84u64 == (1u64 << 30) | (312u64 << 16) | (0xAEu64 << 8) | 0x84) by (bit_vector);
}

/// Guest-physical memory-region descriptor, laid out for the kernel as
/// slot u32, flags u32, guest_phys_addr u64, memory_size u64, userspace_addr
/// u64 — 32 bytes in all (`USER_MEMORY_REGION_BYTES`).
#[derive(Clone, Copy, PartialEq, Eq, Structural, Debug)]
pub struct KvmUserspaceMemoryRegion {
    pub slot: u32,
    pub flags: u32,
    pub guest_phys_addr: u64,
    pub memory_size: u64,
    pub userspace_addr: u64,
}

/// General-purpose register block: sixteen 64-bit registers, the instruction
/// pointer and the flags register, all u64, 144 bytes in all (`REGS_BYTES`).
#[derive(Clone, Copy, PartialEq, Eq, Structural, Debug)]
pub struct KvmRegs {
    pub rax: u64,
    pub rbx: u64,
    pub rcx: u64,
    pub rdx: u64,
    pub rsi: u64,
    pub rdi: u64,
    pub rsp: u64,
    pub rbp: u64,
    pub r8: u64,
    pub r9: u64,
    pub r10: u64,
    pub r11: u64,
    pub r12: u64,
    pub r13: u64,
    pub r14: u64,
    pub r15: u64,
    pub rip: u64,
    pub rflags: u64,
}

/// One segment descriptor of the special-register block.
#[derive(Clone, Copy, PartialEq, Eq, Structural, Debug)]
pub struct KvmSegment {
    pub base: u64,
    pub limit: u32,
    pub selector: u16,
    pub type_: u8,
    pub present: u8,
    pub dpl: u8,
    pub db: u8,
    pub s: u8,
    pub l: u8,
    pub g: u8,
    pub avl: u8,
    pub unusable: u8,
    pub padding: u8,
}

/// One descriptor-table register of the special-register block.
#[derive(Clone, Copy, PartialEq, Eq, Structural, Debug)]
pub struct KvmDtable {
    pub base: u64,
    pub limit: u16,
}

/// Special-register block: eight segment descriptors, two descriptor-table
/// registers, control registers, EFER, APIC base and the interrupt bitmap —
/// 312 bytes in the kernel layout (`SREGS_BYTES`).
#[derive(Clone, Copy, PartialEq, Eq, Structural, Debug)]
pub struct KvmSregs {
    pub cs: KvmSegment,
    pub ds: KvmSegment,
    pub es: KvmSegment,
    pub fs: KvmSegment,
    pub gs: KvmSegment,
    pub ss: KvmSegment,
    pub tr: KvmSegment,
    pub ldt: KvmSegment,
    pub gdt: KvmDtable,
    pub idt: KvmDtable,
    pub cr0: u64,
    pub cr2: u64,
    pub cr3: u64,
    pub cr4: u64,
    pub cr8: u64,
    pub efer: u64,
    pub apic_base: u64,
    pub interrupt_bitmap_0: u64,
    pub interrupt_bitmap_1: u64,
    pub interrupt_bitmap_2: u64,
    pub interrupt_bitmap_3: u64,
}

/// A memory-region descriptor with every field zero.
pub open spec fn region_zeroed() -> KvmUserspaceMemoryRegion {
    KvmUserspaceMemoryRegion {
        slot: 0,
        flags: 0,
        guest_phys_addr: 0,
        memory_size: 0,
        userspace_addr: 0,
    }
}

impl Default for KvmUserspaceMemoryRegion {
    fn default() -> (r: Self)
        ensures
            r == region_zeroed(),
    {
        KvmUserspaceMemoryRegion {
            slot: 0,
            flags: 0,
            guest_phys_addr: 0,
            memory_size: 0,
            userspace_addr: 0,
        }
    }
}

/// A register block with every register zero.
pub open spec fn regs_zeroed() -> KvmRegs {
    KvmRegs {
        rax: 0, rbx: 0, rcx: 0, rdx: 0, rsi: 0, rdi: 0, rsp: 0, rbp: 0,
        r8: 0, r9: 0, r10: 0, r11: 0, r12: 0, r13: 0, r14: 0, r15: 0,
        rip: 0, rflags: 0,
    }
}

impl Default for KvmRegs {
    fn default() -> (r: Self)
        ensures
            r == regs_zeroed(),
    {
        KvmRegs {
            rax: 0, rbx: 0, rcx: 0, rdx: 0, rsi: 0, rdi: 0, rsp: 0, rbp: 0,
            r8: 0, r9: 0, r10: 0, r11: 0, r12: 0, r13: 0, r14: 0, r15: 0,
            rip: 0, rflags: 0,
        }
    }
}

/// A segment descriptor with every field zero.
pub open spec fn segment_zeroed() -> KvmSegment {
    KvmSegment {
        base: 0, limit: 0, selector: 0, type_: 0, present: 0, dpl: 0, db: 0,
        s: 0, l: 0, g: 0, avl: 0, unusable: 0, padding: 0,
    }
}

impl Default for KvmSegment {
    fn default() -> (r: Self)
        ensures
            r == segment_zeroed(),
    {
        KvmSegment {
            base: 0, limit: 0, selector: 0, type_: 0, present: 0, dpl: 0, db: 0,
            s: 0, l: 0, g: 0, avl: 0, unusable: 0, padding: 0,
        }
    }
}

/// A descriptor-table register with every field zero.
pub open spec fn dtable_zeroed() -> KvmDtable {
    KvmDtable { base: 0, limit: 0 }
}

impl Default for KvmDtable {
    fn default() -> (r: Self)
        ensures
            r == dtable_zeroed(),
    {
        KvmDtable { base: 0, limit: 0 }
    }
}

/// A special-register block with every field zero.
pub open spec fn sregs_zeroed() -> KvmSregs {
    KvmSregs {
        cs: segment_zeroed(), ds: segment_zeroed(), es: segment_zeroed(),
        fs: segment_zeroed(), gs: segment_zeroed(), ss: segment_zeroed(),
        tr: segment_zeroed(), ldt: segment_zeroed(),
        gdt: dtable_zeroed(), idt: dtable_zeroed(),
        cr0: 0, cr2: 0, cr3: 0, cr4: 0, cr8: 0, efer: 0, apic_base: 0,
        interrupt_bitmap_0: 0, interrupt_bitmap_1: 0,
        interrupt_bitmap_2: 0, interrupt_bitmap_3: 0,
    }
}

impl Default for KvmSregs {
    fn default() -> (r: Self)
        ensures
            r == sregs_zeroed(),
    {
        KvmSregs {
            cs: KvmSegment::default(), ds: KvmSegment::default(),
            es: KvmSegment::default(), fs: KvmSegment::default(),
            gs: KvmSegment::default(), ss: KvmSegment::default(),
            tr: KvmSegment::default(), ldt: KvmSegment::default(),
            gdt: KvmDtable::default(), idt: KvmDtable::default(),
            cr0: 0, cr2: 0, cr3: 0, cr4: 0, cr8: 0, efer: 0, apic_base: 0,
            interrupt_bitmap_0: 0, interrupt_bitmap_1: 0,
            interrupt_bitmap_2: 0, interrupt_bitmap_3: 0,
        }
    }
}

} // verus!
