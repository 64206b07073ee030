//! Handle ownership and the decisions of the control plane.
//!
//! The facility, each virtual machine and each virtual CPU are reachable only
//! through an OS descriptor. The raw acquisition calls are made by the
//! unverified front end; this module owns the resulting descriptors, decides
//! from each raw outcome whether the step succeeded and which error it is
//! otherwise, enforces the memory-region invariant (unique slots, disjoint
//! guest-physical ranges), and plans teardown so that every held resource is
//! released exactly once, in a safe order.

use vstd::prelude::*;
use crate::bindings::{KVM_API_VERSION, KvmUserspaceMemoryRegion, KvmRegs, KvmSregs};

verus! {

/// Everything that can go wrong in the control plane, one variant per
/// failing step.
#[derive(Clone, Copy, PartialEq, Eq, Structural, Debug)]
pub enum VmmError {
    /// The facility device could not be opened.
    OpenFailure,
    /// The facility speaks a protocol version other than the supported one.
    VersionMismatch { got: i32 },
    /// The facility refused to create a virtual machine.
    VmCreationFailure,
    /// Guest memory could not be allocated.
    AllocationFailure,
    /// A guest-physical memory region was refused.
    RegionRejected,
    /// The virtual machine refused to create a virtual CPU.
    VcpuCreationFailure,
    /// Register state could not be read or written.
    RegisterAccessFailure,
    /// The shared run/exit structure could not be mapped.
    MapFailure,
    /// The control-page size query failed.
    QueryFailure,
    /// The blocking run operation reported an error.
    RunFailure,
}

/// Owner of the facility-wide descriptor. A value of this type exists only
/// after the protocol version has been validated, so nothing derived from it
/// (a virtual machine, a virtual CPU) can exist under a mismatched version.
pub struct Kvm {
    fd: i32,
}

impl Kvm {
    /// The owned facility descriptor.
    pub closed spec fn fd_spec(&self) -> i32 {
        self.fd
    }

    pub open spec fn wf(&self) -> bool {
        self.fd_spec() >= 0
    }

    /// Judges the outcome of opening the facility and querying its protocol
    /// version: a negative descriptor failed to open, a version other than
    /// the single supported constant is a mismatch, and only a validated
    /// descriptor becomes an owned handle. On an error the caller still owns
    /// the raw descriptor (if it opened at all) and must close it.
    pub fn new(raw_fd: i32, api_version: i32) -> (r: Result<Kvm, VmmError>)
        ensures
            raw_fd < 0 ==> r == Err::<Kvm, VmmError>(VmmError::OpenFailure),
            raw_fd >= 0 && api_version != KVM_API_VERSION
                ==> r == Err::<Kvm, VmmError>(VmmError::VersionMismatch { got: api_version }),
            raw_fd >= 0 && api_version == KVM_API_VERSION
                ==> (r matches Ok(k) && k.wf() && k.fd_spec() == raw_fd),
    {
        if raw_fd < 0 {
            Err(VmmError::OpenFailure)
        } else if api_version != KVM_API_VERSION {
            Err(VmmError::VersionMismatch { got: api_version })
        } else {
            Ok(Kvm { fd: raw_fd })
        }
    }

    pub fn fd(&self) -> (r: i32)
        ensures
            r == self.fd_spec(),
    {
        self.fd
    }

    /// Judges the outcome of the VM-creation call: a non-negative descriptor
    /// becomes an owned virtual machine with no memory regions yet.
    pub fn create_vm(&self, raw_vm_fd: i32) -> (r: Result<Vm, VmmError>)
        ensures
            raw_vm_fd < 0 ==> r == Err::<Vm, VmmError>(VmmError::VmCreationFailure),
            raw_vm_fd >= 0
                ==> (r matches Ok(vm) && vm.wf() && vm.fd_spec() == raw_vm_fd
                    && vm.slots_spec() == Seq::<KvmUserspaceMemoryRegion>::empty()),
    {
        if raw_vm_fd < 0 {
            Err(VmmError::VmCreationFailure)
        } else {
            Ok(Vm { fd: raw_vm_fd, slots: Vec::new() })
        }
    }

    /// Judges the outcome of the control-page size query. The reported size
    /// must be used, not assumed, when mapping any control page.
    pub fn get_vcpu_mmap_size(&self, raw_size: i32) -> (r: Result<usize, VmmError>)
        ensures
            raw_size < 0 ==> r == Err::<usize, VmmError>(VmmError::QueryFailure),
            raw_size >= 0 ==> r == Ok::<usize, VmmError>(raw_size as usize),
    {
        if raw_size < 0 {
            Err(VmmError::QueryFailure)
        } else {
            Ok(raw_size as usize)
        }
    }

    /// Gives up ownership and hands the descriptor back for its single close.
    pub fn into_fd(self) -> (r: i32)
        ensures
            r == self.fd_spec(),
    {
        self.fd
    }
}

/// Two guest-physical regions either sit in different address ranges or are
/// the same registration; overlap is measured over the mathematical integers
/// so that ranges ending at the top of the address space carry no overflow.
pub open spec fn regions_disjoint(a: KvmUserspaceMemoryRegion, b: KvmUserspaceMemoryRegion) -> bool {
    a.guest_phys_addr + a.memory_size <= b.guest_phys_addr
        || b.guest_phys_addr + b.memory_size <= a.guest_phys_addr
}

/// A registrable region: non-empty, and its guest-physical range does not
/// wrap around the 64-bit address space.
pub open spec fn region_valid(r: KvmUserspaceMemoryRegion) -> bool {
    r.memory_size > 0 && r.guest_phys_addr + r.memory_size <= 0x1_0000_0000_0000_0000
}

/// A new region may join an existing one only under a fresh slot index and a
/// disjoint guest-physical range.
pub open spec fn region_compatible(a: KvmUserspaceMemoryRegion, b: KvmUserspaceMemoryRegion) -> bool {
    a.slot != b.slot && regions_disjoint(a, b)
}

/// Owner of one virtual machine's descriptor and the registry of its
/// guest-physical memory regions.
pub struct Vm {
    fd: i32,
    slots: Vec<KvmUserspaceMemoryRegion>,
}

impl Vm {
    /// The owned virtual-machine descriptor.
    pub closed spec fn fd_spec(&self) -> i32 {
        self.fd
    }

    /// The regions registered so far, in registration order.
    pub closed spec fn slots_spec(&self) -> Seq<KvmUserspaceMemoryRegion> {
        self.slots@
    }

    /// Every registered region is valid, slot indices are unique, and
    /// guest-physical ranges are pairwise disjoint.
    pub open spec fn wf(&self) -> bool {
        &&& self.fd_spec() >= 0
        &&& forall|i: int| 0 <= i < self.slots_spec().len()
                ==> region_valid(#[trigger] self.slots_spec()[i])
        &&& forall|i: int, j: int|
                0 <= i < j < self.slots_spec().len()
                ==> region_compatible(#[trigger] self.slots_spec()[i],
                        #[trigger] self.slots_spec()[j])
    }

    pub fn fd(&self) -> (r: i32)
        ensures
            r == self.fd_spec(),
    {
        self.fd
    }

    /// Registers a guest-physical memory region. An empty or wrapping range,
    /// a reused slot index, or an overlap with a registered region is
    /// rejected and changes nothing; exactly the compatible regions are
    /// accepted and recorded.
    pub fn set_user_memory_region(&mut self, region: &KvmUserspaceMemoryRegion)
        -> (r: Result<(), VmmError>)
        requires
            old(self).wf(),
        ensures
            final(self).wf(),
            final(self).fd_spec() == old(self).fd_spec(),
            ({
                let accept = region_valid(*region)
                    && forall|i: int| 0 <= i < old(self).slots_spec().len()
                        ==> region_compatible(#[trigger] old(self).slots_spec()[i], *region);
                if accept {
                    r == Ok::<(), VmmError>(())
                        && final(self).slots_spec() == old(self).slots_spec().push(*region)
                } else {
                    r == Err::<(), VmmError>(VmmError::RegionRejected)
                        && final(self).slots_spec() == old(self).slots_spec()
                }
            }),
    {
        if region.memory_size == 0 {
            return Err(VmmError::RegionRejected);
        }
        if region.memory_size - 1 > u64::MAX - region.guest_phys_addr {
            return Err(VmmError::RegionRejected);
        }
        proof {
            assert(region_valid(*region));
        }
        let n: usize = self.slots.len();
        let mut i: usize = 0;
        while i < n
            invariant
                old(self).wf(),
                n == self.slots@.len(),
                i <= n,
                *self == *old(self),
                self.slots_spec() == old(self).slots_spec(),
                region_valid(*region),
                forall|k: int| 0 <= k < i
                    ==> region_compatible(#[trigger] self.slots_spec()[k], *region),
            decreases n - i,
        {
            proof {
                assert(region_valid(self.slots_spec()[i as int]));
            }
            let existing = &self.slots[i];
            if existing.slot == region.slot {
                proof {
                    assert(!region_compatible(old(self).slots_spec()[i as int], *region));
                }
                return Err(VmmError::RegionRejected);
            }
            let existing_last = existing.guest_phys_addr + (existing.memory_size - 1);
            let region_last = region.guest_phys_addr + (region.memory_size - 1);
            if !(existing_last < region.guest_phys_addr || region_last < existing.guest_phys_addr) {
                proof {
                    assert(!region_compatible(old(self).slots_spec()[i as int], *region));
                }
                return Err(VmmError::RegionRejected);
            }
            i = i + 1;
        }
        self.slots.push(*region);
        proof {
            assert(self.slots_spec() == old(self).slots_spec().push(*region));
            assert forall|a: int, b: int|
                0 <= a < b < self.slots_spec().len()
                implies region_compatible(#[trigger] self.slots_spec()[a],
                    #[trigger] self.slots_spec()[b]) by {
                if b == self.slots_spec().len() - 1 {
                    assert(self.slots_spec()[a] == old(self).slots_spec()[a]);
                } else {
                    assert(old(self).wf());
                }
            }
        }
        Ok(())
    }

    /// Judges the outcome of the vCPU-creation call: a non-negative
    /// descriptor becomes an owned virtual CPU.
    pub fn create_vcpu(&self, id: i32, raw_vcpu_fd: i32) -> (r: Result<Vcpu, VmmError>)
        ensures
            raw_vcpu_fd < 0 ==> r == Err::<Vcpu, VmmError>(VmmError::VcpuCreationFailure),
            raw_vcpu_fd >= 0
                ==> (r matches Ok(v) && v.wf() && v.fd_spec() == raw_vcpu_fd
                    && v.id_spec() == id),
    {
        if raw_vcpu_fd < 0 {
            Err(VmmError::VcpuCreationFailure)
        } else {
            Ok(Vcpu { fd: raw_vcpu_fd, id })
        }
    }

    /// Gives up ownership and hands the descriptor back for its single close.
    pub fn into_fd(self) -> (r: i32)
        ensures
            r == self.fd_spec(),
    {
        self.fd
    }
}

/// Owner of one virtual CPU's descriptor.
pub struct Vcpu {
    fd: i32,
    id: i32,
}

impl Vcpu {
    /// The owned vCPU descriptor.
    pub closed spec fn fd_spec(&self) -> i32 {
        self.fd
    }

    /// The logical CPU index this vCPU was created under.
    pub closed spec fn id_spec(&self) -> i32 {
        self.id
    }

    pub open spec fn wf(&self) -> bool {
        self.fd_spec() >= 0
    }

    pub fn fd(&self) -> (r: i32)
        ensures
            r == self.fd_spec(),
    {
        self.fd
    }

    /// Judges the outcome of reading the general registers: the block the
    /// kernel filled is handed through only when the call succeeded.
    pub fn get_regs(&self, raw_ret: i32, regs: KvmRegs) -> (r: Result<KvmRegs, VmmError>)
        ensures
            raw_ret < 0 ==> r == Err::<KvmRegs, VmmError>(VmmError::RegisterAccessFailure),
            raw_ret >= 0 ==> r == Ok::<KvmRegs, VmmError>(regs),
    {
        if raw_ret < 0 {
            Err(VmmError::RegisterAccessFailure)
        } else {
            Ok(regs)
        }
    }

    /// Judges the outcome of writing the general registers.
    pub fn set_regs(&self, raw_ret: i32) -> (r: Result<(), VmmError>)
        ensures
            raw_ret < 0 ==> r == Err::<(), VmmError>(VmmError::RegisterAccessFailure),
            raw_ret >= 0 ==> r == Ok::<(), VmmError>(()),
    {
        if raw_ret < 0 {
            Err(VmmError::RegisterAccessFailure)
        } else {
            Ok(())
        }
    }

    /// Judges the outcome of reading the special registers.
    pub fn get_sregs(&self, raw_ret: i32, sregs: KvmSregs) -> (r: Result<KvmSregs, VmmError>)
        ensures
            raw_ret < 0 ==> r == Err::<KvmSregs, VmmError>(VmmError::RegisterAccessFailure),
            raw_ret >= 0 ==> r == Ok::<KvmSregs, VmmError>(sregs),
    {
        if raw_ret < 0 {
            Err(VmmError::RegisterAccessFailure)
        } else {
            Ok(sregs)
        }
    }

    /// Judges the outcome of writing the special registers.
    pub fn set_sregs(&self, raw_ret: i32) -> (r: Result<(), VmmError>)
        ensures
            raw_ret < 0 ==> r == Err::<(), VmmError>(VmmError::RegisterAccessFailure),
            raw_ret >= 0 ==> r == Ok::<(), VmmError>(()),
    {
        if raw_ret < 0 {
            Err(VmmError::RegisterAccessFailure)
        } else {
            Ok(())
        }
    }

    /// Judges the outcome of the blocking run operation. A failed run leaves
    /// machine state unspecified and must not be retried.
    pub fn run(&self, raw_ret: i32) -> (r: Result<(), VmmError>)
        ensures
            raw_ret < 0 ==> r == Err::<(), VmmError>(VmmError::RunFailure),
            raw_ret >= 0 ==> r == Ok::<(), VmmError>(()),
    {
        if raw_ret < 0 {
            Err(VmmError::RunFailure)
        } else {
            Ok(())
        }
    }

    /// Judges the outcome of mapping the control page: the front end reports
    /// the mapping's base address, or nothing when the mapping failed.
    pub fn map_run(&self, mapped_at: Option<usize>) -> (r: Result<usize, VmmError>)
        ensures
            mapped_at is None ==> r == Err::<usize, VmmError>(VmmError::MapFailure),
            mapped_at matches Some(addr) ==> r == Ok::<usize, VmmError>(addr),
    {
        match mapped_at {
            None => Err(VmmError::MapFailure),
            Some(addr) => Ok(addr),
        }
    }

    /// Gives up ownership and hands the descriptor back for its single close.
    pub fn into_fd(self) -> (r: i32)
        ensures
            r == self.fd_spec(),
    {
        self.fd
    }
}

/// One deterministic release step of teardown.
#[derive(Clone, Copy, PartialEq, Eq, Structural, Debug)]
pub enum ReleaseAction {
    /// Unmap the shared run/exit structure.
    UnmapControlPage,
    /// Close the vCPU descriptor.
    CloseVcpu,
    /// Close the virtual-machine descriptor.
    CloseVm,
    /// Unmap the guest memory block.
    UnmapGuestMemory,
    /// Close the facility descriptor.
    CloseSubsystem,
}

/// Which resources a run of the control plane still holds when it ends,
/// on any exit path, early setup failures included.
#[derive(Clone, Copy, PartialEq, Eq, Structural, Debug)]
pub struct HeldResources {
    pub control_page: bool,
    pub vcpu: bool,
    pub vm: bool,
    pub guest_memory: bool,
    pub subsystem: bool,
}

/// Whether a release action's resource is held.
pub open spec fn action_held(h: HeldResources, a: ReleaseAction) -> bool {
    match a {
        ReleaseAction::UnmapControlPage => h.control_page,
        ReleaseAction::CloseVcpu => h.vcpu,
        ReleaseAction::CloseVm => h.vm,
        ReleaseAction::UnmapGuestMemory => h.guest_memory,
        ReleaseAction::CloseSubsystem => h.subsystem,
    }
}

/// Teardown order: the control page goes before its vCPU, the vCPU before
/// its VM, the VM before the guest memory it references, and the facility
/// last of all.
pub open spec fn action_rank(a: ReleaseAction) -> int {
    match a {
        ReleaseAction::UnmapControlPage => 0,
        ReleaseAction::CloseVcpu => 1,
        ReleaseAction::CloseVm => 2,
        ReleaseAction::UnmapGuestMemory => 3,
        ReleaseAction::CloseSubsystem => 4,
    }
}

/// Plans teardown: one entry per resource, in strictly increasing rank
/// order (rank `k` stands at index `k`, so no resource is named twice),
/// each marked with whether it is held. Performing exactly the held entries
/// in order releases every acquired resource exactly once — the control
/// page before its vCPU closes, the vCPU before its VM, and the guest
/// memory only after the VM that references it — and a double release has
/// no entry to come from.
pub fn release_plan(h: &HeldResources) -> (plan: Vec<(ReleaseAction, bool)>)
    ensures
        plan@.len() == 5,
        plan@[0] == (ReleaseAction::UnmapControlPage, h.control_page),
        plan@[1] == (ReleaseAction::CloseVcpu, h.vcpu),
        plan@[2] == (ReleaseAction::CloseVm, h.vm),
        plan@[3] == (ReleaseAction::UnmapGuestMemory, h.guest_memory),
        plan@[4] == (ReleaseAction::CloseSubsystem, h.subsystem),
        forall|k: int| 0 <= k < 5 ==> action_rank(#[trigger] plan@[k].0) == k,
        forall|k: int| 0 <= k < 5 ==> (#[trigger] plan@[k].1) == action_held(*h, plan@[k].0),
{
    let mut plan: Vec<(ReleaseAction, bool)> = Vec::new();
    plan.push((ReleaseAction::UnmapControlPage, h.control_page));
    plan.push((ReleaseAction::CloseVcpu, h.vcpu));
    plan.push((ReleaseAction::CloseVm, h.vm));
    plan.push((ReleaseAction::UnmapGuestMemory, h.guest_memory));
    plan.push((ReleaseAction::CloseSubsystem, h.subsystem));
    plan
}

} // verus!
