//! Decode of the shared run/exit structure's tagged payload.
//!
//! After each run, the kernel reports why the guest trapped: a discriminant
//! (`exit_reason`) selects which member of a fixed-size union holds the
//! details. The unverified front end snapshots the discriminant and the raw
//! union bytes; this module turns that snapshot into an owned, safe
//! [`ExitEvent`] value. The byte offsets and widths used here are the kernel's
//! documented layout, stated field by field in the contracts.

use vstd::prelude::*;
use crate::bindings::{
    KVM_EXIT_UNKNOWN, KVM_EXIT_IO, KVM_EXIT_HLT, KVM_EXIT_SHUTDOWN, KVM_EXIT_FAIL_ENTRY,
    KVM_EXIT_INTERNAL_ERROR,
};

verus! {

/// Smallest union snapshot this module accepts: the internal-error member is
/// the widest one read here, 8 bytes of header plus sixteen 8-byte data words.
pub const EXIT_PAYLOAD_MIN_BYTES: usize = 136;

/// The 16-bit little-endian value stored at byte offset `i`.
pub open spec fn le16_spec(b: Seq<u8>, i: int) -> u16 {
    (b[i] as int + b[i + 1] as int * 0x100) as u16
}

/// The 32-bit little-endian value stored at byte offset `i`.
pub open spec fn le32_spec(b: Seq<u8>, i: int) -> u32 {
    (b[i] as int
        + b[i + 1] as int * 0x100
        + b[i + 2] as int * 0x10000
        + b[i + 3] as int * 0x1000000) as u32
}

/// The 64-bit little-endian value stored at byte offset `i`.
pub open spec fn le64_spec(b: Seq<u8>, i: int) -> u64 {
    (b[i] as int
        + b[i + 1] as int * 0x100
        + b[i + 2] as int * 0x10000
        + b[i + 3] as int * 0x1000000
        + b[i + 4] as int * 0x100000000
        + b[i + 5] as int * 0x10000000000
        + b[i + 6] as int * 0x1000000000000
        + b[i + 7] as int * 0x100000000000000) as u64
}

fn le16_at(b: &Vec<u8>, i: usize) -> (r: u16)
    requires
        i + 2 <= b@.len(),
    ensures
        r == le16_spec(b@, i as int),
{
    // The length is a machine word, so the index sums below cannot overflow.
    let _n: usize = b.len();
    (b[i] as u16) + (b[i + 1] as u16) * 0x100
}

fn le32_at(b: &Vec<u8>, i: usize) -> (r: u32)
    requires
        i + 4 <= b@.len(),
    ensures
        r == le32_spec(b@, i as int),
{
    // The length is a machine word, so the index sums below cannot overflow.
    let _n: usize = b.len();
    (b[i] as u32)
        + (b[i + 1] as u32) * 0x100
        + (b[i + 2] as u32) * 0x10000
        + (b[i + 3] as u32) * 0x1000000
}

fn le64_at(b: &Vec<u8>, i: usize) -> (r: u64)
    requires
        i + 8 <= b@.len(),
    ensures
        r == le64_spec(b@, i as int),
{
    // The length is a machine word, so the index sums below cannot overflow.
    let _n: usize = b.len();
    (b[i] as u64)
        + (b[i + 1] as u64) * 0x100
        + (b[i + 2] as u64) * 0x10000
        + (b[i + 3] as u64) * 0x1000000
        + (b[i + 4] as u64) * 0x100000000
        + (b[i + 5] as u64) * 0x10000000000
        + (b[i + 6] as u64) * 0x1000000000000
        + (b[i + 7] as u64) * 0x100000000000000
}

/// Union member reported for an unrecognized hardware exit.
#[derive(Clone, Copy, PartialEq, Eq, Structural, Debug)]
pub struct KvmRunHw {
    pub hardware_exit_reason: u64,
}

/// Union member reported when guest entry failed.
#[derive(Clone, Copy, PartialEq, Eq, Structural, Debug)]
pub struct KvmRunFailEntry {
    pub hardware_entry_failure_reason: u64,
}

/// Union member reported for a port I/O exit: direction u8, size u8,
/// port u16, count u32, data_offset u64, in that order.
#[derive(Clone, Copy, PartialEq, Eq, Structural, Debug)]
pub struct KvmRunIo {
    pub direction: u8,
    pub size: u8,
    pub port: u16,
    pub count: u32,
    pub data_offset: u64,
}

/// Union member reported for an internal facility error: suberror u32,
/// ndata u32, then sixteen auxiliary 64-bit data words.
#[derive(Clone, PartialEq, Debug)]
pub struct KvmRunInternal {
    pub suberror: u32,
    pub ndata: u32,
    pub data: Vec<u64>,
}

impl KvmRunHw {
    /// Reads the hardware-exit member from the union bytes.
    pub fn parse(b: &Vec<u8>) -> (r: KvmRunHw)
        requires
            b@.len() >= 8,
        ensures
            r.hardware_exit_reason == le64_spec(b@, 0),
    {
        KvmRunHw { hardware_exit_reason: le64_at(b, 0) }
    }
}

impl KvmRunFailEntry {
    /// Reads the entry-failure member from the union bytes.
    pub fn parse(b: &Vec<u8>) -> (r: KvmRunFailEntry)
        requires
            b@.len() >= 8,
        ensures
            r.hardware_entry_failure_reason == le64_spec(b@, 0),
    {
        KvmRunFailEntry { hardware_entry_failure_reason: le64_at(b, 0) }
    }
}

impl KvmRunIo {
    /// Reads the port-I/O member from the union bytes.
    pub fn parse(b: &Vec<u8>) -> (r: KvmRunIo)
        requires
            b@.len() >= 16,
        ensures
            r.direction == b@[0],
            r.size == b@[1],
            r.port == le16_spec(b@, 2),
            r.count == le32_spec(b@, 4),
            r.data_offset == le64_spec(b@, 8),
    {
        KvmRunIo {
            direction: b[0],
            size: b[1],
            port: le16_at(b, 2),
            count: le32_at(b, 4),
            data_offset: le64_at(b, 8),
        }
    }
}

/// The sixteen auxiliary data words of the internal-error member, each a
/// 64-bit little-endian value starting at byte offset 8.
pub open spec fn internal_data_spec(b: Seq<u8>) -> Seq<u64> {
    Seq::new(16, |k: int| le64_spec(b, 8 + 8 * k))
}

impl KvmRunInternal {
    /// Reads the internal-error member from the union bytes.
    pub fn parse(b: &Vec<u8>) -> (r: KvmRunInternal)
        requires
            b@.len() >= EXIT_PAYLOAD_MIN_BYTES,
        ensures
            r.suberror == le32_spec(b@, 0),
            r.ndata == le32_spec(b@, 4),
            r.data@ == internal_data_spec(b@),
    {
        let mut data: Vec<u64> = Vec::new();
        let mut k: usize = 0;
        while k < 16
            invariant
                k <= 16,
                b@.len() >= EXIT_PAYLOAD_MIN_BYTES,
                data@.len() == k,
                forall|j: int| 0 <= j < k ==> data@[j] == le64_spec(b@, 8 + 8 * j),
            decreases 16 - k,
        {
            data.push(le64_at(b, 8 + 8 * k));
            k = k + 1;
        }
        proof {
            assert(data@ =~= internal_data_spec(b@));
        }
        KvmRunInternal { suberror: le32_at(b, 0), ndata: le32_at(b, 4), data }
    }
}

/// Owned snapshot of one exit observation, decoded from the discriminant and
/// the raw union bytes.
#[derive(Clone, PartialEq, Debug)]
pub enum ExitEvent {
    /// The guest executed a halt instruction: normal completion.
    Hlt,
    /// The guest touched an I/O port; no device backs any port in this core.
    Io { direction: u8, size: u8, port: u16, count: u32 },
    /// The guest triggered a shutdown condition.
    Shutdown,
    /// The hardware refused to enter the guest.
    FailEntry { reason: u64 },
    /// The facility reported an internal error with auxiliary data words.
    InternalError { suberror: u32, ndata: u32, data: Vec<u64> },
    /// An exit the facility itself could not attribute (discriminant zero).
    HardwareExit { reason: u64 },
    /// A discriminant this core does not interpret.
    Unknown { raw_reason: u32 },
}

/// Exactly which event a discriminant and union bytes decode to: the variant
/// is selected by the discriminant and every field equals the value stored at
/// its documented offset.
pub open spec fn decodes_to(exit_reason: u32, b: Seq<u8>, e: ExitEvent) -> bool {
    match e {
        ExitEvent::Hlt => exit_reason == KVM_EXIT_HLT,
        ExitEvent::Shutdown => exit_reason == KVM_EXIT_SHUTDOWN,
        ExitEvent::Io { direction, size, port, count } => {
            &&& exit_reason == KVM_EXIT_IO
            &&& direction == b[0]
            &&& size == b[1]
            &&& port == le16_spec(b, 2)
            &&& count == le32_spec(b, 4)
        },
        ExitEvent::FailEntry { reason } => {
            &&& exit_reason == KVM_EXIT_FAIL_ENTRY
            &&& reason == le64_spec(b, 0)
        },
        ExitEvent::InternalError { suberror, ndata, data } => {
            &&& exit_reason == KVM_EXIT_INTERNAL_ERROR
            &&& suberror == le32_spec(b, 0)
            &&& ndata == le32_spec(b, 4)
            &&& data@ == internal_data_spec(b)
        },
        ExitEvent::HardwareExit { reason } => {
            &&& exit_reason == KVM_EXIT_UNKNOWN
            &&& reason == le64_spec(b, 0)
        },
        ExitEvent::Unknown { raw_reason } => {
            &&& raw_reason == exit_reason
            &&& exit_reason != KVM_EXIT_UNKNOWN
            &&& exit_reason != KVM_EXIT_IO
            &&& exit_reason != KVM_EXIT_HLT
            &&& exit_reason != KVM_EXIT_SHUTDOWN
            &&& exit_reason != KVM_EXIT_FAIL_ENTRY
            &&& exit_reason != KVM_EXIT_INTERNAL_ERROR
        },
    }
}

/// Decodes one discriminant and union-byte snapshot into the event it states.
pub fn decode_exit(exit_reason: u32, payload: &Vec<u8>) -> (e: ExitEvent)
    requires
        payload@.len() >= EXIT_PAYLOAD_MIN_BYTES,
    ensures
        decodes_to(exit_reason, payload@, e),
{
    if exit_reason == KVM_EXIT_HLT {
        ExitEvent::Hlt
    } else if exit_reason == KVM_EXIT_SHUTDOWN {
        ExitEvent::Shutdown
    } else if exit_reason == KVM_EXIT_IO {
        let io = KvmRunIo::parse(payload);
        ExitEvent::Io { direction: io.direction, size: io.size, port: io.port, count: io.count }
    } else if exit_reason == KVM_EXIT_FAIL_ENTRY {
        let fe = KvmRunFailEntry::parse(payload);
        ExitEvent::FailEntry { reason: fe.hardware_entry_failure_reason }
    } else if exit_reason == KVM_EXIT_INTERNAL_ERROR {
        let internal = KvmRunInternal::parse(payload);
        ExitEvent::InternalError {
            suberror: internal.suberror,
            ndata: internal.ndata,
            data: internal.data,
        }
    } else if exit_reason == KVM_EXIT_UNKNOWN {
        let hw = KvmRunHw::parse(payload);
        ExitEvent::HardwareExit { reason: hw.hardware_exit_reason }
    } else {
        ExitEvent::Unknown { raw_reason: exit_reason }
    }
}

/// Snapshot of the shared run/exit structure's header, with the raw union
/// bytes that follow it. The header fields stand at their kernel offsets
/// only in the unverified mapping; here they are plain values.
#[derive(Clone, PartialEq, Debug)]
pub struct KvmRun {
    pub request_interrupt_window: u8,
    pub immediate_exit: u8,
    pub exit_reason: u32,
    pub ready_for_interrupt_injection: u8,
    pub if_flag: u8,
    pub flags: u16,
    pub cr8: u64,
    pub apic_base: u64,
    pub exit_data: Vec<u8>,
}

/// The decoded, safe view of the control page: holds the latest snapshot and
/// exposes it as an [`ExitEvent`]. The mapping itself is owned by the
/// unverified front end, which must snapshot the page after each run and
/// before the next one, since the kernel reuses the union storage.
pub struct VcpuRun {
    run: KvmRun,
}

impl VcpuRun {
    /// The snapshot holds enough union bytes for every member read here.
    pub closed spec fn wf(&self) -> bool {
        self.run.exit_data@.len() >= EXIT_PAYLOAD_MIN_BYTES
    }

    /// The discriminant of the held snapshot.
    pub closed spec fn exit_reason_spec(&self) -> u32 {
        self.run.exit_reason
    }

    /// The union bytes of the held snapshot.
    pub closed spec fn payload_spec(&self) -> Seq<u8> {
        self.run.exit_data@
    }

    pub fn new(run: KvmRun) -> (r: VcpuRun)
        requires
            run.exit_data@.len() >= EXIT_PAYLOAD_MIN_BYTES,
        ensures
            r.wf(),
            r.exit_reason_spec() == run.exit_reason,
            r.payload_spec() == run.exit_data@,
    {
        VcpuRun { run }
    }

    /// The discriminant reported by the latest snapshot.
    pub fn exit_reason(&self) -> (r: u32)
        ensures
            r == self.exit_reason_spec(),
    {
        self.run.exit_reason
    }

    /// Decodes the held snapshot into an owned event.
    pub fn current_exit(&self) -> (e: ExitEvent)
        requires
            self.wf(),
        ensures
            decodes_to(self.exit_reason_spec(), self.payload_spec(), e),
    {
        decode_exit(self.run.exit_reason, &self.run.exit_data)
    }
}

} // verus!
