use kvm_core::bindings::{
    KVM_EXIT_FAIL_ENTRY, KVM_EXIT_HLT, KVM_EXIT_INTERNAL_ERROR, KVM_EXIT_IO, KVM_EXIT_IO_OUT,
    KVM_EXIT_MMIO, KVM_EXIT_SHUTDOWN, KVM_EXIT_UNKNOWN,
};
use kvm_core::exit::{
    decode_exit, ExitEvent, KvmRun, KvmRunFailEntry, KvmRunHw, KvmRunInternal, KvmRunIo, VcpuRun,
    EXIT_PAYLOAD_MIN_BYTES,
};

fn payload(front: &[u8]) -> Vec<u8> {
    let mut b = vec![0u8; 256];
    b[..front.len()].copy_from_slice(front);
    b
}

#[test]
fn payload_floor_is_internal_error_width() {
    assert_eq!(EXIT_PAYLOAD_MIN_BYTES, 136);
}

#[test]
fn decode_hlt() {
    let b = payload(&[0xff; 16]);
    assert_eq!(decode_exit(KVM_EXIT_HLT, &b), ExitEvent::Hlt);
}

#[test]
fn decode_shutdown() {
    let b = payload(&[]);
    assert_eq!(decode_exit(KVM_EXIT_SHUTDOWN, &b), ExitEvent::Shutdown);
}

#[test]
fn decode_io_out_on_port() {
    // direction, size, port lo, port hi, count (4 bytes le)
    let b = payload(&[KVM_EXIT_IO_OUT, 1, 0x00, 0x8a, 0x01, 0x00, 0x00, 0x00]);
    assert_eq!(
        decode_exit(KVM_EXIT_IO, &b),
        ExitEvent::Io { direction: KVM_EXIT_IO_OUT, size: 1, port: 0x8a00, count: 1 }
    );
}

#[test]
fn decode_fail_entry_reason_little_endian() {
    let b = payload(&[0xef, 0xbe, 0xad, 0xde, 0x78, 0x56, 0x34, 0x12]);
    assert_eq!(
        decode_exit(KVM_EXIT_FAIL_ENTRY, &b),
        ExitEvent::FailEntry { reason: 0x12345678_deadbeef }
    );
}

#[test]
fn decode_internal_error_with_data_words() {
    let mut front = vec![7, 0, 0, 0, 2, 0, 0, 0];
    front.extend_from_slice(&[0x11, 0, 0, 0, 0, 0, 0, 0]);
    front.extend_from_slice(&[0x22, 0, 0, 0, 0, 0, 0, 0x01]);
    let b = payload(&front);
    let mut data = vec![0u64; 16];
    data[0] = 0x11;
    data[1] = 0x0100000000000022;
    assert_eq!(
        decode_exit(KVM_EXIT_INTERNAL_ERROR, &b),
        ExitEvent::InternalError { suberror: 7, ndata: 2, data }
    );
}

#[test]
fn decode_hardware_exit_on_zero_discriminant() {
    let b = payload(&[0x2a, 0, 0, 0, 0, 0, 0, 0]);
    assert_eq!(
        decode_exit(KVM_EXIT_UNKNOWN, &b),
        ExitEvent::HardwareExit { reason: 0x2a }
    );
}

#[test]
fn decode_unhandled_discriminant() {
    let b = payload(&[]);
    assert_eq!(
        decode_exit(KVM_EXIT_MMIO, &b),
        ExitEvent::Unknown { raw_reason: KVM_EXIT_MMIO }
    );
}

#[test]
fn parse_io_member_fields() {
    let b = payload(&[1, 4, 0x34, 0x12, 0x05, 0, 0, 0, 0x40, 0, 0, 0, 0, 0, 0, 0]);
    let io = KvmRunIo::parse(&b);
    assert_eq!(io.direction, 1);
    assert_eq!(io.size, 4);
    assert_eq!(io.port, 0x1234);
    assert_eq!(io.count, 5);
    assert_eq!(io.data_offset, 0x40);
}

#[test]
fn parse_hw_and_fail_entry_members() {
    let b = payload(&[0x01, 0x02, 0x03, 0x04, 0x05, 0x06, 0x07, 0x08]);
    assert_eq!(KvmRunHw::parse(&b).hardware_exit_reason, 0x0807060504030201);
    assert_eq!(
        KvmRunFailEntry::parse(&b).hardware_entry_failure_reason,
        0x0807060504030201
    );
}

#[test]
fn parse_internal_member_reads_sixteen_words() {
    let mut front = vec![9, 0, 0, 0, 16, 0, 0, 0];
    for w in 0..16u8 {
        let mut word = [0u8; 8];
        word[0] = w + 1;
        front.extend_from_slice(&word);
    }
    let b = payload(&front);
    let internal = KvmRunInternal::parse(&b);
    assert_eq!(internal.suberror, 9);
    assert_eq!(internal.ndata, 16);
    assert_eq!(internal.data.len(), 16);
    for w in 0..16usize {
        assert_eq!(internal.data[w], (w as u64) + 1);
    }
}

#[test]
fn vcpu_run_snapshot_decodes() {
    let run = KvmRun {
        request_interrupt_window: 0,
        immediate_exit: 0,
        exit_reason: KVM_EXIT_HLT,
        ready_for_interrupt_injection: 0,
        if_flag: 0,
        flags: 0,
        cr8: 0,
        apic_base: 0,
        exit_data: payload(&[]),
    };
    let chan = VcpuRun::new(run);
    assert_eq!(chan.exit_reason(), KVM_EXIT_HLT);
    assert_eq!(chan.current_exit(), ExitEvent::Hlt);
}
