use uring::entry::{Buf, IovecArray, Opcode, Sqe, len_fits, prep_fsync, prep_nop, FIXED_FILE};
use uring::fd::{Fd, OwnedFd};

/// A slot whose every field holds stale non-zero bytes, so that any field an
/// encoder fails to set shows up in the comparisons below.
fn dirty_slot() -> Sqe {
    Sqe {
        opcode: Opcode::Splice,
        flags: 0xFF,
        fd: -1,
        off_or_addr2: u64::MAX,
        addr_or_splice_off_in: u64::MAX,
        len: u32::MAX,
        op_flags: u32::MAX,
        buf_index: u16::MAX,
        splice_fd_in_or_file_index: -1,
        user_data: u64::MAX,
    }
}

fn zero_slot() -> Sqe {
    Sqe {
        opcode: Opcode::Nop,
        flags: 0,
        fd: 0,
        off_or_addr2: 0,
        addr_or_splice_off_in: 0,
        len: 0,
        op_flags: 0,
        buf_index: 0,
        splice_fd_in_or_file_index: 0,
        user_data: 0,
    }
}

#[test]
fn nop_sets_only_documented_fields() {
    let sqe = prep_nop(0x1234_5678_9abc_def0);
    let expected = Sqe { opcode: Opcode::Nop, fd: -1, user_data: 0x1234_5678_9abc_def0, ..zero_slot() };
    assert_eq!(sqe, expected);
}

#[test]
fn fsync_sets_only_documented_fields() {
    let sqe = prep_fsync(0x11, Fd::new(9), 0x4);
    let expected = Sqe { opcode: Opcode::Fsync, fd: 9, op_flags: 0x4, user_data: 0x11, ..zero_slot() };
    assert_eq!(sqe, expected);
}

#[test]
fn read_sets_only_documented_fields() {
    let mut sqe = dirty_slot();
    sqe.prep_read(0x42, Fd::new(3), Buf { addr: 0x1000, len: 1024 }, 0);
    let expected = Sqe {
        opcode: Opcode::Read,
        fd: 3,
        addr_or_splice_off_in: 0x1000,
        len: 1024,
        off_or_addr2: 0,
        user_data: 0x42,
        ..zero_slot()
    };
    assert_eq!(sqe, expected);
}

#[test]
fn write_sets_only_documented_fields() {
    let mut sqe = dirty_slot();
    sqe.prep_write(7, Fd::new(4), Buf { addr: 0x2000, len: 512 }, 4096);
    let expected = Sqe {
        opcode: Opcode::Write,
        fd: 4,
        addr_or_splice_off_in: 0x2000,
        len: 512,
        off_or_addr2: 4096,
        user_data: 7,
        ..zero_slot()
    };
    assert_eq!(sqe, expected);
}

#[test]
fn readv_sets_count_not_byte_length() {
    let mut sqe = dirty_slot();
    sqe.prep_readv(8, Fd::new(5), IovecArray { addr: 0x3000, count: 3 }, 100);
    let expected = Sqe {
        opcode: Opcode::Readv,
        fd: 5,
        addr_or_splice_off_in: 0x3000,
        len: 3,
        off_or_addr2: 100,
        user_data: 8,
        ..zero_slot()
    };
    assert_eq!(sqe, expected);
}

#[test]
fn writev_sets_only_documented_fields() {
    let mut sqe = dirty_slot();
    sqe.prep_writev(9, Fd::new(6), IovecArray { addr: 0x4000, count: 2 }, 200);
    let expected = Sqe {
        opcode: Opcode::Writev,
        fd: 6,
        addr_or_splice_off_in: 0x4000,
        len: 2,
        off_or_addr2: 200,
        user_data: 9,
        ..zero_slot()
    };
    assert_eq!(sqe, expected);
}

#[test]
fn readv_fixed_marks_the_fixed_file_table() {
    let mut sqe = dirty_slot();
    sqe.prep_readv_fixed(10, 2, IovecArray { addr: 0x5000, count: 4 }, 300);
    let expected = Sqe {
        opcode: Opcode::Readv,
        fd: 2,
        addr_or_splice_off_in: 0x5000,
        len: 4,
        off_or_addr2: 300,
        flags: FIXED_FILE,
        user_data: 10,
        ..zero_slot()
    };
    assert_eq!(sqe, expected);
}

#[test]
fn splice_carries_both_offsets_and_both_descriptors() {
    let mut sqe = dirty_slot();
    sqe.prep_splice(11, Fd::new(3), 111, Fd::new(4), 222, 4096);
    let expected = Sqe {
        opcode: Opcode::Splice,
        fd: 4,
        len: 4096,
        off_or_addr2: 222,
        addr_or_splice_off_in: 111,
        splice_fd_in_or_file_index: 3,
        user_data: 11,
        ..zero_slot()
    };
    assert_eq!(sqe, expected);
}

#[test]
fn write_fixed_records_the_buffer_index() {
    let mut sqe = dirty_slot();
    sqe.prep_write_fixed(12, Fd::new(7), Buf { addr: 0x6000, len: 256 }, 400, 5);
    let expected = Sqe {
        opcode: Opcode::WriteFixed,
        fd: 7,
        addr_or_splice_off_in: 0x6000,
        len: 256,
        off_or_addr2: 400,
        buf_index: 5,
        user_data: 12,
        ..zero_slot()
    };
    assert_eq!(sqe, expected);
}

#[test]
fn read_fixed_records_the_buffer_index() {
    let mut sqe = dirty_slot();
    sqe.prep_read_fixed(13, Fd::new(8), Buf { addr: 0x7000, len: 128 }, 500, 6);
    let expected = Sqe {
        opcode: Opcode::ReadFixed,
        fd: 8,
        addr_or_splice_off_in: 0x7000,
        len: 128,
        off_or_addr2: 500,
        buf_index: 6,
        user_data: 13,
        ..zero_slot()
    };
    assert_eq!(sqe, expected);
}

#[test]
fn openat_repurposes_the_length_field_for_the_mode() {
    let mut sqe = dirty_slot();
    sqe.prep_openat(14, Fd::new(-100), 0x8000, 0x241, 0o644);
    let expected = Sqe {
        opcode: Opcode::Openat,
        fd: -100,
        addr_or_splice_off_in: 0x8000,
        len: 0o644,
        off_or_addr2: 0,
        op_flags: 0x241,
        user_data: 14,
        ..zero_slot()
    };
    assert_eq!(sqe, expected);
}

#[test]
fn close_consumes_the_descriptor_and_touches_no_buffer_fields() {
    let mut sqe = dirty_slot();
    let fd = OwnedFd::new(15);
    sqe.prep_close(0x7, fd);
    // `fd` has moved into the operation; naming it again would be a compile
    // error, which is the point of the consuming wrapper.
    let expected = Sqe { opcode: Opcode::Close, fd: 15, user_data: 0x7, ..zero_slot() };
    assert_eq!(sqe, expected);
}

#[test]
fn owned_fd_round_trips_the_raw_descriptor() {
    let fd = OwnedFd::new(42);
    assert_eq!(fd.into_raw(), 42);
}

#[test]
fn length_boundary() {
    // The largest length the 32-bit field can carry is accepted and stored
    // exactly; the first length past it violates the encoders' precondition,
    // which `len_fits` tests for unverified callers.
    assert!(len_fits((1usize << 32) - 1));
    assert!(!len_fits(1usize << 32));

    let mut sqe = dirty_slot();
    sqe.prep_read(1, Fd::new(3), Buf { addr: 0x9000, len: (1usize << 32) - 1 }, 0);
    assert_eq!(sqe.len, u32::MAX);
}

#[test]
fn accessors_read_the_shared_fields() {
    let mut sqe = Sqe::zeroed();
    sqe.set_buf(0xABCD, 10, 77);
    assert_eq!(sqe.addr(), 0xABCD);
    assert_eq!(sqe.off(), 77);
    assert_eq!(sqe.len, 10);

    sqe.set_len(99);
    assert_eq!(sqe.len, 99);
    assert_eq!(sqe.addr(), 0xABCD);

    sqe.clear_buf();
    assert_eq!(sqe.addr(), 0);
    assert_eq!(sqe.off(), 0);
    assert_eq!(sqe.len, 0);
}
