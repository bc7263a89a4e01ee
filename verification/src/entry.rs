//! Submission record encoding.
//!
//! A submission record ([`Sqe`]) is a fixed-layout value whose bytes are read
//! by the kernel. Several of its fields are union-style: the same slot is
//! reinterpreted per operation (the address field doubles as a splice source
//! offset, the offset field as a second address, the length field as an open
//! mode). This module keeps one plain field per slot, named after the roles
//! it can carry, and lets the operation code decide which role is active —
//! exactly the wire discipline, with no tagged-union runtime check.
//!
//! Every encoder fully determines the record it builds: fields the operation
//! does not use are explicitly zeroed, never left holding stale bytes from an
//! earlier occupant of the slot. The per-operation `*_record` spec functions
//! write each field out, so the contract of every encoder shows at a glance
//! which fields an operation sets and that all others are zero.
//!
//! Addresses (a buffer base, an iovec array base, a path pointer) appear here
//! as plain 64-bit values: this module decides what goes into each field, and
//! the unverified shim that owns real memory converts pointers to addresses
//! at the boundary.

use vstd::prelude::*;

use crate::fd::Fd;
use crate::fd::OwnedFd;

verus! {

/// Marks the record's descriptor field as an index into the registered
/// fixed-file table rather than a raw descriptor (the kernel ABI's
/// fixed-file submission flag, the lowest flag bit).
pub const FIXED_FILE: u8 = 1;

/// The operation kinds this crate encodes. The kernel ABI assigns each a
/// fixed numeric code; translating to those codes is the unverified
/// boundary's job, so no numbering is repeated here.
#[derive(Clone, Copy, Debug, PartialEq, Eq, Structural)]
pub enum Opcode {
    Nop,
    Fsync,
    Read,
    Write,
    Readv,
    Writev,
    ReadFixed,
    WriteFixed,
    Splice,
    Openat,
    Close,
}

/// A user buffer: base address and length in bytes. Models a borrowed byte
/// slice; the memory must stay valid until the operation's completion has
/// been reaped.
#[derive(Clone, Copy, Debug, PartialEq, Eq, Structural)]
pub struct Buf {
    pub addr: u64,
    pub len: usize,
}

/// An array of I/O vectors: base address of the first vector and the number
/// of vectors (a count, not a byte length).
#[derive(Clone, Copy, Debug, PartialEq, Eq, Structural)]
pub struct IovecArray {
    pub addr: u64,
    pub count: usize,
}

/// One submission record. Field roles follow the kernel wire layout:
///
/// - `addr_or_splice_off_in`: buffer address, iovec array address, path
///   address — or, for splice, the source offset.
/// - `off_or_addr2`: file offset — or a second address.
/// - `len`: byte length or iovec count — or, for open, the creation mode.
/// - `op_flags`: per-operation flags (fsync flags, open flags).
/// - `splice_fd_in_or_file_index`: splice source descriptor.
///
/// The invariant the encoders maintain: every field not meaningful to the
/// active `opcode` is zero.
#[derive(Clone, Copy, Debug, PartialEq, Eq, Structural)]
pub struct Sqe {
    pub opcode: Opcode,
    pub flags: u8,
    pub fd: i32,
    pub off_or_addr2: u64,
    pub addr_or_splice_off_in: u64,
    pub len: u32,
    pub op_flags: u32,
    pub buf_index: u16,
    pub splice_fd_in_or_file_index: i32,
    pub user_data: u64,
}

/// The all-zero record (opcode no-op, every other field zero).
pub open spec fn zero_record() -> Sqe {
    Sqe {
        opcode: Opcode::Nop,
        flags: 0,
        fd: 0,
        off_or_addr2: 0,
        addr_or_splice_off_in: 0,
        len: 0,
        op_flags: 0,
        buf_index: 0,
        splice_fd_in_or_file_index: 0,
        user_data: 0,
    }
}

/// A no-op: no descriptor (the conventional -1), no buffer, only the tag.
pub open spec fn nop_record(user_data: u64) -> Sqe {
    Sqe { opcode: Opcode::Nop, fd: -1i32, user_data, ..zero_record() }
}

/// Fsync: descriptor and per-operation flags; all buffer-role fields zero.
pub open spec fn fsync_record(user_data: u64, fd: Fd, rw_flags: u32) -> Sqe {
    Sqe { opcode: Opcode::Fsync, fd: fd.raw, op_flags: rw_flags, user_data, ..zero_record() }
}

/// Read: descriptor, buffer address and length, file offset.
pub open spec fn read_record(user_data: u64, fd: Fd, buf: Buf, offset: u64) -> Sqe {
    Sqe {
        opcode: Opcode::Read,
        fd: fd.raw,
        addr_or_splice_off_in: buf.addr,
        len: buf.len as u32,
        off_or_addr2: offset,
        user_data,
        ..zero_record()
    }
}

/// Write: descriptor, buffer address and length, file offset.
pub open spec fn write_record(user_data: u64, fd: Fd, buf: Buf, offset: u64) -> Sqe {
    Sqe {
        opcode: Opcode::Write,
        fd: fd.raw,
        addr_or_splice_off_in: buf.addr,
        len: buf.len as u32,
        off_or_addr2: offset,
        user_data,
        ..zero_record()
    }
}

/// Vectored read: descriptor, iovec array address and count, file offset.
pub open spec fn readv_record(user_data: u64, fd: Fd, iovecs: IovecArray, offset: u64) -> Sqe {
    Sqe {
        opcode: Opcode::Readv,
        fd: fd.raw,
        addr_or_splice_off_in: iovecs.addr,
        len: iovecs.count as u32,
        off_or_addr2: offset,
        user_data,
        ..zero_record()
    }
}

/// Vectored write: descriptor, iovec array address and count, file offset.
pub open spec fn writev_record(user_data: u64, fd: Fd, iovecs: IovecArray, offset: u64) -> Sqe {
    Sqe {
        opcode: Opcode::Writev,
        fd: fd.raw,
        addr_or_splice_off_in: iovecs.addr,
        len: iovecs.count as u32,
        off_or_addr2: offset,
        user_data,
        ..zero_record()
    }
}

/// Vectored read through the fixed-file table: the descriptor field holds a
/// registered file index instead of a raw descriptor, and the fixed-file
/// flag marks the reinterpretation.
pub open spec fn readv_fixed_record(
    user_data: u64,
    file_index: usize,
    iovecs: IovecArray,
    offset: u64,
) -> Sqe {
    Sqe {
        opcode: Opcode::Readv,
        fd: file_index as i32,
        addr_or_splice_off_in: iovecs.addr,
        len: iovecs.count as u32,
        off_or_addr2: offset,
        flags: FIXED_FILE,
        user_data,
        ..zero_record()
    }
}

/// Splice: destination descriptor and offset in the primary fields, source
/// offset in the address field, source descriptor in its own field, and a
/// byte count. Both union-reinterpreted fields carry distinct data at once.
pub open spec fn splice_record(
    user_data: u64,
    fd_in: Fd,
    off_in: u64,
    fd_out: Fd,
    off_out: u64,
    len: usize,
) -> Sqe {
    Sqe {
        opcode: Opcode::Splice,
        fd: fd_out.raw,
        len: len as u32,
        off_or_addr2: off_out,
        addr_or_splice_off_in: off_in,
        splice_fd_in_or_file_index: fd_in.raw,
        user_data,
        ..zero_record()
    }
}

/// Fixed-buffer write: like a write, with the index of the registered buffer
/// the address and length were taken from.
pub open spec fn write_fixed_record(
    user_data: u64,
    fd: Fd,
    buffer: Buf,
    offset: u64,
    buffer_index: u16,
) -> Sqe {
    Sqe {
        opcode: Opcode::WriteFixed,
        fd: fd.raw,
        addr_or_splice_off_in: buffer.addr,
        len: buffer.len as u32,
        off_or_addr2: offset,
        buf_index: buffer_index,
        user_data,
        ..zero_record()
    }
}

/// Fixed-buffer read: like a read, with the registered buffer index.
pub open spec fn read_fixed_record(
    user_data: u64,
    fd: Fd,
    buffer: Buf,
    offset: u64,
    buffer_index: u16,
) -> Sqe {
    Sqe {
        opcode: Opcode::ReadFixed,
        fd: fd.raw,
        addr_or_splice_off_in: buffer.addr,
        len: buffer.len as u32,
        off_or_addr2: offset,
        buf_index: buffer_index,
        user_data,
        ..zero_record()
    }
}

/// Open relative to a directory descriptor: the address field holds the path
/// pointer, the length field is repurposed to carry the file-creation mode,
/// and the per-operation flags carry the open flags.
pub open spec fn openat_record(
    user_data: u64,
    dirfd: Fd,
    path_addr: u64,
    open_flags: u32,
    mode: u32,
) -> Sqe {
    Sqe {
        opcode: Opcode::Openat,
        fd: dirfd.raw,
        addr_or_splice_off_in: path_addr,
        len: mode,
        off_or_addr2: 0,
        op_flags: open_flags,
        user_data,
        ..zero_record()
    }
}

/// Close: only the consumed descriptor and the tag; no buffer fields.
pub open spec fn close_record(user_data: u64, raw_fd: i32) -> Sqe {
    Sqe { opcode: Opcode::Close, fd: raw_fd, user_data, ..zero_record() }
}

/// Whether a buffer length fits the record's 32-bit length field. A length
/// that does not fit is a caller programming error, not a queue condition:
/// the encoders require it, and an unverified caller tests it first.
pub fn len_fits(len: usize) -> (r: bool)
    ensures
        r <==> len <= u32::MAX,
{
    len <= u32::MAX as usize
}

/// A complete no-op record carrying `user_data` as its tag.
pub fn prep_nop(user_data: u64) -> (r: Sqe)
    ensures
        r == nop_record(user_data),
{
    let mut sqe = Sqe::zeroed();
    sqe.opcode = Opcode::Nop;
    sqe.fd = -1;
    sqe.clear_buf();
    sqe.user_data = user_data;
    sqe
}

/// A complete fsync record for a borrowed descriptor, with per-operation
/// flags and `user_data` as its tag.
pub fn prep_fsync(user_data: u64, fd: Fd, flags: u32) -> (r: Sqe)
    ensures
        r == fsync_record(user_data, fd, flags),
{
    let mut sqe = Sqe::zeroed();
    sqe.opcode = Opcode::Fsync;
    sqe.fd = fd.raw;
    sqe.clear_buf();
    sqe.op_flags = flags;
    sqe.user_data = user_data;
    sqe
}

impl Sqe {
    /// The all-zero record, the state every encoder starts from.
    pub fn zeroed() -> (r: Sqe)
        ensures
            r == zero_record(),
    {
        Sqe {
            opcode: Opcode::Nop,
            flags: 0,
            fd: 0,
            off_or_addr2: 0,
            addr_or_splice_off_in: 0,
            len: 0,
            op_flags: 0,
            buf_index: 0,
            splice_fd_in_or_file_index: 0,
            user_data: 0,
        }
    }

    /// The shared field read in its buffer-address role.
    pub fn addr(&self) -> (r: u64)
        ensures
            r == self.addr_or_splice_off_in,
    {
        self.addr_or_splice_off_in
    }

    /// The shared field read in its file-offset role.
    pub fn off(&self) -> (r: u64)
        ensures
            r == self.off_or_addr2,
    {
        self.off_or_addr2
    }

    /// Stores a length that must fit the record's 32-bit length field.
    pub fn set_len(&mut self, len: usize)
        requires
            len <= u32::MAX,
        ensures
            *final(self) == (Sqe { len: len as u32, ..*old(self) }),
    {
        self.len = len as u32;
    }

    /// Stores a buffer: address, length and file offset, in their primary
    /// roles.
    pub fn set_buf(&mut self, addr: u64, len: usize, offset: u64)
        requires
            len <= u32::MAX,
        ensures
            *final(self) == (Sqe {
                addr_or_splice_off_in: addr,
                len: len as u32,
                off_or_addr2: offset,
                ..*old(self)
            }),
    {
        self.addr_or_splice_off_in = addr;
        self.set_len(len);
        self.off_or_addr2 = offset;
    }

    /// Zeroes the buffer-role fields: address, length and offset. Operations
    /// that use no buffer call this so the slot retains no stale bytes.
    pub fn clear_buf(&mut self)
        ensures
            *final(self) == (Sqe {
                addr_or_splice_off_in: 0,
                len: 0,
                off_or_addr2: 0,
                ..*old(self)
            }),
    {
        self.set_buf(0, 0, 0);
    }

    /// Encodes a read of `buf.len` bytes from `fd` at `offset` into the
    /// buffer at `buf.addr`, tagged `user_data`.
    pub fn prep_read(&mut self, user_data: u64, fd: Fd, buf: Buf, offset: u64)
        requires
            buf.len <= u32::MAX,
        ensures
            *final(self) == read_record(user_data, fd, buf, offset),
    {
        *self = Sqe::zeroed();
        self.opcode = Opcode::Read;
        self.fd = fd.raw;
        self.set_buf(buf.addr, buf.len, offset);
        self.user_data = user_data;
    }

    /// Encodes a vectored read: `iovecs.count` vectors starting at
    /// `iovecs.addr`, read from `fd` at `offset`, tagged `user_data`.
    pub fn prep_readv(&mut self, user_data: u64, fd: Fd, iovecs: IovecArray, offset: u64)
        requires
            iovecs.count <= u32::MAX,
        ensures
            *final(self) == readv_record(user_data, fd, iovecs, offset),
    {
        *self = Sqe::zeroed();
        self.opcode = Opcode::Readv;
        self.fd = fd.raw;
        self.set_buf(iovecs.addr, iovecs.count, offset);
        self.user_data = user_data;
    }

    /// Encodes a vectored read through the fixed-file table: the descriptor
    /// field carries `file_index` and the fixed-file flag marks it.
    pub fn prep_readv_fixed(
        &mut self,
        user_data: u64,
        file_index: usize,
        iovecs: IovecArray,
        offset: u64,
    )
        requires
            file_index <= i32::MAX,
            iovecs.count <= u32::MAX,
        ensures
            *final(self) == readv_fixed_record(user_data, file_index, iovecs, offset),
    {
        *self = Sqe::zeroed();
        self.opcode = Opcode::Readv;
        self.fd = file_index as i32;
        self.set_buf(iovecs.addr, iovecs.count, offset);
        self.flags = FIXED_FILE;
        self.user_data = user_data;
    }

    /// Encodes a write of `buf.len` bytes from the buffer at `buf.addr` to
    /// `fd` at `offset`, tagged `user_data`.
    pub fn prep_write(&mut self, user_data: u64, fd: Fd, buf: Buf, offset: u64)
        requires
            buf.len <= u32::MAX,
        ensures
            *final(self) == write_record(user_data, fd, buf, offset),
    {
        *self = Sqe::zeroed();
        self.opcode = Opcode::Write;
        self.fd = fd.raw;
        self.set_buf(buf.addr, buf.len, offset);
        self.user_data = user_data;
    }

    /// Encodes a vectored write: `iovecs.count` vectors starting at
    /// `iovecs.addr`, written to `fd` at `offset`, tagged `user_data`.
    pub fn prep_writev(&mut self, user_data: u64, fd: Fd, iovecs: IovecArray, offset: u64)
        requires
            iovecs.count <= u32::MAX,
        ensures
            *final(self) == writev_record(user_data, fd, iovecs, offset),
    {
        *self = Sqe::zeroed();
        self.opcode = Opcode::Writev;
        self.fd = fd.raw;
        self.set_buf(iovecs.addr, iovecs.count, offset);
        self.user_data = user_data;
    }

    /// Encodes a splice of `len` bytes from `fd_in` at `off_in` to `fd_out`
    /// at `off_out`. The destination offset sits in the primary offset field,
    /// the source offset in the address field read in its splice role, and
    /// the source descriptor in its own field.
    pub fn prep_splice(
        &mut self,
        user_data: u64,
        fd_in: Fd,
        off_in: u64,
        fd_out: Fd,
        off_out: u64,
        len: usize,
    )
        requires
            len <= u32::MAX,
        ensures
            *final(self) == splice_record(user_data, fd_in, off_in, fd_out, off_out, len),
    {
        *self = Sqe::zeroed();
        self.opcode = Opcode::Splice;
        self.fd = fd_out.raw;
        self.set_len(len);
        self.off_or_addr2 = off_out;
        self.addr_or_splice_off_in = off_in;
        self.splice_fd_in_or_file_index = fd_in.raw;
        self.user_data = user_data;
    }

    /// Encodes a fixed-buffer write: the address and length come from the
    /// registered buffer `buffer`, whose table index is `buffer_index`.
    pub fn prep_write_fixed(
        &mut self,
        user_data: u64,
        fd: Fd,
        buffer: Buf,
        offset: u64,
        buffer_index: u16,
    )
        requires
            buffer.len <= u32::MAX,
        ensures
            *final(self) == write_fixed_record(user_data, fd, buffer, offset, buffer_index),
    {
        *self = Sqe::zeroed();
        self.opcode = Opcode::WriteFixed;
        self.fd = fd.raw;
        self.set_buf(buffer.addr, buffer.len, offset);
        self.buf_index = buffer_index;
        self.user_data = user_data;
    }

    /// Encodes a fixed-buffer read, mirroring [`Sqe::prep_write_fixed`].
    pub fn prep_read_fixed(
        &mut self,
        user_data: u64,
        fd: Fd,
        buffer: Buf,
        offset: u64,
        buffer_index: u16,
    )
        requires
            buffer.len <= u32::MAX,
        ensures
            *final(self) == read_fixed_record(user_data, fd, buffer, offset, buffer_index),
    {
        *self = Sqe::zeroed();
        self.opcode = Opcode::ReadFixed;
        self.fd = fd.raw;
        self.set_buf(buffer.addr, buffer.len, offset);
        self.buf_index = buffer_index;
        self.user_data = user_data;
    }

    /// Encodes an open of the path at `path_addr` (a NUL-terminated string)
    /// relative to directory descriptor `dirfd`. The length field carries the
    /// creation mode; the per-operation flags carry the open flags.
    pub fn prep_openat(
        &mut self,
        user_data: u64,
        dirfd: Fd,
        path_addr: u64,
        flags: u32,
        mode: u32,
    )
        ensures
            *final(self) == openat_record(user_data, dirfd, path_addr, flags, mode),
    {
        *self = Sqe::zeroed();
        self.opcode = Opcode::Openat;
        self.fd = dirfd.raw;
        self.set_buf(path_addr, mode as usize, 0);
        self.op_flags = flags;
        self.user_data = user_data;
    }

    /// Encodes a close. Unlike every other operation this consumes the
    /// descriptor: ownership moves into the record, and the caller can no
    /// longer name it.
    pub fn prep_close(&mut self, user_data: u64, fd: OwnedFd)
        ensures
            *final(self) == close_record(user_data, fd.raw_spec()),
    {
        *self = Sqe::zeroed();
        self.opcode = Opcode::Close;
        self.fd = fd.into_raw();
        self.user_data = user_data;
    }
}

/// The union-field discipline for the two operations that use no buffer at
/// all: a no-op record and an fsync record carry zero in every buffer-role
/// field — address, length and offset — whatever the slot held before.
pub proof fn lemma_no_buffer_ops_clear_buffer_fields(user_data: u64, fd: Fd, rw_flags: u32)
    ensures
        nop_record(user_data).addr_or_splice_off_in == 0,
        nop_record(user_data).len == 0,
        nop_record(user_data).off_or_addr2 == 0,
        fsync_record(user_data, fd, rw_flags).addr_or_splice_off_in == 0,
        fsync_record(user_data, fd, rw_flags).len == 0,
        fsync_record(user_data, fd, rw_flags).off_or_addr2 == 0,
{
}

} // verus!
