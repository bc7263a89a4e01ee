//! Descriptor wrappers.
//!
//! An operation either borrows a descriptor (the caller keeps ownership and
//! may use it again once the matching completion has been reaped) or consumes
//! it (ownership moves into the operation and the descriptor must never be
//! referenced again). The two cases get two distinct types so that reuse
//! after a consuming operation is a move error at compile time, not a runtime
//! kernel error.

use vstd::prelude::*;

verus! {

/// A borrowed descriptor: the raw value of an OS file descriptor (or, for
/// fixed-file operations, left aside in favour of a registered index). The
/// caller retains ownership; the descriptor must stay open until the
/// operation's completion has been reaped.
#[derive(Clone, Copy, Debug, PartialEq, Eq, Structural)]
pub struct Fd {
    pub raw: i32,
}

impl Fd {
    pub fn new(raw: i32) -> (r: Fd)
        ensures
            r.raw == raw,
    {
        Fd { raw }
    }
}

/// An owned descriptor, handed whole to a consuming operation such as close.
/// The type is neither `Copy` nor `Clone` and the only way out is
/// [`OwnedFd::into_raw`], which takes `self` by value: once a descriptor has
/// been consumed, any further use is refused by the compiler.
pub struct OwnedFd {
    raw: i32,
}

impl OwnedFd {
    /// The raw descriptor held inside, for contracts.
    pub closed spec fn raw_spec(&self) -> i32 {
        self.raw
    }

    pub fn new(raw: i32) -> (r: OwnedFd)
        ensures
            r.raw_spec() == raw,
    {
        OwnedFd { raw }
    }

    /// Surrenders ownership and returns the raw descriptor. The caller is now
    /// the one responsible for it; the wrapper is gone.
    pub fn into_raw(self) -> (r: i32)
        ensures
            r == self.raw_spec(),
    {
        self.raw
    }
}

} // verus!
