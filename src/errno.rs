use vstd::prelude::*;

verus! {

/// `EIO`: the kernel broke the format it promises: a record that does not
/// decode, or a read of no bytes from an inotify descriptor.
pub const EIO: u16 = 5;

/// `ENODEV`: no such device.
pub const ENODEV: u16 = 19;

/// `ENOTTY`: not a terminal.
pub const ENOTTY: u16 = 25;

/// `ERANGE`: a result does not fit.
pub const ERANGE: u16 = 34;

/// `EINVAL`: an invalid argument, such as a buffer too small for one record.
pub const EINVAL: u16 = 22;

/// `EOPNOTSUPP`: the operation is not supported.
pub const EOPNOTSUPP: u16 = 95;

/// A raw error number reported by the operating system.
#[derive(Clone, Copy, Debug, PartialEq, Eq, Structural)]
pub struct Errno(pub u16);

impl Errno {
    /// Wraps a raw error number.
    pub fn from_raw(raw: u16) -> (r: Errno)
        ensures
            r.0 == raw,
    {
        Errno(raw)
    }

    /// Returns the raw error number.
    pub fn raw(&self) -> (r: u16)
        ensures
            r == self.0,
    {
        self.0
    }
}

} // verus!
