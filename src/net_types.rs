//! Raw socket type and protocol numbers.
use vstd::prelude::*;

verus! {

/// A raw `SOCK_*` number.
pub type RawSocketType = u32;

/// A raw protocol number; never zero, which stands for "the default".
pub type RawProtocol = u32;

/// A socket type, as `socket` takes it (`SOCK_*`).
#[derive(Clone, Copy, Debug, PartialEq, Eq, Hash, Structural)]
pub struct SocketType(RawSocketType);

impl View for SocketType {
    type V = u32;

    closed spec fn view(&self) -> u32 {
        self.0
    }
}

impl SocketType {
    /// Constructs a socket type from a raw number.
    pub fn from_raw(raw: RawSocketType) -> (r: SocketType)
        ensures
            r@ == raw,
    {
        SocketType(raw)
    }

    /// Returns the raw number of this socket type.
    pub fn as_raw(self) -> (r: RawSocketType)
        ensures
            r == self@,
    {
        self.0
    }

    /// Two values with the same raw number are the same value, so
    /// `SocketType::from_raw(x.as_raw()) == x`.
    pub proof fn lemma_raw_determines(a: SocketType, b: SocketType)
        requires
            a@ == b@,
        ensures
            a == b,
    {
    }
}

/// A raw `AF_*` number.
pub type RawAddressFamily = u16;

/// An address family (`AF_*`).
#[derive(Clone, Copy, Debug, PartialEq, Eq, Hash, Structural)]
pub struct AddressFamily(RawAddressFamily);

impl View for AddressFamily {
    type V = u16;

    closed spec fn view(&self) -> u16 {
        self.0
    }
}

impl AddressFamily {
    /// Constructs an address family from a raw number.
    pub fn from_raw(raw: RawAddressFamily) -> (r: AddressFamily)
        ensures
            r@ == raw,
    {
        AddressFamily(raw)
    }

    /// Returns the raw number of this address family.
    pub fn as_raw(self) -> (r: RawAddressFamily)
        ensures
            r == self@,
    {
        self.0
    }

    /// Two values with the same raw number are the same value, so
    /// `AddressFamily::from_raw(x.as_raw()) == x`.
    pub proof fn lemma_raw_determines(a: AddressFamily, b: AddressFamily)
        requires
            a@ == b@,
        ensures
            a == b,
    {
    }
}

/// A socket protocol (`IPPROTO_*`, `NETLINK_*`, `ETH_P_*`). The default
/// protocol, zero, is written as no protocol at all.
#[derive(Clone, Copy, Debug, PartialEq, Eq, Hash, Structural)]
pub struct Protocol(RawProtocol);

impl View for Protocol {
    type V = u32;

    closed spec fn view(&self) -> u32 {
        self.0
    }
}

impl Protocol {
    #[verifier::type_invariant]
    spec fn nonzero(&self) -> bool {
        self.0 != 0
    }

    /// Constructs a protocol from a raw, nonzero number.
    pub fn from_raw(raw: RawProtocol) -> (r: Protocol)
        requires
            raw != 0,
        ensures
            r@ == raw,
    {
        Protocol(raw)
    }

    /// Returns the raw number of this protocol, which is not zero.
    pub fn as_raw(self) -> (r: RawProtocol)
        ensures
            r == self@,
            r != 0,
    {
        proof {
            use_type_invariant(&self);
        }
        self.0
    }

    /// Two values with the same raw number are the same value, so
    /// `Protocol::from_raw(x.as_raw()) == x`.
    pub proof fn lemma_raw_determines(a: Protocol, b: Protocol)
        requires
            a@ == b@,
        ensures
            a == b,
    {
    }
}

} // verus!
