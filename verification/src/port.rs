//! Local TCP ports assigned by the operating system.

use vstd::prelude::*;

verus! {

/// A local TCP port on which the backend server may listen.
///
/// A port is obtained by binding a socket to the ephemeral port `0` and
/// reading back the concrete number the operating system assigned; the
/// socket is then released so the server can bind the same number. The
/// operating system never assigns `0`, so every held value lies in
/// `1..=65535`.
#[derive(Clone, Copy, PartialEq, Eq, Structural, Debug)]
pub struct Port {
    value: u16,
}

impl Port {
    /// The port number.
    pub closed spec fn spec_value(self) -> u16 {
        self.value
    }

    /// A port is valid when it is a number the operating system can
    /// actually assign: never `0`.
    pub open spec fn valid(self) -> bool {
        self.spec_value() >= 1
    }

    /// Interprets the number read back from an ephemeral-port bind.
    /// `0` means the operating system did not assign a port; any other
    /// number is a usable port.
    pub fn from_os_assignment(raw: u16) -> (r: Option<Port>)
        ensures
            r is Some <==> raw >= 1,
            r matches Some(p) ==> p.spec_value() == raw && p.valid(),
    {
        if raw == 0 {
            None
        } else {
            Some(Port { value: raw })
        }
    }

    /// The port number, for forming addresses and command lines.
    pub fn value(&self) -> (v: u16)
        ensures
            v == self.spec_value(),
    {
        self.value
    }
}

/// Law: every port the allocator hands out lies in the range `1..=65535`.
pub proof fn lemma_allocated_port_in_range(p: Port)
    requires
        p.valid(),
    ensures
        1 <= p.spec_value() <= 65535,
{
}

} // verus!
