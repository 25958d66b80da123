//! The bus transaction capability the driver is built on, and the
//! mathematical model of a transaction history.
//!
//! The chip speaks a fixed two-byte frame: every transaction writes a control
//! byte and a data byte, then reads two bytes back. The driver never
//! constructs a transport; callers supply one by implementing [`I2cTransport`].

use vstd::prelude::*;

verus! {

/// One completed bus transaction: the address and two bytes that were
/// written, and the two bytes that came back.
#[derive(Clone, Copy, PartialEq, Eq, Structural, Debug)]
pub struct BusTxn {
    /// Bus address the transaction targeted.
    pub address: u8,
    /// First byte written: the control byte.
    pub control: u8,
    /// Second byte written: the data byte.
    pub data: u8,
    /// First byte read back.
    pub reply0: u8,
    /// Second byte read back: the converted value.
    pub reply1: u8,
}

/// Whether transaction `t` wrote exactly `control` and `data` to `address`.
pub open spec fn bus_frame(address: u8, control: u8, data: u8, t: BusTxn) -> bool {
    &&& t.address == address
    &&& t.control == control
    &&& t.data == data
}

/// Whether `post` extends `pre` by exactly one transaction that wrote
/// `control` and `data` to `address` (its replies are unconstrained: the
/// chip chooses them).
pub open spec fn appended_one(
    pre: Seq<BusTxn>,
    post: Seq<BusTxn>,
    address: u8,
    control: u8,
    data: u8,
) -> bool {
    &&& post.len() == pre.len() + 1
    &&& post.subrange(0, pre.len() as int) == pre
    &&& bus_frame(address, control, data, post[pre.len() as int])
}

/// Whether `post` extends `pre` by exactly two transactions, both of which
/// wrote the same `control` and `data` bytes to `address`.
pub open spec fn appended_two(
    pre: Seq<BusTxn>,
    post: Seq<BusTxn>,
    address: u8,
    control: u8,
    data: u8,
) -> bool {
    &&& post.len() == pre.len() + 2
    &&& post.subrange(0, pre.len() as int) == pre
    &&& bus_frame(address, control, data, post[pre.len() as int])
    &&& bus_frame(address, control, data, post[pre.len() as int + 1])
}

/// A capability able to perform one atomic "write two bytes, then read two
/// bytes" transaction against a device address.
///
/// `log` is the history of completed transactions, oldest first. A
/// successful call appends exactly the transaction it performed; a failed
/// call appends nothing and may leave `response` in any state, which is why
/// the driver clears its receive buffer before every call. Whether a call
/// succeeds is the transport's own affair: nothing here promises success.
pub trait I2cTransport: Sized {
    /// The transport's own failure value, passed through unchanged.
    type Error;

    /// The completed transactions this transport has performed, oldest
    /// first. An implementation the driver is verified against overrides
    /// this; the default, for transports that track no history, reports
    /// none.
    open spec fn log(&self) -> Seq<BusTxn> {
        Seq::empty()
    }

    /// Write `command`, then read into `response`, as one atomic bus
    /// operation against `address`.
    fn transact(
        &mut self,
        address: u8,
        command: &[u8; 2],
        response: &mut [u8; 2],
    ) -> (r: Result<(), Self::Error>)
        ensures
            r is Ok ==> final(self).log() == old(self).log().push(
                BusTxn {
                    address,
                    control: command@[0],
                    data: command@[1],
                    reply0: final(response)@[0],
                    reply1: final(response)@[1],
                },
            ),
            r is Err ==> final(self).log() == old(self).log(),
    ;
}

} // verus!
