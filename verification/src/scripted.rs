//! An in-memory transaction capability that answers from a prepared script
//! and records every transaction it completes. It stands in for a physical
//! bus wherever the driver is exercised without hardware.

use vstd::prelude::*;

use crate::bus::{BusTxn, I2cTransport};

verus! {

/// What the scripted bus does with one transaction: answer with the two
/// given reply bytes, or fail.
#[derive(Clone, Copy, PartialEq, Eq, Structural, Debug)]
pub enum BusStep {
    /// Complete the transaction and reply with these two bytes.
    Reply(u8, u8),
    /// Refuse the transaction.
    Fail,
}

/// The scripted bus's failure value: a refused or unscripted transaction.
#[derive(Clone, Copy, PartialEq, Eq, Structural, Debug)]
pub struct BusFault;

/// A bus that consumes its script one step per transaction and fails once
/// the script is exhausted.
pub struct ScriptedBus {
    script: Vec<BusStep>,
    cursor: usize,
    recorded: Vec<BusTxn>,
}

impl ScriptedBus {
    /// How many script steps have been consumed.
    pub closed spec fn spec_cursor(&self) -> int {
        self.cursor as int
    }

    /// The prepared script.
    pub closed spec fn spec_script(&self) -> Seq<BusStep> {
        self.script@
    }

    /// A fresh bus that will answer according to `script`.
    pub fn new(script: Vec<BusStep>) -> (b: Self)
        ensures
            b.spec_script() == script@,
            b.spec_cursor() == 0,
            b.log() == Seq::<BusTxn>::empty(),
    {
        ScriptedBus { script, cursor: 0, recorded: Vec::new() }
    }

    /// The transactions completed so far, oldest first.
    pub fn recorded(&self) -> (r: &Vec<BusTxn>)
        ensures
            r@ == self.log(),
    {
        &self.recorded
    }
}

impl I2cTransport for ScriptedBus {
    type Error = BusFault;

    closed spec fn log(&self) -> Seq<BusTxn> {
        self.recorded@
    }

    fn transact(
        &mut self,
        address: u8,
        command: &[u8; 2],
        response: &mut [u8; 2],
    ) -> (r: Result<(), BusFault>) {
        if self.cursor < self.script.len() {
            let step = self.script[self.cursor];
            self.cursor = self.cursor + 1;
            match step {
                BusStep::Reply(b0, b1) => {
                    *response = [b0, b1];
                    self.recorded.push(
                        BusTxn {
                            address,
                            control: command[0],
                            data: command[1],
                            reply0: b0,
                            reply1: b1,
                        },
                    );
                    Ok(())
                },
                BusStep::Fail => Err(BusFault),
            }
        } else {
            Err(BusFault)
        }
    }
}

} // verus!
