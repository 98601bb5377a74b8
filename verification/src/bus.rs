//! What a driver asks of the bus and of the clock.

use vstd::prelude::*;

verus! {

/// One blocking step that the owner of the bus performs for a driver.
#[derive(Debug, PartialEq, Eq)]
pub enum Operation {
    /// Write `bytes` to the device at `address` in one transaction.
    Write { address: u8, bytes: Vec<u8> },
    /// Read exactly `length` bytes from the device at `address` in one
    /// transaction.
    Read { address: u8, length: usize },
    /// Wait at least `micros` microseconds before the next operation.
    Delay { micros: u32 },
}

/// The mathematical content of an [`Operation`].
pub enum Step {
    /// A write of `bytes` to the device at `address`.
    Write { address: u8, bytes: Seq<u8> },
    /// A read of `length` bytes from the device at `address`.
    Read { address: u8, length: nat },
    /// A wait of at least `micros` microseconds.
    Delay { micros: nat },
}

impl View for Operation {
    type V = Step;

    open spec fn view(&self) -> Step {
        match *self {
            Operation::Write { address, bytes } => Step::Write { address, bytes: bytes@ },
            Operation::Read { address, length } => Step::Read { address, length: length as nat },
            Operation::Delay { micros } => Step::Delay { micros: micros as nat },
        }
    }
}

impl Clone for Operation {
    fn clone(&self) -> (copy: Self)
        ensures
            copy@ == self@,
    {
        match self {
            Operation::Write { address, bytes } => Operation::Write {
                address: *address,
                bytes: bytes.clone(),
            },
            Operation::Read { address, length } => Operation::Read {
                address: *address,
                length: *length,
            },
            Operation::Delay { micros } => Operation::Delay { micros: *micros },
        }
    }
}

/// The steps of a list of operations, in order.
pub open spec fn steps(script: Seq<Operation>) -> Seq<Step> {
    script.map_values(|operation: Operation| operation@)
}

/// Why a driver call did not complete.
#[derive(Debug, Clone, Copy, PartialEq, Eq, Structural)]
pub enum Error {
    /// A bus write or read failed. The operations after it were not
    /// performed.
    Transport,
    /// A cursor row or column lies outside the display.
    InvalidParameter,
}

/// A script on its way through the bus. Its operations are performed in
/// order, one at a time, until the last has gone through or one has failed:
/// nothing is performed after a failure.
pub struct Transaction {
    script: Vec<Operation>,
    position: usize,
    failed: bool,
}

impl Transaction {
    #[verifier::type_invariant]
    spec fn in_bounds(self) -> bool {
        self.position <= self.script.len()
    }

    /// The steps of the script, in order.
    pub closed spec fn script(&self) -> Seq<Step> {
        steps(self.script@)
    }

    /// How many steps have gone through.
    pub closed spec fn performed(&self) -> nat {
        self.position as nat
    }

    /// Whether the step after those has failed.
    pub closed spec fn failed(&self) -> bool {
        self.failed
    }

    /// Whether a step is to be performed now.
    pub open spec fn running(&self) -> bool {
        !self.failed() && self.performed() < self.script().len()
    }

    /// A transaction that has `script` before it.
    pub fn new(script: Vec<Operation>) -> (transaction: Self)
        ensures
            transaction.script() == steps(script@),
            transaction.performed() == 0,
            !transaction.failed(),
    {
        Transaction { script, position: 0, failed: false }
    }

    /// The operation to perform now, if there is one.
    pub fn pending(&self) -> (operation: Option<&Operation>)
        ensures
            self.performed() <= self.script().len(),
            self.running() ==> (operation matches Some(next) && next@ == self.script()[
                self.performed() as int
            ]),
            !self.running() ==> operation is None,
    {
        proof {
            use_type_invariant(self);
        }
        if self.failed || self.position >= self.script.len() {
            None
        } else {
            Some(&self.script[self.position])
        }
    }

    /// Records how the pending operation ended. With none pending nothing
    /// changes.
    pub fn complete(&mut self, succeeded: bool)
        ensures
            final(self).script() == old(self).script(),
            old(self).running() && succeeded ==> final(self).performed() == old(self).performed()
                + 1 && !final(self).failed(),
            old(self).running() && !succeeded ==> final(self).performed() == old(self).performed()
                && final(self).failed(),
            !old(self).running() ==> final(self).performed() == old(self).performed()
                && final(self).failed() == old(self).failed(),
    {
        proof {
            use_type_invariant(&*self);
        }
        if !self.failed && self.position < self.script.len() {
            if succeeded {
                self.position = self.position + 1;
            } else {
                self.failed = true;
            }
        }
    }

    /// How the transaction ended, once it has: in a transport error if a step
    /// failed, well if all steps went through.
    pub fn result(&self) -> (result: Option<Result<(), Error>>)
        ensures
            self.running() ==> result is None,
            self.failed() ==> result == Some(Err::<(), Error>(Error::Transport)),
            !self.failed() && self.performed() >= self.script().len() ==> result == Some(
                Ok::<(), Error>(()),
            ),
    {
        if self.failed {
            Some(Err(Error::Transport))
        } else if self.position < self.script.len() {
            None
        } else {
            Some(Ok(()))
        }
    }
}

} // verus!
