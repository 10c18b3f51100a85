//! The master-mode write transaction as a state machine.
//!
//! The machine asks for one register access at a time and is told what a
//! read returned. It never waits: whoever drives it performs the access and
//! comes back, as often as the bus needs.

use vstd::prelude::*;
use crate::error::Error;
use crate::registers::{holds, is_set, SR1_ADDR, SR1_ARLO, SR1_BERR, SR1_SB, SR1_TXE};

verus! {

/// What one sample of SR1 means to a wait.
#[derive(Debug, Clone, Copy, PartialEq, Eq)]
pub enum Verdict {
    /// Neither an error nor the awaited flag: sample again.
    Retry,
    /// The awaited flag is set.
    Ready,
    /// An error flag is set.
    Failed(Error),
}

/// The verdict on a sample of SR1 while `flag` is awaited: a bus error
/// comes first, then a lost arbitration, then the flag; other bits are
/// ignored.
pub open spec fn judge(sr1: u32, flag: u32) -> Verdict {
    if holds(sr1, SR1_BERR) {
        Verdict::Failed(Error::Bus)
    } else if holds(sr1, SR1_ARLO) {
        Verdict::Failed(Error::Arbitration)
    } else if holds(sr1, flag) {
        Verdict::Ready
    } else {
        Verdict::Retry
    }
}

/// Judges a sample of SR1 while `flag` is awaited.
pub fn poll(sr1: u32, flag: u32) -> (verdict: Verdict)
    ensures
        verdict == judge(sr1, flag),
{
    if is_set(sr1, SR1_BERR) {
        Verdict::Failed(Error::Bus)
    } else if is_set(sr1, SR1_ARLO) {
        Verdict::Failed(Error::Arbitration)
    } else if is_set(sr1, flag) {
        Verdict::Ready
    } else {
        Verdict::Retry
    }
}

/// What the machine asks its driver to do next.
#[derive(Debug, Clone, Copy, PartialEq, Eq)]
pub enum Request {
    /// Set CR1.START.
    SetStart,
    /// Read SR1 and hand the value to `advance`.
    ReadSr1,
    /// Write the byte to DR.
    WriteDr(u8),
    /// Read SR2 and drop the value.
    ReadSr2,
    /// Nothing: the transaction has ended with this result.
    Done(Result<(), Error>),
}

/// Where a transaction stands.
#[derive(Debug, Clone, Copy, PartialEq, Eq)]
pub enum Phase {
    /// Nothing has been done yet.
    Idle,
    /// START is set; SB is awaited.
    Starting,
    /// The START condition is on the bus; the address is due.
    Started,
    /// The address is in DR; ADDR is awaited.
    Addressing,
    /// The address was acknowledged; SR2 is to be read.
    Addressed,
    /// The next byte is due.
    Loading,
    /// A byte is in DR; TxE is awaited.
    Sending,
    /// The transaction has ended.
    Done(Result<(), Error>),
}

/// A write transaction in progress.
#[derive(Debug, Clone, Copy, PartialEq, Eq)]
pub struct Transfer {
    /// The address byte, as it goes on the bus.
    pub addr: u8,
    /// The number of bytes to send.
    pub len: usize,
    /// Where the transaction stands.
    pub phase: Phase,
    /// The number of bytes written to DR so far, the address not counted.
    pub sent: usize,
}

impl Transfer {
    /// The count of bytes written agrees with the phase, and the length is
    /// one that a transaction can have.
    pub open spec fn well_formed(&self) -> bool {
        &&& 1 <= self.len <= 255
        &&& match self.phase {
            Phase::Idle | Phase::Starting | Phase::Started | Phase::Addressing | Phase::Addressed => {
                self.sent == 0
            },
            Phase::Loading => self.sent < self.len,
            Phase::Sending => 1 <= self.sent <= self.len,
            Phase::Done(_) => self.sent <= self.len,
        }
    }

    /// Whether the machine is sampling SR1 for a flag.
    pub open spec fn waiting(&self) -> bool {
        self.phase == Phase::Starting || self.phase == Phase::Addressing || self.phase
            == Phase::Sending
    }

    /// The flag that a waiting machine samples SR1 for.
    pub open spec fn awaited(&self) -> u32 {
        match self.phase {
            Phase::Starting => SR1_SB,
            Phase::Addressing => SR1_ADDR,
            _ => SR1_TXE,
        }
    }

    /// The access that is due in this state.
    pub open spec fn request_of(&self, bytes: Seq<u8>) -> Request {
        match self.phase {
            Phase::Idle => Request::SetStart,
            Phase::Starting | Phase::Addressing | Phase::Sending => Request::ReadSr1,
            Phase::Started => Request::WriteDr(self.addr),
            Phase::Addressed => Request::ReadSr2,
            Phase::Loading => Request::WriteDr(bytes[self.sent as int]),
            Phase::Done(result) => Request::Done(result),
        }
    }

    /// The phase that follows a wait, given the verdict on the sample.
    pub open spec fn after_wait(&self, verdict: Verdict) -> Phase {
        match verdict {
            Verdict::Retry => self.phase,
            Verdict::Failed(error) => Phase::Done(Err(error)),
            Verdict::Ready => match self.phase {
                Phase::Starting => Phase::Started,
                Phase::Addressing => Phase::Addressed,
                _ => if self.sent < self.len {
                    Phase::Loading
                } else {
                    Phase::Done(Ok(()))
                },
            },
        }
    }

    /// The state after the due access was performed; `value` is what a read
    /// of SR1 returned.
    pub open spec fn advanced(&self, value: u32) -> Transfer {
        match self.phase {
            Phase::Idle => Transfer { phase: Phase::Starting, ..*self },
            Phase::Starting | Phase::Addressing | Phase::Sending => Transfer {
                phase: self.after_wait(judge(value, self.awaited())),
                ..*self
            },
            Phase::Started => Transfer { phase: Phase::Addressing, ..*self },
            Phase::Addressed => Transfer { phase: Phase::Loading, ..*self },
            Phase::Loading => Transfer {
                phase: Phase::Sending,
                sent: (self.sent + 1) as usize,
                ..*self
            },
            Phase::Done(_) => *self,
        }
    }

    /// A transaction that sends `len` bytes to `addr`, with nothing done yet.
    pub fn begin(addr: u8, len: usize) -> (transfer: Transfer)
        requires
            1 <= len <= 255,
        ensures
            transfer == (Transfer { addr, len, phase: Phase::Idle, sent: 0 }),
            transfer.well_formed(),
    {
        Transfer { addr, len, phase: Phase::Idle, sent: 0 }
    }

    /// The access that is due. `bytes` are the bytes of the transaction.
    pub fn request(&self, bytes: &[u8]) -> (request: Request)
        requires
            self.well_formed(),
            bytes.len() == self.len,
        ensures
            request == self.request_of(bytes@),
    {
        match self.phase {
            Phase::Idle => Request::SetStart,
            Phase::Starting => Request::ReadSr1,
            Phase::Addressing => Request::ReadSr1,
            Phase::Sending => Request::ReadSr1,
            Phase::Started => Request::WriteDr(self.addr),
            Phase::Addressed => Request::ReadSr2,
            Phase::Loading => Request::WriteDr(bytes[self.sent]),
            Phase::Done(result) => Request::Done(result),
        }
    }

    /// Whether the machine is sampling SR1 for a flag.
    pub fn is_waiting(&self) -> (waiting: bool)
        ensures
            waiting == self.waiting(),
    {
        match self.phase {
            Phase::Starting => true,
            Phase::Addressing => true,
            Phase::Sending => true,
            _ => false,
        }
    }

    /// Moves on after the due access was performed. `value` is what the
    /// access read from SR1; after any other access it is not looked at.
    pub fn advance(self, value: u32) -> (next: Transfer)
        requires
            self.well_formed(),
        ensures
            next == self.advanced(value),
            next.well_formed(),
    {
        match self.phase {
            Phase::Idle => Transfer { phase: Phase::Starting, ..self },
            Phase::Starting => {
                let phase = match poll(value, SR1_SB) {
                    Verdict::Retry => Phase::Starting,
                    Verdict::Ready => Phase::Started,
                    Verdict::Failed(error) => Phase::Done(Err(error)),
                };
                Transfer { phase, ..self }
            },
            Phase::Started => Transfer { phase: Phase::Addressing, ..self },
            Phase::Addressing => {
                let phase = match poll(value, SR1_ADDR) {
                    Verdict::Retry => Phase::Addressing,
                    Verdict::Ready => Phase::Addressed,
                    Verdict::Failed(error) => Phase::Done(Err(error)),
                };
                Transfer { phase, ..self }
            },
            Phase::Addressed => Transfer { phase: Phase::Loading, ..self },
            Phase::Loading => Transfer { phase: Phase::Sending, sent: self.sent + 1, ..self },
            Phase::Sending => {
                let phase = match poll(value, SR1_TXE) {
                    Verdict::Retry => Phase::Sending,
                    Verdict::Ready => if self.sent < self.len {
                        Phase::Loading
                    } else {
                        Phase::Done(Ok(()))
                    },
                    Verdict::Failed(error) => Phase::Done(Err(error)),
                };
                Transfer { phase, ..self }
            },
            Phase::Done(result) => Transfer { phase: Phase::Done(result), ..self },
        }
    }
}

} // verus!
