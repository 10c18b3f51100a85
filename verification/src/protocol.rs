//! What a write transaction does to the peripheral and the bus, stated wait
//! by wait.

use vstd::prelude::*;
use crate::device::State;
use crate::error::Error;
use crate::registers::{holds, SR1_ADDR, SR1_ARLO, SR1_BERR, SR1_SB, SR1_TXE};
use crate::transfer::{judge, Phase, Transfer, Verdict};

verus! {

/// How far a transaction got: the peripheral as it was left, and the result,
/// or `None` where the bus raised nothing more while a flag was awaited.
pub struct Run {
    /// The peripheral as the transaction left it.
    pub state: State,
    /// The result, if the transaction came to one.
    pub outcome: Option<Result<(), Error>>,
}

impl Run {
    /// Whether the step succeeded, so that the transaction goes on.
    pub open spec fn went_on(self) -> bool {
        self.outcome == Some(Ok::<(), Error>(()))
    }
}

/// Samples SR1 until an error flag or `flag` shows. Where the bus has
/// nothing left to raise and the sample shows neither, the wait has no end.
pub open spec fn await_flag(state: State, flag: u32) -> Run
    decreases state.pending.len(),
{
    let read = state.read_sr1();
    match judge(read.sr1, flag) {
        Verdict::Failed(error) => Run { state: read, outcome: Some(Err(error)) },
        Verdict::Ready => Run { state: read, outcome: Some(Ok(())) },
        Verdict::Retry => if state.pending.len() == 0 {
            Run { state: read, outcome: None }
        } else {
            await_flag(read, flag)
        },
    }
}

/// Waits for TxE after a byte went to DR, then sends the bytes from `from`
/// on.
pub open spec fn from_sending(state: State, bytes: Seq<u8>, from: int) -> Run
    decreases bytes.len() - from, 1int,
{
    let waited = await_flag(state, SR1_TXE);
    if waited.went_on() {
        send_from(waited.state, bytes, from)
    } else {
        waited
    }
}

/// Sends the bytes from `from` on: each is written to DR, and TxE is
/// awaited after it.
pub open spec fn send_from(state: State, bytes: Seq<u8>, from: int) -> Run
    decreases bytes.len() - from, 0int,
{
    if 0 <= from < bytes.len() {
        from_sending(state.write_dr(bytes[from]), bytes, from + 1)
    } else {
        Run { state, outcome: Some(Ok(())) }
    }
}

/// Reads SR2 after the address was acknowledged, then sends the bytes.
pub open spec fn from_addressed(state: State, bytes: Seq<u8>) -> Run {
    send_from(state.read_sr2(), bytes, 0)
}

/// Waits for ADDR after the address went to DR, then goes on.
pub open spec fn from_addressing(state: State, bytes: Seq<u8>) -> Run {
    let waited = await_flag(state, SR1_ADDR);
    if waited.went_on() {
        from_addressed(waited.state, bytes)
    } else {
        waited
    }
}

/// Writes the address to DR after the START condition, then goes on.
pub open spec fn from_started(state: State, addr: u8, bytes: Seq<u8>) -> Run {
    from_addressing(state.write_dr(addr), bytes)
}

/// Waits for SB after START was set, then goes on.
pub open spec fn from_starting(state: State, addr: u8, bytes: Seq<u8>) -> Run {
    let waited = await_flag(state, SR1_SB);
    if waited.went_on() {
        from_started(waited.state, addr, bytes)
    } else {
        waited
    }
}

/// A whole write transaction: START, the address, a read of SR2, then the
/// bytes, with a wait after each.
pub open spec fn write_run(state: State, addr: u8, bytes: Seq<u8>) -> Run {
    from_starting(state.set_start(), addr, bytes)
}

/// What is left of a transaction that stands at `transfer`.
pub open spec fn rest_of(transfer: Transfer, state: State, bytes: Seq<u8>) -> Run {
    match transfer.phase {
        Phase::Idle => write_run(state, transfer.addr, bytes),
        Phase::Starting => from_starting(state, transfer.addr, bytes),
        Phase::Started => from_started(state, transfer.addr, bytes),
        Phase::Addressing => from_addressing(state, bytes),
        Phase::Addressed => from_addressed(state, bytes),
        Phase::Loading => send_from(state, bytes, transfer.sent as int),
        Phase::Sending => from_sending(state, bytes, transfer.sent as int),
        Phase::Done(result) => Run { state, outcome: Some(result) },
    }
}

/// What no part of a transaction changes: the timing and the routing.
pub open spec fn same_timing(before: State, after: State) -> bool {
    &&& after.cr2 == before.cr2
    &&& after.ccr == before.ccr
    &&& after.trise == before.trise
    &&& after.remap == before.remap
}

/// A result and the state that goes with it: success comes with neither
/// error flag, a bus error with BERR, a lost arbitration with ARLO and
/// without BERR, and no other error is ever the result; a transaction
/// without a result has used up what the bus had to raise.
pub open spec fn flags_match(run: Run) -> bool {
    match run.outcome {
        None => run.state.pending.len() == 0,
        Some(Ok(_)) => !holds(run.state.sr1, SR1_BERR) && !holds(run.state.sr1, SR1_ARLO),
        Some(Err(Error::Bus)) => holds(run.state.sr1, SR1_BERR),
        Some(Err(Error::Arbitration)) => holds(run.state.sr1, SR1_ARLO) && !holds(
            run.state.sr1,
            SR1_BERR,
        ),
        Some(Err(_)) => false,
    }
}

/// A wait writes nothing to DR and leaves the timing alone. Its result goes
/// with the flags it leaves, and where it succeeds the awaited flag is set.
pub proof fn lemma_await_flag(state: State, flag: u32)
    ensures
        await_flag(state, flag).state.sent == state.sent,
        same_timing(state, await_flag(state, flag).state),
        flags_match(await_flag(state, flag)),
        await_flag(state, flag).went_on() ==> holds(await_flag(state, flag).state.sr1, flag),
    decreases state.pending.len(),
{
    let read = state.read_sr1();
    if judge(read.sr1, flag) == Verdict::Retry && state.pending.len() > 0 {
        lemma_await_flag(read, flag);
    }
}

/// Sending the bytes from `from` on leaves the timing alone, and its result
/// goes with the flags it leaves, provided that neither error flag is set
/// where nothing is left to send. Where it succeeds, just those bytes were
/// written to DR, in order.
pub proof fn lemma_send_from(state: State, bytes: Seq<u8>, from: int)
    requires
        0 <= from <= bytes.len(),
        from == bytes.len() ==> !holds(state.sr1, SR1_BERR) && !holds(state.sr1, SR1_ARLO),
    ensures
        same_timing(state, send_from(state, bytes, from).state),
        flags_match(send_from(state, bytes, from)),
        send_from(state, bytes, from).went_on() ==> send_from(state, bytes, from).state.sent
            == state.sent + bytes.skip(from),
    decreases bytes.len() - from,
{
    if from < bytes.len() {
        let loaded = state.write_dr(bytes[from]);
        let waited = await_flag(loaded, SR1_TXE);
        lemma_await_flag(loaded, SR1_TXE);
        if waited.went_on() {
            lemma_send_from(waited.state, bytes, from + 1);
            let run = send_from(state, bytes, from);
            if run.went_on() {
                assert(state.sent.push(bytes[from]) + bytes.skip(from + 1) =~= state.sent
                    + bytes.skip(from));
            }
        }
    } else {
        assert(state.sent + bytes.skip(from) =~= state.sent);
    }
}

/// The result of a write transaction goes with the flags that it leaves in
/// SR1: after `Err(Bus)` BERR is set, after `Err(Arbitration)` ARLO is set
/// and BERR is not, and after `Ok` neither is. No other error is ever the
/// result, and there is no result only where the bus has nothing left to
/// raise. The timing and the routing are as they were.
pub proof fn lemma_result_matches_flags(state: State, addr: u8, bytes: Seq<u8>)
    requires
        bytes.len() >= 1,
    ensures
        flags_match(write_run(state, addr, bytes)),
        same_timing(state, write_run(state, addr, bytes).state),
{
    let started = await_flag(state.set_start(), SR1_SB);
    lemma_await_flag(state.set_start(), SR1_SB);
    if started.went_on() {
        let addressed = await_flag(started.state.write_dr(addr), SR1_ADDR);
        lemma_await_flag(started.state.write_dr(addr), SR1_ADDR);
        if addressed.went_on() {
            lemma_send_from(addressed.state.read_sr2(), bytes, 0);
        }
    }
}

/// A write transaction that succeeds has written to DR the address and then
/// each byte once, in order, and nothing else.
pub proof fn lemma_success_sends_all(state: State, addr: u8, bytes: Seq<u8>)
    requires
        bytes.len() >= 1,
        write_run(state, addr, bytes).went_on(),
    ensures
        write_run(state, addr, bytes).state.sent == state.sent + seq![addr] + bytes,
        write_run(state, addr, bytes).state.sent.len() == state.sent.len() + 1 + bytes.len(),
{
    let started = await_flag(state.set_start(), SR1_SB);
    lemma_await_flag(state.set_start(), SR1_SB);
    let addressed = await_flag(started.state.write_dr(addr), SR1_ADDR);
    lemma_await_flag(started.state.write_dr(addr), SR1_ADDR);
    lemma_send_from(addressed.state.read_sr2(), bytes, 0);
    assert(bytes.skip(0) =~= bytes);
    assert(state.sent.push(addr) =~= state.sent + seq![addr]);
}

/// The bus raises `flag` at most once.
pub open spec fn raised_once(pending: Seq<u32>, flag: u32) -> bool {
    forall|i: int, j: int|
        0 <= i < j < pending.len() && holds(#[trigger] pending[i], flag) ==> !holds(
            #[trigger] pending[j],
            flag,
        )
}

/// The bus will not raise `flag` any more.
pub open spec fn spent(pending: Seq<u32>, flag: u32) -> bool {
    forall|i: int| 0 <= i < pending.len() ==> !holds(#[trigger] pending[i], flag)
}

/// `flag` is set at most once from here on: the bus raises it at most once,
/// and not at all where it is set already.
pub open spec fn armed(state: State, flag: u32) -> bool {
    &&& raised_once(state.pending, flag)
    &&& holds(state.sr1, flag) ==> spent(state.pending, flag)
}

/// `flag` is clear and stays clear.
pub open spec fn quiet(state: State, flag: u32) -> bool {
    &&& !holds(state.sr1, flag)
    &&& spent(state.pending, flag)
}

proof fn lemma_read_keeps(state: State, flag: u32)
    ensures
        armed(state, flag) ==> armed(state.read_sr1(), flag),
        quiet(state, flag) ==> quiet(state.read_sr1(), flag),
{
    if state.pending.len() > 0 {
        let raised = state.pending[0];
        let sr1 = state.sr1;
        let rest = state.pending.skip(1);
        assert(holds(sr1 | raised, flag) == (holds(sr1, flag) || holds(raised, flag))) by {
            assert(((sr1 | raised) & flag != 0) == (sr1 & flag != 0 || raised & flag != 0))
                by (bit_vector);
        }
        assert forall|i: int| 0 <= i < rest.len() implies rest[i] == state.pending[i + 1] by {}
        if armed(state, flag) {
            assert(raised_once(rest, flag)) by {
                assert forall|i: int, j: int|
                    0 <= i < j < rest.len() && holds(#[trigger] rest[i], flag) implies !holds(
                    #[trigger] rest[j],
                    flag,
                ) by {
                    assert(rest[i] == state.pending[i + 1]);
                    assert(rest[j] == state.pending[j + 1]);
                }
            }
            if holds(sr1 | raised, flag) {
                assert forall|i: int| 0 <= i < rest.len() implies !holds(
                    #[trigger] rest[i],
                    flag,
                ) by {
                    assert(rest[i] == state.pending[i + 1]);
                    if holds(raised, flag) {
                        assert(holds(state.pending[0], flag));
                    }
                }
            }
        }
        if quiet(state, flag) {
            assert(!holds(state.pending[0], flag));
            assert forall|i: int| 0 <= i < rest.len() implies !holds(#[trigger] rest[i], flag) by {
                assert(rest[i] == state.pending[i + 1]);
            }
        }
    }
}

proof fn lemma_await_keeps(state: State, awaited: u32, flag: u32)
    ensures
        armed(state, flag) ==> armed(await_flag(state, awaited).state, flag),
        quiet(state, flag) ==> quiet(await_flag(state, awaited).state, flag),
    decreases state.pending.len(),
{
    let read = state.read_sr1();
    lemma_read_keeps(state, flag);
    if judge(read.sr1, awaited) == Verdict::Retry && state.pending.len() > 0 {
        lemma_await_keeps(read, awaited, flag);
    }
}

proof fn lemma_clearing_keeps(sr1: u32, mask: u32, flag: u32)
    ensures
        holds(sr1 & !mask, flag) ==> holds(sr1, flag),
        flag & !mask == 0 ==> !holds(sr1 & !mask, flag),
{
    assert((sr1 & !mask) & flag != 0 ==> sr1 & flag != 0) by (bit_vector);
    assert(flag & !mask == 0 ==> (sr1 & !mask) & flag == 0) by (bit_vector);
}

proof fn lemma_send_keeps_quiet(state: State, bytes: Seq<u8>, from: int, flag: u32)
    requires
        0 <= from <= bytes.len(),
        quiet(state, flag),
    ensures
        quiet(send_from(state, bytes, from).state, flag),
    decreases bytes.len() - from,
{
    if from < bytes.len() {
        let loaded = state.write_dr(bytes[from]);
        lemma_clearing_keeps(state.sr1, SR1_SB | SR1_TXE, flag);
        lemma_await_keeps(loaded, SR1_TXE, flag);
        let waited = await_flag(loaded, SR1_TXE);
        if waited.went_on() {
            lemma_send_keeps_quiet(waited.state, bytes, from + 1, flag);
        }
    }
}

/// After a write transaction that succeeds the peripheral is idle, SB and
/// ADDR clear, provided that both were clear when it began and that the bus
/// raises each of them at most once.
pub proof fn lemma_idle_after_success(state: State, addr: u8, bytes: Seq<u8>)
    requires
        bytes.len() >= 1,
        !holds(state.sr1, SR1_SB),
        !holds(state.sr1, SR1_ADDR),
        raised_once(state.pending, SR1_SB),
        raised_once(state.pending, SR1_ADDR),
        write_run(state, addr, bytes).went_on(),
    ensures
        !holds(write_run(state, addr, bytes).state.sr1, SR1_SB),
        !holds(write_run(state, addr, bytes).state.sr1, SR1_ADDR),
{
    let begun = state.set_start();
    assert(armed(begun, SR1_SB) && armed(begun, SR1_ADDR));
    let started = await_flag(begun, SR1_SB);
    lemma_await_flag(begun, SR1_SB);
    lemma_await_keeps(begun, SR1_SB, SR1_SB);
    lemma_await_keeps(begun, SR1_SB, SR1_ADDR);
    // SB is set and spent: the address write clears it for good.
    let named = started.state.write_dr(addr);
    lemma_clearing_keeps(started.state.sr1, SR1_SB | SR1_TXE, SR1_SB);
    lemma_clearing_keeps(started.state.sr1, SR1_SB | SR1_TXE, SR1_ADDR);
    assert(SR1_SB & !(SR1_SB | SR1_TXE) == 0) by (bit_vector);
    assert(quiet(named, SR1_SB));
    assert(armed(named, SR1_ADDR));
    let addressed = await_flag(named, SR1_ADDR);
    lemma_await_flag(named, SR1_ADDR);
    lemma_await_keeps(named, SR1_ADDR, SR1_SB);
    lemma_await_keeps(named, SR1_ADDR, SR1_ADDR);
    // ADDR is set and spent: the read of SR2 clears it for good.
    let cleared = addressed.state.read_sr2();
    lemma_clearing_keeps(addressed.state.sr1, SR1_ADDR, SR1_SB);
    lemma_clearing_keeps(addressed.state.sr1, SR1_ADDR, SR1_ADDR);
    assert(SR1_ADDR & !SR1_ADDR == 0) by (bit_vector);
    assert(quiet(cleared, SR1_SB));
    assert(quiet(cleared, SR1_ADDR));
    lemma_send_keeps_quiet(cleared, bytes, 0, SR1_SB);
    lemma_send_keeps_quiet(cleared, bytes, 0, SR1_ADDR);
}

} // verus!
