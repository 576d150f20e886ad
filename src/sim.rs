//! The polling loops run against a simulated register bank: a finite
//! sequence of readings stands for what the hardware reports on each poll.
//! These runners make the loops' behaviour checkable without hardware, and
//! the lemmas here state that behaviour for every sequence of readings.
use vstd::prelude::*;
use crate::line_status::{mask_set, data_ready, DATA_READY, TX_AVAILABLE};
use crate::uart::{
    MiniUart, TimedOut, TxStep, RxStep, WaitStep, tx_step, rx_step, wait_step, deadline_of,
    received_byte,
};

verus! {

/// Index of the first reading, from `i` on, with every bit of `mask` set;
/// `reads.len()` if there is none.
pub open spec fn first_set(reads: Seq<u32>, mask: u32, i: nat) -> nat
    decreases reads.len() - i,
{
    if i >= reads.len() {
        reads.len()
    } else if mask_set(reads[i as int], mask) {
        i
    } else {
        first_set(reads, mask, i + 1)
    }
}

/// Where a bounded wait ends when its polls, from the `i`-th on, see the
/// line-status and clock readings of `polls`: the index of the deciding
/// poll and its decision, or `(polls.len(), Poll)` if none decides.
pub open spec fn wait_from(
    timeout: Option<u32>,
    start: u64,
    polls: Seq<(u32, u64)>,
    i: nat,
) -> (nat, WaitStep)
    decreases polls.len() - i,
{
    if i >= polls.len() {
        (polls.len(), WaitStep::Poll)
    } else {
        let s = wait_step(timeout, start, polls[i as int].0, polls[i as int].1);
        if s != WaitStep::Poll {
            (i, s)
        } else {
            wait_from(timeout, start, polls, i + 1)
        }
    }
}

/// The clock readings of `polls` never go backwards.
pub open spec fn monotonic(polls: Seq<(u32, u64)>) -> bool {
    forall|a: int, b: int| 0 <= a <= b < polls.len() ==> polls[a].1 <= polls[b].1
}

/// Outcome of a simulated transmit.
#[derive(PartialEq, Eq, Structural, Clone, Copy, Debug)]
pub struct TxRun {
    /// Line-status readings that showed a full FIFO.
    pub polls: usize,
    /// The value written into the data field, if the byte went out.
    pub written: Option<u32>,
}

/// Outcome of a simulated receive.
#[derive(PartialEq, Eq, Structural, Clone, Copy, Debug)]
pub struct RxRun {
    /// Line-status readings that showed no data.
    pub polls: usize,
    /// The byte received, if one became ready.
    pub byte: Option<u8>,
}

/// Outcome of a simulated bounded wait.
#[derive(PartialEq, Eq, Structural, Clone, Copy, Debug)]
pub struct WaitRun {
    /// Polls that decided nothing.
    pub polls: usize,
    /// The decision of the last poll; `Poll` if the readings ran out.
    pub step: WaitStep,
}

proof fn lemma_first_set_bounds(reads: Seq<u32>, mask: u32, i: nat)
    requires
        i <= reads.len(),
    ensures
        i <= first_set(reads, mask, i) <= reads.len(),
        forall|j: int| i <= j < first_set(reads, mask, i) ==> !mask_set(#[trigger] reads[j], mask),
        first_set(reads, mask, i) < reads.len() ==> mask_set(
            reads[first_set(reads, mask, i) as int],
            mask,
        ),
    decreases reads.len() - i,
{
    if i < reads.len() && !mask_set(reads[i as int], mask) {
        lemma_first_set_bounds(reads, mask, i + 1);
    }
}

/// Transmits `byte` against the line-status readings `lsr_reads`, one per
/// poll: it polls past every reading without transmit space and writes the
/// byte on the first one with it.
pub fn run_write_byte(uart: &MiniUart, lsr_reads: &Vec<u32>, byte: u8) -> (r: TxRun)
    ensures
        r.polls == first_set(lsr_reads@, TX_AVAILABLE, 0),
        r.written == (if r.polls < lsr_reads@.len() {
            Some(byte as u32)
        } else {
            None::<u32>
        }),
{
    let mut i: usize = 0;
    while i < lsr_reads.len()
        invariant
            i <= lsr_reads@.len(),
            first_set(lsr_reads@, TX_AVAILABLE, 0) == first_set(lsr_reads@, TX_AVAILABLE, i as nat),
        decreases lsr_reads@.len() - i,
    {
        match uart.write_byte(lsr_reads[i], byte) {
            TxStep::Write(v) => {
                return TxRun { polls: i, written: Some(v) };
            },
            TxStep::Poll => {},
        }
        i = i + 1;
    }
    TxRun { polls: i, written: None }
}

/// Receives a byte against the line-status readings `lsr_reads`; `io` is
/// what the data field holds once a byte is ready.
pub fn run_read_byte(uart: &MiniUart, lsr_reads: &Vec<u32>, io: u32) -> (r: RxRun)
    ensures
        r.polls == first_set(lsr_reads@, DATA_READY, 0),
        r.byte == (if r.polls < lsr_reads@.len() {
            Some((io % 256) as u8)
        } else {
            None::<u8>
        }),
{
    let mut i: usize = 0;
    while i < lsr_reads.len()
        invariant
            i <= lsr_reads@.len(),
            first_set(lsr_reads@, DATA_READY, 0) == first_set(lsr_reads@, DATA_READY, i as nat),
        decreases lsr_reads@.len() - i,
    {
        match uart.read_byte(lsr_reads[i]) {
            RxStep::Read => {
                return RxRun { polls: i, byte: Some(received_byte(io)) };
            },
            RxStep::Poll => {},
        }
        i = i + 1;
    }
    RxRun { polls: i, byte: None }
}

/// Runs the bounded wait started at `start` against `polls`: on each poll a
/// line-status reading, then a clock reading in microseconds.
pub fn run_wait_for_byte(uart: &MiniUart, start: u64, polls: &Vec<(u32, u64)>) -> (r: WaitRun)
    ensures
        (r.polls as nat, r.step) == wait_from(uart.timeout_spec(), start, polls@, 0),
{
    let mut i: usize = 0;
    while i < polls.len()
        invariant
            i <= polls@.len(),
            wait_from(uart.timeout_spec(), start, polls@, 0) == wait_from(
                uart.timeout_spec(),
                start,
                polls@,
                i as nat,
            ),
        decreases polls@.len() - i,
    {
        let (lsr, now) = polls[i];
        let s = uart.wait_for_byte(start, lsr, now);
        if s != WaitStep::Poll {
            return WaitRun { polls: i, step: s };
        }
        i = i + 1;
    }
    WaitRun { polls: i, step: WaitStep::Poll }
}

/// The buffered read against a receive FIFO holding `fifo`, after a bounded
/// wait that ended with `waited`: on a timeout it fails and leaves `buf`
/// alone; otherwise it moves bytes from the FIFO into `buf` while one is
/// ready and a slot is free, and returns how many it moved. A wait that
/// succeeded saw a byte, so the FIFO then holds at least one.
pub fn run_read(uart: &MiniUart, waited: Result<(), TimedOut>, fifo: &Vec<u8>, buf: &mut Vec<u8>) -> (r: Result<usize, TimedOut>)
    requires
        waited is Ok ==> fifo@.len() > 0,
    ensures
        waited is Err ==> r == Err::<usize, TimedOut>(TimedOut) && final(buf)@ == old(buf)@,
        waited is Ok ==> r is Ok && r->Ok_0 == (if fifo@.len() < old(buf)@.len() {
            fifo@.len()
        } else {
            old(buf)@.len()
        }),
        waited is Ok ==> final(buf)@.len() == old(buf)@.len(),
        waited is Ok ==> forall|j: int|
            0 <= j < r->Ok_0 ==> #[trigger] final(buf)@[j] == fifo@[j],
        waited is Ok ==> forall|j: int|
            r->Ok_0 <= j < old(buf)@.len() ==> #[trigger] final(buf)@[j] == old(buf)@[j],
{
    if waited.is_err() {
        return Err(TimedOut);
    }
    let mut n: usize = 0;
    loop
        invariant
            n <= fifo@.len(),
            n <= old(buf)@.len(),
            buf@.len() == old(buf)@.len(),
            forall|j: int| 0 <= j < n ==> #[trigger] buf@[j] == fifo@[j],
            forall|j: int| n <= j < old(buf)@.len() ==> #[trigger] buf@[j] == old(buf)@[j],
        ensures
            n == fifo@.len() || n == old(buf)@.len(),
            buf@.len() == old(buf)@.len(),
            forall|j: int| 0 <= j < n ==> #[trigger] buf@[j] == fifo@[j],
            forall|j: int| n <= j < old(buf)@.len() ==> #[trigger] buf@[j] == old(buf)@[j],
        decreases fifo@.len() - n,
    {
        let lsr: u32 = if n < fifo.len() { DATA_READY } else { 0 };
        assert(data_ready(DATA_READY)) by (bit_vector);
        assert(!data_ready(0)) by (bit_vector);
        if !uart.read_more(lsr, n, buf.len()) {
            break;
        }
        buf.set(n, fifo[n]);
        n = n + 1;
    }
    Ok(n)
}

/// A readiness check that finds a byte means the receive that follows it
/// reads the data field on its first poll, without looping.
pub proof fn lemma_ready_then_read_immediately(lsr: u32, later: Seq<u32>)
    requires
        data_ready(lsr),
    ensures
        rx_step(lsr) == RxStep::Read,
        first_set(seq![lsr] + later, DATA_READY, 0) == 0,
{
    assert((seq![lsr] + later)[0] == lsr);
}

/// The transmit loop polls exactly past the readings without transmit
/// space, and only those.
pub proof fn lemma_transmit_polls(lsr_reads: Seq<u32>, byte: u8)
    ensures
        forall|j: int|
            0 <= j < first_set(lsr_reads, TX_AVAILABLE, 0) ==> tx_step(
                #[trigger] lsr_reads[j],
                byte,
            ) == TxStep::Poll,
        first_set(lsr_reads, TX_AVAILABLE, 0) < lsr_reads.len() ==> tx_step(
            lsr_reads[first_set(lsr_reads, TX_AVAILABLE, 0) as int],
            byte,
        ) == TxStep::Write(byte as u32),
{
    lemma_first_set_bounds(lsr_reads, TX_AVAILABLE, 0);
}

proof fn lemma_unbounded_from(start: u64, polls: Seq<(u32, u64)>, i: nat)
    requires
        i <= polls.len(),
    ensures
        wait_from(None, start, polls, i).1 != WaitStep::TimedOut,
        wait_from(None, start, polls, i).1 == WaitStep::Ready <==> exists|j: int|
            i <= j < polls.len() && data_ready(#[trigger] polls[j].0),
    decreases polls.len() - i,
{
    if i < polls.len() {
        lemma_unbounded_from(start, polls, i + 1);
        if data_ready(polls[i as int].0) {
        } else {
            assert forall|j: int| i <= j < polls.len() && data_ready(#[trigger] polls[j].0) implies i
                + 1 <= j by {}
        }
    }
}

/// With no timeout set, the bounded wait never times out, whatever the
/// clock says; it reports a ready byte exactly when some poll sees one.
pub proof fn lemma_no_timeout_never_times_out(start: u64, polls: Seq<(u32, u64)>)
    ensures
        wait_from(None, start, polls, 0).1 != WaitStep::TimedOut,
        wait_from(None, start, polls, 0).1 == WaitStep::Ready <==> exists|j: int|
            0 <= j < polls.len() && data_ready(#[trigger] polls[j].0),
{
    lemma_unbounded_from(start, polls, 0);
}

proof fn lemma_ready_in_time_from(ms: u32, start: u64, polls: Seq<(u32, u64)>, k: nat, i: nat)
    requires
        monotonic(polls),
        i <= k < polls.len(),
        data_ready(polls[k as int].0),
        polls[k as int].1 <= deadline_of(start, ms),
    ensures
        wait_from(Some(ms), start, polls, i).1 == WaitStep::Ready,
        wait_from(Some(ms), start, polls, i).0 <= k,
    decreases k - i,
{
    assert(polls[i as int].1 <= polls[k as int].1);
    if i < k && !data_ready(polls[i as int].0) {
        lemma_ready_in_time_from(ms, start, polls, k, i + 1);
    }
}

/// With a timeout of `ms` milliseconds and a clock that never goes back, a
/// byte seen by a poll no later than the deadline makes the wait succeed,
/// at that poll or an earlier one.
pub proof fn lemma_ready_before_deadline(ms: u32, start: u64, polls: Seq<(u32, u64)>, k: nat)
    requires
        monotonic(polls),
        k < polls.len(),
        data_ready(polls[k as int].0),
        polls[k as int].1 <= deadline_of(start, ms),
    ensures
        wait_from(Some(ms), start, polls, 0).1 == WaitStep::Ready,
        wait_from(Some(ms), start, polls, 0).0 <= k,
{
    lemma_ready_in_time_from(ms, start, polls, k, 0);
}

proof fn lemma_late_from(ms: u32, start: u64, polls: Seq<(u32, u64)>, k: nat, i: nat)
    requires
        i <= k < polls.len(),
        polls[k as int].1 > deadline_of(start, ms),
        forall|j: int| 0 <= j <= k ==> !data_ready(#[trigger] polls[j].0),
    ensures
        wait_from(Some(ms), start, polls, i).1 == WaitStep::TimedOut,
        wait_from(Some(ms), start, polls, i).0 <= k,
    decreases k - i,
{
    assert(!data_ready(polls[i as int].0));
    if i < k && polls[i as int].1 <= deadline_of(start, ms) {
        lemma_late_from(ms, start, polls, k, i + 1);
    }
}

/// With a timeout of `ms` milliseconds, a wait whose polls see no byte up
/// to one made after the deadline reports a timeout, at that poll or an
/// earlier one.
pub proof fn lemma_times_out_after_deadline(ms: u32, start: u64, polls: Seq<(u32, u64)>, k: nat)
    requires
        k < polls.len(),
        polls[k as int].1 > deadline_of(start, ms),
        forall|j: int| 0 <= j <= k ==> !data_ready(#[trigger] polls[j].0),
    ensures
        wait_from(Some(ms), start, polls, 0).1 == WaitStep::TimedOut,
        wait_from(Some(ms), start, polls, 0).0 <= k,
{
    lemma_late_from(ms, start, polls, k, 0);
}

} // verus!
