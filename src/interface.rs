use vstd::prelude::*;

use crate::error::Ssd1680Error;

verus! {

/// Width of the reset pulse, and the pause after it, in milliseconds.
pub const RESET_DELAY_MS: u32 = 10;

/// Interval between two reads of the busy line, in milliseconds.
pub const BUSY_POLL_INTERVAL_MS: u32 = 10;

/// Longest time the busy line may stay asserted before a wait fails, in milliseconds.
pub const BUSY_TIMEOUT_MS: u32 = 5000;

/// Number of poll intervals a busy wait sleeps before it reports a timeout.
pub const BUSY_POLL_ATTEMPTS: u32 = BUSY_TIMEOUT_MS / BUSY_POLL_INTERVAL_MS;

/// Largest payload handed to the byte channel in one transfer.
pub const MAX_TRANSFER_BYTES: usize = 4096;

/// One call of a primitive of the interface, with its argument.
pub enum Call {
    /// `reset`: a pulse on the reset line.
    Reset,
    /// `busy_wait`: a wait until the busy line is released.
    BusyWait,
    /// `send_command` with this command byte.
    Command(u8),
    /// `send_data` with these parameter bytes.
    Data(Seq<u8>),
}

/// A call made, with the error it returned (`None` when it succeeded).
pub type CallRecord = (Call, Option<Ssd1680Error>);

/// The error a primitive returned, if any.
pub open spec fn outcome(r: Result<(), Ssd1680Error>) -> Option<Ssd1680Error> {
    match r {
        Ok(_) => None,
        Err(e) => Some(e),
    }
}

/// The records of `calls` made one after another, each succeeding.
pub open spec fn succeeded(calls: Seq<Call>) -> Seq<CallRecord> {
    calls.map_values(|c: Call| (c, None::<Ssd1680Error>))
}

/// The calls recorded from `before` to `after` carry out `planned` in order
/// and stop at the first failure: either every planned call was made and
/// succeeded and `r` is `Ok`, or the planned calls were made up to one that
/// failed with the error `r` returns, the earlier ones succeeding, and no
/// call came after it. No call is repeated.
pub open spec fn follows(
    before: Seq<CallRecord>,
    planned: Seq<Call>,
    after: Seq<CallRecord>,
    r: Result<(), Ssd1680Error>,
) -> bool {
    match r {
        Ok(_) => after == before + succeeded(planned),
        Err(e) => {
            let k = after.len() - before.len() - 1;
            &&& 0 <= k < planned.len()
            &&& after == before + succeeded(planned.take(k)) + seq![(planned[k], Some(e))]
        },
    }
}

proof fn lemma_succeeded_concat(a: Seq<Call>, b: Seq<Call>)
    ensures
        succeeded(a + b) == succeeded(a) + succeeded(b),
{
    assert(succeeded(a + b) =~= succeeded(a) + succeeded(b));
}

/// One call carries out the plan made of that call alone.
pub proof fn lemma_follows_single(before: Seq<CallRecord>, c: Call, r: Result<(), Ssd1680Error>)
    ensures
        follows(before, seq![c], before.push((c, outcome(r))), r),
{
    assert(succeeded(seq![c]) =~= seq![(c, None::<Ssd1680Error>)]);
    assert(succeeded(seq![c].take(0)) =~= Seq::<CallRecord>::empty());
    assert(before + Seq::<CallRecord>::empty() =~= before);
}

/// Carrying out `first` in full and then `second` carries out `first + second`.
pub proof fn lemma_follows_then(
    before: Seq<CallRecord>,
    first: Seq<Call>,
    second: Seq<Call>,
    after: Seq<CallRecord>,
    r: Result<(), Ssd1680Error>,
)
    requires
        follows(before + succeeded(first), second, after, r),
    ensures
        follows(before, first + second, after, r),
{
    lemma_succeeded_concat(first, second);
    match r {
        Ok(_) => {
            assert(before + succeeded(first) + succeeded(second) =~= before + (succeeded(first)
                + succeeded(second)));
        },
        Err(e) => {
            let k = after.len() - (before + succeeded(first)).len() - 1;
            let planned = first + second;
            assert(planned.take(first.len() + k) =~= first + second.take(k));
            lemma_succeeded_concat(first, second.take(k));
            assert(planned[first.len() + k] == second[k]);
            assert(before + succeeded(first) + succeeded(second.take(k)) =~= before + succeeded(
                planned.take(first.len() + k),
            ));
        },
    }
}

/// A failure within `first` also stops `first + second` there.
pub proof fn lemma_follows_stopped(
    before: Seq<CallRecord>,
    first: Seq<Call>,
    second: Seq<Call>,
    after: Seq<CallRecord>,
    r: Result<(), Ssd1680Error>,
)
    requires
        r is Err,
        follows(before, first, after, r),
    ensures
        follows(before, first + second, after, r),
{
    let k = after.len() - before.len() - 1;
    assert((first + second).take(k) =~= first.take(k));
    assert((first + second)[k] == first[k]);
}

/// The hardware connection to the controller, implemented by the platform
/// binding.
pub trait DisplayInterface {
    /// Send one command byte: select "command", write the byte, return to "data".
    fn send_command(&mut self, command: u8) -> Result<(), Ssd1680Error>;

    /// Send the parameter bytes of a command, split into transfers of at most
    /// `MAX_TRANSFER_BYTES` where the channel needs it.
    fn send_data(&mut self, data: &[u8]) -> Result<(), Ssd1680Error>;

    /// Pulse the reset line low for `RESET_DELAY_MS`, then hold it high as long.
    fn reset(&mut self) -> Result<(), Ssd1680Error>;

    /// Wait until the busy line is released, polling it as [`BusyWait`] decides;
    /// fails with `Timeout` once the polling budget is spent.
    fn busy_wait(&mut self) -> Result<(), Ssd1680Error>;
}

/// An interface together with the record of every call made through it.
pub struct Transport<I: DisplayInterface> {
    interface: I,
    log: Ghost<Seq<CallRecord>>,
}

impl<I: DisplayInterface> Transport<I> {
    /// Every call made so far, in order, with what it returned.
    pub closed spec fn calls(&self) -> Seq<CallRecord> {
        self.log@
    }

    pub closed spec fn spec_interface(&self) -> I {
        self.interface
    }

    /// A transport over `interface` that has made no call yet.
    pub fn new(interface: I) -> (t: Self)
        ensures
            t.calls() == Seq::<CallRecord>::empty(),
            t.spec_interface() == interface,
    {
        Transport { interface, log: Ghost(Seq::empty()) }
    }

    /// The underlying interface.
    pub fn interface(&self) -> (i: &I)
        ensures
            *i == self.spec_interface(),
    {
        &self.interface
    }

    /// Send one command byte.
    pub fn send_command(&mut self, command: u8) -> (r: Result<(), Ssd1680Error>)
        ensures
            final(self).calls() == old(self).calls().push((Call::Command(command), outcome(r))),
    {
        let r = self.interface.send_command(command);
        self.log = Ghost(self.log@.push((Call::Command(command), outcome(r))));
        r
    }

    /// Send parameter bytes.
    pub fn send_data(&mut self, data: &[u8]) -> (r: Result<(), Ssd1680Error>)
        ensures
            final(self).calls() == old(self).calls().push((Call::Data(data@), outcome(r))),
    {
        let r = self.interface.send_data(data);
        self.log = Ghost(self.log@.push((Call::Data(data@), outcome(r))));
        r
    }

    /// Pulse the reset line.
    pub fn reset(&mut self) -> (r: Result<(), Ssd1680Error>)
        ensures
            final(self).calls() == old(self).calls().push((Call::Reset, outcome(r))),
    {
        let r = self.interface.reset();
        self.log = Ghost(self.log@.push((Call::Reset, outcome(r))));
        r
    }

    /// Wait until the busy line is released.
    pub fn busy_wait(&mut self) -> (r: Result<(), Ssd1680Error>)
        ensures
            final(self).calls() == old(self).calls().push((Call::BusyWait, outcome(r))),
    {
        let r = self.interface.busy_wait();
        self.log = Ghost(self.log@.push((Call::BusyWait, outcome(r))));
        r
    }
}

/// What a busy wait does after one read of the busy line.
#[derive(Clone, Copy, Debug, PartialEq, Eq, Structural)]
pub enum BusyAction {
    /// The line is released: the wait is over.
    Done,
    /// The line is asserted: sleep `BUSY_POLL_INTERVAL_MS`, then read it again.
    Sleep,
    /// The line stayed asserted through `BUSY_POLL_ATTEMPTS` sleeps: give up.
    TimedOut,
}

/// One poll: the action for a reading of the busy line after `attempts`
/// sleeps, and the number of sleeps after it.
pub open spec fn poll_step(attempts: nat, busy: bool) -> (BusyAction, nat) {
    if !busy {
        (BusyAction::Done, attempts)
    } else if attempts < BUSY_POLL_ATTEMPTS {
        (BusyAction::Sleep, attempts + 1)
    } else {
        (BusyAction::TimedOut, attempts)
    }
}

/// A run of polls over successive readings of the busy line: the action that
/// ended the wait (none if the readings ran out first) and the number of
/// sleeps taken before it.
pub open spec fn poll_run(attempts: nat, readings: Seq<bool>) -> (Option<BusyAction>, nat)
    decreases readings.len(),
{
    if readings.len() == 0 {
        (None, 0)
    } else {
        let (action, next) = poll_step(attempts, readings[0]);
        if action == BusyAction::Sleep {
            let (end, sleeps) = poll_run(next, readings.drop_first());
            (end, sleeps + 1)
        } else {
            (Some(action), 0)
        }
    }
}

/// The decisions of one bounded busy wait: how many intervals it has slept
/// so far, and whether to sleep again.
pub struct BusyWait {
    attempts: u32,
}

impl View for BusyWait {
    type V = nat;

    /// The number of intervals slept so far.
    closed spec fn view(&self) -> nat {
        self.attempts as nat
    }
}

impl BusyWait {
    /// A wait that has not slept yet.
    pub fn new() -> (w: BusyWait)
        ensures
            w@ == 0,
    {
        BusyWait { attempts: 0 }
    }

    /// The number of intervals slept so far.
    pub fn attempts(&self) -> (n: u32)
        ensures
            n == self@,
    {
        self.attempts
    }

    /// Decide what to do after reading the busy line as `busy`.
    pub fn poll(&mut self, busy: bool) -> (a: BusyAction)
        ensures
            (a, final(self)@) == poll_step(old(self)@, busy),
    {
        if !busy {
            BusyAction::Done
        } else if self.attempts < BUSY_POLL_ATTEMPTS {
            self.attempts = self.attempts + 1;
            BusyAction::Sleep
        } else {
            BusyAction::TimedOut
        }
    }
}

proof fn lemma_poll_run_from(attempts: nat, readings: Seq<bool>)
    requires
        attempts <= BUSY_POLL_ATTEMPTS,
        readings.len() >= BUSY_POLL_ATTEMPTS + 1 - attempts,
    ensures
        poll_run(attempts, readings).0 is Some,
        poll_run(attempts, readings).1 <= BUSY_POLL_ATTEMPTS - attempts,
        (forall|i: int| 0 <= i < readings.len() ==> readings[i]) ==> poll_run(attempts, readings)
            == (Some(BusyAction::TimedOut), (BUSY_POLL_ATTEMPTS - attempts) as nat),
    decreases readings.len(),
{
    let (action, next) = poll_step(attempts, readings[0]);
    if action == BusyAction::Sleep {
        let rest = readings.drop_first();
        lemma_poll_run_from(next, rest);
        if forall|i: int| 0 <= i < readings.len() ==> readings[i] {
            assert forall|i: int| 0 <= i < rest.len() implies rest[i] by {
                assert(rest[i] == readings[i + 1]);
            }
        }
    }
}

/// A busy wait never blocks indefinitely: over any readings of the busy
/// line, it ends within `BUSY_POLL_ATTEMPTS + 1` polls, having slept at most
/// `BUSY_POLL_ATTEMPTS` intervals. When the line never clears it ends in
/// `TimedOut` after exactly `BUSY_POLL_ATTEMPTS` intervals.
pub proof fn lemma_busy_wait_is_bounded(readings: Seq<bool>)
    requires
        readings.len() >= BUSY_POLL_ATTEMPTS + 1,
    ensures
        poll_run(0, readings).0 is Some,
        poll_run(0, readings).1 <= BUSY_POLL_ATTEMPTS,
        (forall|i: int| 0 <= i < readings.len() ==> readings[i]) ==> poll_run(0, readings) == (
            Some(BusyAction::TimedOut),
            BUSY_POLL_ATTEMPTS as nat,
        ),
{
    lemma_poll_run_from(0, readings);
}

} // verus!
