use vstd::prelude::*;
use crate::code::{ControlCode, decode_spec};
use stopwatch::Stopwatch;

verus! {

/// Time between two looks at the link while a reply is awaited, in milliseconds.
pub const POLL_INTERVAL_MS: u64 = 10;

/// How long a reply is awaited by default, in milliseconds.
pub const REPLY_TIMEOUT_MS: u64 = 10000;

/// The link operation that failed.
#[derive(Clone, Copy, Debug, PartialEq, Eq, Structural)]
pub enum LinkOp {
    Write,
    Flush,
    Availability,
    Read,
}

/// Why an operation did not complete.
#[derive(Clone, Copy, Debug, PartialEq, Eq, Structural)]
pub enum Failure {
    /// The link failed; the operation stopped there.
    Transport(LinkOp),
    /// No reply came within the allowed time.
    Timeout,
    /// A byte came that the exchange did not expect.
    UnexpectedCode(u8),
    /// The display did not take the new orientation.
    DisplayApply,
}

/// A half-duplex byte channel to the device, together with the means to
/// wait on it. Whoever holds it `&mut` is the only one talking on it.
pub trait Link {
    /// Sends all of `bytes`.
    fn write(&mut self, bytes: &[u8]) -> Result<(), ()>;

    /// Pushes out what was written.
    fn flush(&mut self) -> Result<(), ()>;

    /// How many received bytes are waiting to be read.
    fn bytes_available(&mut self) -> Result<u32, ()>;

    /// Reads one received byte.
    fn read_byte(&mut self) -> Result<u8, ()>;

    /// Lets `ms` milliseconds pass.
    fn pause(&mut self, ms: u64);
}

/// What to do after one look at the link while awaiting a reply.
#[derive(Clone, Copy, Debug, PartialEq, Eq, Structural)]
pub enum PollStep {
    /// A byte is there: read it.
    Read,
    /// Nothing yet: wait this many milliseconds, then look again.
    Wait(u64),
    /// Stop with this failure.
    Stop(Failure),
}

/// The step after seeing `available` (`None`: the check failed) once `waited`
/// of `timeout` milliseconds have passed.
pub open spec fn poll_step_spec(available: Option<u32>, waited: u64, timeout: u64) -> PollStep {
    match available {
        None => PollStep::Stop(Failure::Transport(LinkOp::Availability)),
        Some(n) => if n > 0 {
            PollStep::Read
        } else if waited >= timeout {
            PollStep::Stop(Failure::Timeout)
        } else if timeout - waited < POLL_INTERVAL_MS {
            PollStep::Wait((timeout - waited) as u64)
        } else {
            PollStep::Wait(POLL_INTERVAL_MS)
        },
    }
}

/// Decides the next step of a wait for a reply. A pending byte is read at
/// once; a failed check stops at once; otherwise the wait goes on in
/// intervals that end exactly at `timeout`, where it stops.
pub fn poll_step(available: Option<u32>, waited: u64, timeout: u64) -> (r: PollStep)
    ensures
        r == poll_step_spec(available, waited, timeout),
{
    match available {
        None => PollStep::Stop(Failure::Transport(LinkOp::Availability)),
        Some(n) => if n > 0 {
            PollStep::Read
        } else if waited >= timeout {
            PollStep::Stop(Failure::Timeout)
        } else if timeout - waited < POLL_INTERVAL_MS {
            PollStep::Wait(timeout - waited)
        } else {
            PollStep::Wait(POLL_INTERVAL_MS)
        },
    }
}

/// A wait never runs past its timeout, always makes progress, and gives up
/// exactly when the whole timeout has passed with nothing received.
pub proof fn lemma_poll_wait_bounded(available: Option<u32>, waited: u64, timeout: u64)
    ensures
        poll_step_spec(available, waited, timeout) matches PollStep::Wait(d) ==> 0 < d && waited
            + d <= timeout,
        poll_step_spec(available, waited, timeout) == PollStep::Stop(Failure::Timeout) <==> (
        available == Some(0u32) && waited >= timeout),
        available is None ==> poll_step_spec(available, waited, timeout) == PollStep::Stop(
            Failure::Transport(LinkOp::Availability),
        ),
{
}

#[verifier::external_type_specification]
#[verifier::external_body]
pub struct ExStopwatch(stopwatch::Stopwatch);

/// Relies on stopwatch::Stopwatch::start_new: a stopwatch that runs from now.
#[verifier::external_body]
fn start_stopwatch() -> (r: Stopwatch) {
    Stopwatch::start_new()
}

/// Relies on stopwatch::Stopwatch::elapsed_ms: the milliseconds the
/// stopwatch has run. Nothing is assumed of the value: it is the time.
#[verifier::external_body]
fn elapsed_ms(sw: &Stopwatch) -> (r: i64) {
    sw.elapsed_ms()
}

/// Where an exchange stands: each stage names the one link operation it
/// waits on, except `Replied` and `Failed`, which hold the result.
#[derive(Clone, Copy, Debug, PartialEq, Eq, Structural)]
pub enum Stage {
    /// The request bytes are to be written.
    Writing,
    /// The written bytes are to be flushed.
    Flushing,
    /// The link is to be asked how many bytes wait.
    Checking,
    /// This many milliseconds are to pass before the next check.
    Pausing(u64),
    /// One byte is to be read.
    Reading,
    /// The exchange is over: this reply came.
    Replied(ControlCode),
    /// The exchange is over: it failed.
    Failed(Failure),
}

/// How the link answered the operation of the current stage.
#[derive(Clone, Copy, Debug, PartialEq, Eq)]
pub enum LinkEvent {
    /// The write succeeded (`true`) or failed.
    Wrote(bool),
    /// The flush succeeded (`true`) or failed.
    Flushed(bool),
    /// The number of waiting bytes (`None` if the check failed), and the
    /// clock's reading in milliseconds since the wait began.
    Available(Option<u32>, u64),
    /// The byte read; `None` if the read failed.
    Received(Option<u8>),
    /// The pause has passed.
    Paused,
}

/// Whether `ev` answers the operation of `stage`.
pub open spec fn event_fits(stage: Stage, ev: LinkEvent) -> bool {
    match stage {
        Stage::Writing => ev is Wrote,
        Stage::Flushing => ev is Flushed,
        Stage::Checking => ev is Available,
        Stage::Pausing(_) => ev is Paused,
        Stage::Reading => ev is Received,
        Stage::Replied(_) | Stage::Failed(_) => false,
    }
}

/// Time passed by the account of both the pauses and the clock, never past
/// the timeout.
pub open spec fn caught_up(waited: u64, clock: u64, timeout: u64) -> u64 {
    if clock > waited {
        if clock > timeout {
            timeout
        } else {
            clock
        }
    } else {
        waited
    }
}

/// The stage, and the milliseconds waited, after event `ev` in `stage`.
/// A failed write or flush ends the exchange at once; so does a failed check
/// or read. A waiting byte is read, and the exchange ends with its meaning.
/// Otherwise the wait goes on as `poll_step_spec` says.
pub open spec fn next_stage_spec(stage: Stage, waited: u64, timeout: u64, ev: LinkEvent) -> (
    Stage,
    u64,
) {
    match stage {
        Stage::Writing => if ev == LinkEvent::Wrote(true) {
            (Stage::Flushing, waited)
        } else {
            (Stage::Failed(Failure::Transport(LinkOp::Write)), waited)
        },
        Stage::Flushing => if ev == LinkEvent::Flushed(true) {
            (Stage::Checking, waited)
        } else {
            (Stage::Failed(Failure::Transport(LinkOp::Flush)), waited)
        },
        Stage::Checking => match ev {
            LinkEvent::Available(a, clock) => {
                let now = caught_up(waited, clock, timeout);
                match poll_step_spec(a, now, timeout) {
                    PollStep::Read => (Stage::Reading, now),
                    PollStep::Wait(d) => (Stage::Pausing(d), now),
                    PollStep::Stop(f) => (Stage::Failed(f), now),
                }
            },
            _ => (stage, waited),
        },
        Stage::Pausing(d) => (Stage::Checking, (waited + d) as u64),
        Stage::Reading => match ev {
            LinkEvent::Received(Some(b)) => (Stage::Replied(decode_spec(b)), waited),
            _ => (Stage::Failed(Failure::Transport(LinkOp::Read)), waited),
        },
        _ => (stage, waited),
    }
}

/// One request/response exchange on the link: the bytes to send, the
/// stage reached, and the time waited so far out of the time allowed.
pub struct Exchange {
    pub bytes: Vec<u8>,
    pub stage: Stage,
    pub waited_ms: u64,
    pub timeout_ms: u64,
}

/// Order of the stages along an exchange, last first.
pub open spec fn stage_rank(stage: Stage) -> nat {
    match stage {
        Stage::Writing => 4,
        Stage::Flushing => 3,
        Stage::Checking => 2,
        Stage::Pausing(_) => 1,
        Stage::Reading => 1,
        Stage::Replied(_) | Stage::Failed(_) => 0,
    }
}

impl Exchange {
    /// The time waited stays within the time allowed, a pending pause ends
    /// within it too, a timeout comes only once all of it has passed, and
    /// an exchange fails only by the link or by a timeout.
    pub open spec fn wf(&self) -> bool {
        &&& self.waited_ms <= self.timeout_ms
        &&& self.stage matches Stage::Pausing(d) ==> 0 < d && self.waited_ms + d <= self.timeout_ms
        &&& self.stage == Stage::Failed(Failure::Timeout) ==> self.waited_ms == self.timeout_ms
        &&& self.stage matches Stage::Failed(f) ==> (f is Transport || f is Timeout)
    }

    /// What is left of the exchange; every step makes it smaller.
    pub open spec fn remaining(&self) -> nat {
        4 * (self.timeout_ms - self.waited_ms) as nat + stage_rank(self.stage)
    }

    /// An exchange that sends `bytes`, then awaits a reply for up to `timeout_ms`.
    pub fn new(bytes: Vec<u8>, timeout_ms: u64) -> (r: Exchange)
        ensures
            r.wf(),
            r.bytes@ == bytes@,
            r.stage == Stage::Writing,
            r.waited_ms == 0,
            r.timeout_ms == timeout_ms,
    {
        Exchange { bytes, stage: Stage::Writing, waited_ms: 0, timeout_ms }
    }

    /// An exchange that sends nothing and only awaits a reply.
    pub fn awaiting(timeout_ms: u64) -> (r: Exchange)
        ensures
            r.wf(),
            r.bytes@.len() == 0,
            r.stage == Stage::Checking,
            r.waited_ms == 0,
            r.timeout_ms == timeout_ms,
    {
        Exchange { bytes: Vec::new(), stage: Stage::Checking, waited_ms: 0, timeout_ms }
    }

    /// Moves the exchange on by the link's answer `ev` to the current stage.
    pub fn step(&mut self, ev: LinkEvent)
        requires
            old(self).wf(),
            event_fits(old(self).stage, ev),
        ensures
            final(self).wf(),
            (final(self).stage, final(self).waited_ms) == next_stage_spec(
                old(self).stage,
                old(self).waited_ms,
                old(self).timeout_ms,
                ev,
            ),
            final(self).bytes@ == old(self).bytes@,
            final(self).timeout_ms == old(self).timeout_ms,
            final(self).remaining() < old(self).remaining(),
    {
        match self.stage {
            Stage::Writing => {
                self.stage = if let LinkEvent::Wrote(true) = ev {
                    Stage::Flushing
                } else {
                    Stage::Failed(Failure::Transport(LinkOp::Write))
                };
            },
            Stage::Flushing => {
                self.stage = if let LinkEvent::Flushed(true) = ev {
                    Stage::Checking
                } else {
                    Stage::Failed(Failure::Transport(LinkOp::Flush))
                };
            },
            Stage::Checking => {
                if let LinkEvent::Available(a, clock) = ev {
                    let now: u64 = if clock > self.waited_ms {
                        if clock > self.timeout_ms {
                            self.timeout_ms
                        } else {
                            clock
                        }
                    } else {
                        self.waited_ms
                    };
                    proof {
                        lemma_poll_wait_bounded(a, now, self.timeout_ms);
                    }
                    self.waited_ms = now;
                    self.stage = match poll_step(a, now, self.timeout_ms) {
                        PollStep::Read => Stage::Reading,
                        PollStep::Wait(d) => Stage::Pausing(d),
                        PollStep::Stop(f) => Stage::Failed(f),
                    };
                }
            },
            Stage::Pausing(d) => {
                self.waited_ms = self.waited_ms + d;
                self.stage = Stage::Checking;
            },
            Stage::Reading => {
                self.stage = match ev {
                    LinkEvent::Received(Some(b)) => Stage::Replied(ControlCode::decode(b)),
                    _ => Stage::Failed(Failure::Transport(LinkOp::Read)),
                };
            },
            Stage::Replied(_) | Stage::Failed(_) => {},
        }
    }
}

/// The request is written once, as the first operation, and never again; a
/// failed write or flush ends the exchange with that failure before any wait.
pub proof fn lemma_exchange_sends_once(stage: Stage, waited: u64, timeout: u64, ev: LinkEvent)
    ensures
        next_stage_spec(stage, waited, timeout, ev).0 != Stage::Writing,
        stage == Stage::Writing ==> next_stage_spec(stage, waited, timeout, ev).0 == (
        if ev == LinkEvent::Wrote(true) {
            Stage::Flushing
        } else {
            Stage::Failed(Failure::Transport(LinkOp::Write))
        }),
        stage == Stage::Flushing ==> next_stage_spec(stage, waited, timeout, ev).0 == (
        if ev == LinkEvent::Flushed(true) {
            Stage::Checking
        } else {
            Stage::Failed(Failure::Transport(LinkOp::Flush))
        }),
        stage is Writing || stage is Flushing ==> next_stage_spec(stage, waited, timeout, ev).1
            == waited,
{
}

/// With nothing waiting, no byte is ever read: the exchange pauses within
/// its time, or ends with `Timeout` once all of it has passed, by the pauses
/// or by the clock. A failed check ends it at once. A byte that is read is
/// returned decoded.
pub proof fn lemma_exchange_replies(waited: u64, clock: u64, timeout: u64, b: u8)
    requires
        waited <= timeout,
    ensures
        ({
            let (s, w) = next_stage_spec(
                Stage::Checking,
                waited,
                timeout,
                LinkEvent::Available(Some(0), clock),
            );
            &&& s != Stage::Reading
            &&& s == Stage::Failed(Failure::Timeout) <==> (waited >= timeout || clock >= timeout)
            &&& s matches Stage::Pausing(d) ==> w < timeout && 0 < d && w + d <= timeout
            &&& waited <= w <= timeout
        }),
        next_stage_spec(Stage::Checking, waited, timeout, LinkEvent::Available(None, clock)).0
            == Stage::Failed(Failure::Transport(LinkOp::Availability)),
        next_stage_spec(Stage::Reading, waited, timeout, LinkEvent::Received(Some(b))) == (
        Stage::Replied(decode_spec(b)),
        waited,
        ),
{
    lemma_poll_wait_bounded(Some(0u32), caught_up(waited, clock, timeout), timeout);
}

/// Carries out `ex` on `link` until it is done: in each stage it performs
/// that stage's operation alone (`Writing`: write `ex.bytes`; `Flushing`:
/// flush; `Checking`: ask how many bytes wait, and read the clock started at
/// the first check; `Pausing(d)`: pause `d`
/// milliseconds; `Reading`: read one byte) and hands the answer to
/// `Exchange::step`. Returns the result the exchange ended with.
pub fn run_exchange<L: Link>(link: &mut L, ex: &mut Exchange) -> (r: Result<ControlCode, Failure>)
    requires
        old(ex).wf(),
    ensures
        final(ex).stage == (match r {
            Ok(c) => Stage::Replied(c),
            Err(f) => Stage::Failed(f),
        }),
        final(ex).wf(),
        final(ex).bytes@ == old(ex).bytes@,
        final(ex).timeout_ms == old(ex).timeout_ms,
        final(ex).waited_ms <= old(ex).timeout_ms,
        (old(ex).stage is Replied || old(ex).stage is Failed) ==> final(ex).stage == old(ex).stage,
{
    let mut clock: Option<Stopwatch> = None;
    loop
        invariant
            ex.wf(),
            ex.bytes@ == old(ex).bytes@,
            ex.timeout_ms == old(ex).timeout_ms,
            (old(ex).stage is Replied || old(ex).stage is Failed) ==> ex.stage == old(ex).stage,
        decreases ex.remaining(),
    {
        let ev = match ex.stage {
            Stage::Writing => LinkEvent::Wrote(link.write(ex.bytes.as_slice()).is_ok()),
            Stage::Flushing => LinkEvent::Flushed(link.flush().is_ok()),
            Stage::Checking => {
                let available = match link.bytes_available() {
                    Ok(n) => Some(n),
                    Err(_) => None,
                };
                let ms: i64 = match &clock {
                    Some(sw) => elapsed_ms(sw),
                    None => {
                        clock = Some(start_stopwatch());
                        0
                    },
                };
                LinkEvent::Available(available, if ms < 0 { 0 } else { ms as u64 })
            },
            Stage::Pausing(d) => {
                link.pause(d);
                LinkEvent::Paused
            },
            Stage::Reading => LinkEvent::Received(
                match link.read_byte() {
                    Ok(b) => Some(b),
                    Err(_) => None,
                },
            ),
            Stage::Replied(c) => {
                return Ok(c);
            },
            Stage::Failed(f) => {
                return Err(f);
            },
        };
        ex.step(ev);
    }
}

/// Waits up to `timeout_ms` for one byte of reply and returns its meaning,
/// with the milliseconds waited, by the pauses or by the clock, whichever
/// is further. With nothing received the result is `Timeout`, once exactly
/// `timeout_ms` have passed.
pub fn await_reply<L: Link>(link: &mut L, timeout_ms: u64) -> (r: (Result<ControlCode, Failure>, u64))
    ensures
        r.1 <= timeout_ms,
        r.0 == Err::<ControlCode, Failure>(Failure::Timeout) ==> r.1 == timeout_ms,
{
    let mut ex = Exchange::awaiting(timeout_ms);
    let got = run_exchange(link, &mut ex);
    (got, ex.waited_ms)
}

/// Writes `bytes` and flushes them, then awaits one byte of reply and returns
/// its meaning, by running `Exchange::new(bytes, timeout_ms)` on the link.
pub fn send_and_wait<L: Link>(link: &mut L, bytes: Vec<u8>, timeout_ms: u64) -> (r: Result<
    ControlCode,
    Failure,
>)
    ensures
        r matches Err(f) ==> (f is Transport || f is Timeout),
{
    let mut ex = Exchange::new(bytes, timeout_ms);
    run_exchange(link, &mut ex)
}

} // verus!
