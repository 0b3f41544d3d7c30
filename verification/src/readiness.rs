//! Waiting until a launched server accepts connections.
//!
//! The wait alternates between reading a clock, attempting a connection and
//! pausing. A [`ReadinessWait`] owns the decisions and none of the waiting:
//! it names the next action, the caller performs it and reports what
//! happened. The wait has two outcomes only, ready and not ready, and once
//! it has reached one nothing changes it. It cannot be cancelled.

use vstd::prelude::*;
use vstd::string::StringExecFns;

verus! {

/// How long, in milliseconds, the wait pauses after a failed attempt.
pub const POLL_INTERVAL_MILLIS: u64 = 200;

/// The warning issued when the server did not become ready in time.
pub const READINESS_WARNING: &'static str = "Warning: Bun server did not start within 15 seconds";

/// Where the wait stands.
#[derive(Clone, Copy, Debug, PartialEq, Eq, Structural)]
pub enum WaitPhase {
    /// Waiting to learn how much time has passed since the wait began.
    Timing,
    /// Waiting for the outcome of a connection attempt.
    Probing,
    /// Waiting for the pause after a failed attempt to end.
    Pausing,
    /// The wait is over.
    Finished { ready: bool },
}

/// What the caller reports back.
#[derive(Clone, Copy, Debug, PartialEq, Eq, Structural)]
pub enum WaitEvent {
    /// The time since the wait began, in whole seconds, rounded down. With a
    /// timeout of whole seconds, comparing these is exact.
    Elapsed { secs: u64 },
    /// A connection attempt ended; `connected` says whether it succeeded.
    Probed { connected: bool },
    /// The pause ended.
    Paused,
}

/// What the caller is asked to do next.
#[derive(Clone, Copy, Debug, PartialEq, Eq, Structural)]
pub enum WaitAction {
    /// Report the time since the wait began.
    ReadClock,
    /// Attempt a connection to `port` on the local host and report the
    /// outcome.
    Connect { port: u16 },
    /// Pause for `millis` milliseconds and report back.
    Sleep { millis: u64 },
    /// Stop waiting; `ready` is the outcome.
    Finish { ready: bool },
}

/// Mathematical model of a [`ReadinessWait`].
pub struct WaitView {
    /// The port to connect to.
    pub port: u16,
    /// Seconds after which the wait gives up.
    pub timeout_secs: u64,
    /// Where the wait stands.
    pub phase: WaitPhase,
}

impl WaitView {
    /// A wait at its start.
    pub open spec fn initial(port: u16, timeout_secs: u64) -> WaitView {
        WaitView { port, timeout_secs, phase: WaitPhase::Timing }
    }

    /// The phase that follows when `event` is reported.
    ///
    /// A clock reading below the timeout leads to an attempt, any other
    /// reading ends the wait as not ready. A successful attempt ends the
    /// wait as ready, a failed one leads to a pause, and the end of the pause
    /// to the next clock reading. An event that does not answer the pending
    /// action is ignored.
    pub open spec fn next_phase(self, event: WaitEvent) -> WaitPhase {
        match (self.phase, event) {
            (WaitPhase::Timing, WaitEvent::Elapsed { secs }) => if secs < self.timeout_secs {
                WaitPhase::Probing
            } else {
                WaitPhase::Finished { ready: false }
            },
            (WaitPhase::Probing, WaitEvent::Probed { connected }) => if connected {
                WaitPhase::Finished { ready: true }
            } else {
                WaitPhase::Pausing
            },
            (WaitPhase::Pausing, WaitEvent::Paused) => WaitPhase::Timing,
            _ => self.phase,
        }
    }

    /// The state after `event` is reported.
    pub open spec fn step(self, event: WaitEvent) -> WaitView {
        WaitView { phase: self.next_phase(event), ..self }
    }

    /// The action whose report is awaited.
    pub open spec fn pending(self) -> WaitAction {
        match self.phase {
            WaitPhase::Timing => WaitAction::ReadClock,
            WaitPhase::Probing => WaitAction::Connect { port: self.port },
            WaitPhase::Pausing => WaitAction::Sleep { millis: POLL_INTERVAL_MILLIS },
            WaitPhase::Finished { ready } => WaitAction::Finish { ready },
        }
    }

    /// The state after all of `events` are reported, in order.
    pub open spec fn replay(self, events: Seq<WaitEvent>) -> WaitView
        decreases events.len(),
    {
        if events.len() == 0 {
            self
        } else {
            self.replay(events.drop_last()).step(events.last())
        }
    }
}

/// The warnings that the end of the wait calls for: one when the server is
/// not ready, none when it is.
pub open spec fn warning_for(ready: bool) -> Option<Seq<char>> {
    if ready {
        None
    } else {
        Some(READINESS_WARNING@)
    }
}

/// One turn of the wait as the caller lives through it: the clock reading
/// that opens it, and the outcome of the attempt made if time was left.
pub struct Round {
    pub elapsed_secs: u64,
    pub connected: bool,
}

/// The events of a caller that goes through `rounds` in order and, for each,
/// reports a clock reading, an attempt and a pause.
pub open spec fn reports(rounds: Seq<Round>) -> Seq<WaitEvent>
    decreases rounds.len(),
{
    if rounds.len() == 0 {
        Seq::empty()
    } else {
        reports(rounds.drop_last()).push(
            WaitEvent::Elapsed { secs: rounds.last().elapsed_secs },
        ).push(WaitEvent::Probed { connected: rounds.last().connected }).push(WaitEvent::Paused)
    }
}

/// Every round before round `i` had time left and failed to connect.
pub open spec fn undecided_before(timeout_secs: u64, rounds: Seq<Round>, i: int) -> bool {
    forall|j: int|
        0 <= j < i ==> (#[trigger] rounds[j]).elapsed_secs < timeout_secs && !rounds[j].connected
}

/// Round `i` is the first to decide the wait, by connecting with time left.
pub open spec fn connects_at(timeout_secs: u64, rounds: Seq<Round>, i: int) -> bool {
    &&& 0 <= i < rounds.len()
    &&& undecided_before(timeout_secs, rounds, i)
    &&& rounds[i].elapsed_secs < timeout_secs
    &&& rounds[i].connected
}

/// Round `i` is the first to decide the wait, by opening with no time left.
pub open spec fn times_out_at(timeout_secs: u64, rounds: Seq<Round>, i: int) -> bool {
    &&& 0 <= i < rounds.len()
    &&& undecided_before(timeout_secs, rounds, i)
    &&& rounds[i].elapsed_secs >= timeout_secs
}

/// Reporting one more event is one more step.
pub proof fn lemma_replay_push(wait: WaitView, events: Seq<WaitEvent>, event: WaitEvent)
    ensures
        wait.replay(events.push(event)) == wait.replay(events).step(event),
{
    assert(events.push(event).drop_last() =~= events);
}

/// The outcome is decided once: a wait that is over ignores every event.
pub proof fn lemma_finished_is_final(wait: WaitView, events: Seq<WaitEvent>)
    requires
        wait.phase is Finished,
    ensures
        wait.replay(events) == wait,
    decreases events.len(),
{
    if events.len() > 0 {
        lemma_finished_is_final(wait, events.drop_last());
    }
}

/// A wait never changes the port it connects to or the time it allows.
pub proof fn lemma_replay_keeps_settings(wait: WaitView, events: Seq<WaitEvent>)
    ensures
        wait.replay(events).port == wait.port,
        wait.replay(events).timeout_secs == wait.timeout_secs,
    decreases events.len(),
{
    if events.len() > 0 {
        lemma_replay_keeps_settings(wait, events.drop_last());
    }
}

/// The server is never taken for ready unless an attempt connected:
/// whatever is reported, and in whatever order, a wait that is not yet
/// ready does not become so without the report of a successful attempt.
pub proof fn lemma_ready_needs_connection(wait: WaitView, events: Seq<WaitEvent>)
    requires
        wait.phase != (WaitPhase::Finished { ready: true }),
        forall|i: int|
            0 <= i < events.len() ==> events[i] != (WaitEvent::Probed { connected: true }),
    ensures
        wait.replay(events).phase != (WaitPhase::Finished { ready: true }),
    decreases events.len(),
{
    if events.len() > 0 {
        lemma_ready_needs_connection(wait, events.drop_last());
        assert(events.last() == events[events.len() - 1]);
    }
}

/// The event is a clock reading at or past the timeout.
pub open spec fn reads_time_up(timeout_secs: u64, event: WaitEvent) -> bool {
    event matches WaitEvent::Elapsed { secs } && secs >= timeout_secs
}

/// The wait is never given up before the time is up: whatever is
/// reported, and in whatever order, it does not end as not ready without a
/// clock reading at or past the timeout.
pub proof fn lemma_not_ready_needs_timeout(wait: WaitView, events: Seq<WaitEvent>)
    requires
        wait.phase != (WaitPhase::Finished { ready: false }),
        forall|i: int| 0 <= i < events.len() ==> !reads_time_up(wait.timeout_secs, events[i]),
    ensures
        wait.replay(events).phase != (WaitPhase::Finished { ready: false }),
    decreases events.len(),
{
    if events.len() > 0 {
        lemma_not_ready_needs_timeout(wait, events.drop_last());
        lemma_replay_keeps_settings(wait, events.drop_last());
        assert(events.last() == events[events.len() - 1]);
    }
}

/// The wait does what a loop of rounds does. Reported round by round from
/// its start, it ends as ready at the first round that connects with time
/// left, ends as not ready at the first round that opens with no time left,
/// and while neither has happened it stands ready for the next round.
pub proof fn lemma_wait_follows_rounds(port: u16, timeout_secs: u64, rounds: Seq<Round>)
    ensures
        ({
            let end = WaitView::initial(port, timeout_secs).replay(reports(rounds));
            let ready = WaitPhase::Finished { ready: true };
            let not_ready = WaitPhase::Finished { ready: false };
            &&& (exists|i: int| connects_at(timeout_secs, rounds, i)) ==> end.phase == ready
            &&& (exists|i: int| times_out_at(timeout_secs, rounds, i)) ==> end.phase == not_ready
            &&& undecided_before(timeout_secs, rounds, rounds.len() as int) ==> end.phase
                == WaitPhase::Timing
        }),
    decreases rounds.len(),
{
    let start = WaitView::initial(port, timeout_secs);
    if rounds.len() > 0 {
        let earlier = rounds.drop_last();
        let last = rounds.last();
        let n = earlier.len() as int;
        let clock = WaitEvent::Elapsed { secs: last.elapsed_secs };
        let attempt = WaitEvent::Probed { connected: last.connected };
        let before = start.replay(reports(earlier));

        lemma_wait_follows_rounds(port, timeout_secs, earlier);
        lemma_replay_keeps_settings(start, reports(earlier));
        lemma_replay_push(start, reports(earlier), clock);
        lemma_replay_push(start, reports(earlier).push(clock), attempt);
        lemma_replay_push(start, reports(earlier).push(clock).push(attempt), WaitEvent::Paused);
        let after = start.replay(reports(rounds));
        assert(after == before.step(clock).step(attempt).step(WaitEvent::Paused));

        assert(forall|j: int| 0 <= j < n ==> earlier[j] == rounds[j]);
        assert(forall|i: int|
            connects_at(timeout_secs, earlier, i) ==> connects_at(timeout_secs, rounds, i));
        assert(forall|i: int|
            times_out_at(timeout_secs, earlier, i) ==> times_out_at(timeout_secs, rounds, i));

        if undecided_before(timeout_secs, earlier, n) {
            // The last round decides, or nothing has.
            assert(before.phase == WaitPhase::Timing);
            assert(undecided_before(timeout_secs, rounds, n));
            assert forall|i: int| connects_at(timeout_secs, rounds, i) implies i == n by {
                if i < n {
                    assert(earlier[i] == rounds[i]);
                }
            }
            assert forall|i: int| times_out_at(timeout_secs, rounds, i) implies i == n by {
                if i < n {
                    assert(earlier[i] == rounds[i]);
                }
            }
            if undecided_before(timeout_secs, rounds, rounds.len() as int) {
                assert(rounds[n].elapsed_secs < timeout_secs && !rounds[n].connected);
            }
        } else {
            // An earlier round decided, and the first such round is the
            // same whether or not the last round is counted.
            let j = choose|j: int|
                0 <= j < n && !((#[trigger] earlier[j]).elapsed_secs < timeout_secs
                    && !earlier[j].connected);
            lemma_first_deciding_round(timeout_secs, earlier, j);
            let k = choose|k: int|
                connects_at(timeout_secs, earlier, k) || times_out_at(timeout_secs, earlier, k);
            assert(before.phase is Finished);
            assert(connects_at(timeout_secs, rounds, k) || times_out_at(timeout_secs, rounds, k));
            assert(!undecided_before(timeout_secs, rounds, rounds.len() as int)) by {
                assert(rounds[j] == earlier[j]);
            }
            assert forall|i: int| connects_at(timeout_secs, rounds, i) implies connects_at(
                timeout_secs,
                earlier,
                k,
            ) by {
                lemma_deciding_round_unique(timeout_secs, rounds, i, k);
            }
            assert forall|i: int| times_out_at(timeout_secs, rounds, i) implies times_out_at(
                timeout_secs,
                earlier,
                k,
            ) by {
                lemma_deciding_round_unique(timeout_secs, rounds, i, k);
            }
        }
    }
}

/// If some round up to `j` did not leave the wait undecided, there is a
/// first round that decides it.
pub proof fn lemma_first_deciding_round(timeout_secs: u64, rounds: Seq<Round>, j: int)
    requires
        0 <= j < rounds.len(),
        !(rounds[j].elapsed_secs < timeout_secs && !rounds[j].connected),
    ensures
        exists|k: int|
            0 <= k <= j && (connects_at(timeout_secs, rounds, k) || times_out_at(
                timeout_secs,
                rounds,
                k,
            )),
    decreases j,
{
    if undecided_before(timeout_secs, rounds, j) {
        assert(connects_at(timeout_secs, rounds, j) || times_out_at(timeout_secs, rounds, j));
    } else {
        let i = choose|i: int|
            0 <= i < j && !((#[trigger] rounds[i]).elapsed_secs < timeout_secs
                && !rounds[i].connected);
        lemma_first_deciding_round(timeout_secs, rounds, i);
    }
}

/// Only one round decides the wait, and only one way.
pub proof fn lemma_deciding_round_unique(timeout_secs: u64, rounds: Seq<Round>, i: int, k: int)
    requires
        connects_at(timeout_secs, rounds, i) || times_out_at(timeout_secs, rounds, i),
        connects_at(timeout_secs, rounds, k) || times_out_at(timeout_secs, rounds, k),
    ensures
        i == k,
        connects_at(timeout_secs, rounds, i) <==> connects_at(timeout_secs, rounds, k),
{
    if i < k {
        assert(rounds[i].elapsed_secs < timeout_secs && !rounds[i].connected);
    } else if k < i {
        assert(rounds[k].elapsed_secs < timeout_secs && !rounds[k].connected);
    }
}

/// A server that never accepts a connection before the time is up is no
/// error: once a round opens with no time left the wait is over as not
/// ready, and that outcome calls for exactly one warning.
pub proof fn lemma_timeout_warns_once(port: u16, timeout_secs: u64, rounds: Seq<Round>, late: int)
    requires
        forall|i: int| 0 <= i < rounds.len() ==> !(#[trigger] rounds[i]).connected,
        0 <= late < rounds.len(),
        rounds[late].elapsed_secs >= timeout_secs,
    ensures
        ({
            let end = WaitView::initial(port, timeout_secs).replay(reports(rounds));
            &&& end.phase == (WaitPhase::Finished { ready: false })
            &&& end.pending() == (WaitAction::Finish { ready: false })
            &&& warning_for(false) == Some(READINESS_WARNING@)
        }),
{
    lemma_first_deciding_round(timeout_secs, rounds, late);
    let k = choose|k: int|
        0 <= k <= late && (connects_at(timeout_secs, rounds, k) || times_out_at(
            timeout_secs,
            rounds,
            k,
        ));
    assert(times_out_at(timeout_secs, rounds, k));
    lemma_wait_follows_rounds(port, timeout_secs, rounds);
}

/// The state of one wait for readiness.
#[derive(Clone, Copy, Debug, PartialEq, Eq)]
pub struct ReadinessWait {
    port: u16,
    timeout_secs: u64,
    phase: WaitPhase,
}

impl View for ReadinessWait {
    type V = WaitView;

    closed spec fn view(&self) -> WaitView {
        WaitView { port: self.port, timeout_secs: self.timeout_secs, phase: self.phase }
    }
}

impl ReadinessWait {
    /// Begins a wait for a server on `port` that gives up after
    /// `timeout_secs` seconds.
    pub fn new(port: u16, timeout_secs: u64) -> (wait: ReadinessWait)
        ensures
            wait@ == WaitView::initial(port, timeout_secs),
    {
        ReadinessWait { port, timeout_secs, phase: WaitPhase::Timing }
    }

    /// Where the wait stands.
    pub fn phase(&self) -> (phase: WaitPhase)
        ensures
            phase == self@.phase,
    {
        self.phase
    }

    /// The action whose report is awaited.
    pub fn pending(&self) -> (action: WaitAction)
        ensures
            action == self@.pending(),
    {
        match self.phase {
            WaitPhase::Timing => WaitAction::ReadClock,
            WaitPhase::Probing => WaitAction::Connect { port: self.port },
            WaitPhase::Pausing => WaitAction::Sleep { millis: POLL_INTERVAL_MILLIS },
            WaitPhase::Finished { ready } => WaitAction::Finish { ready },
        }
    }

    /// Takes in what the caller reports and names the next action.
    pub fn advance(&mut self, event: WaitEvent) -> (action: WaitAction)
        ensures
            final(self)@ == old(self)@.step(event),
            action == final(self)@.pending(),
    {
        let next = match (self.phase, event) {
            (WaitPhase::Timing, WaitEvent::Elapsed { secs }) => if secs < self.timeout_secs {
                WaitPhase::Probing
            } else {
                WaitPhase::Finished { ready: false }
            },
            (WaitPhase::Probing, WaitEvent::Probed { connected }) => if connected {
                WaitPhase::Finished { ready: true }
            } else {
                WaitPhase::Pausing
            },
            (WaitPhase::Pausing, WaitEvent::Paused) => WaitPhase::Timing,
            (phase, _) => phase,
        };
        self.phase = next;
        self.pending()
    }
}

/// The warning to issue once the wait is over, if any. A server that is not
/// ready in time is no error: startup goes on, with this one warning.
pub fn readiness_warning(ready: bool) -> (warning: Option<String>)
    ensures
        warning.deep_view() == warning_for(ready),
{
    if ready {
        None
    } else {
        Some(String::from_str(READINESS_WARNING))
    }
}

} // verus!
