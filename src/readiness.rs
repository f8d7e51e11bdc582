//! The startup protocol: reserve the address, then probe the server's own
//! address until it answers, and report readiness or give up.
//!
//! The decisions are a transition function from a state and an event to the
//! next state and an action; the caller performs the action (sleep and send
//! a request, announce, exit) and reports the event it observed.

use vstd::prelude::*;

verus! {

/// How many failed probes are tolerated; the one after that ends startup.
pub const PROBE_ATTEMPT_LIMIT: u32 = 60;

/// The seconds to wait before each probe.
pub const PROBE_INTERVAL_SECONDS: u64 = 2;

/// The process exit code of every unrecoverable startup failure.
pub const EXIT_STARTUP_FAILURE: i32 = 10;

/// Where startup stands.
#[derive(PartialEq, Eq, Structural, Clone, Copy, Debug)]
pub enum Readiness {
    /// The address has not been reserved yet.
    Binding,
    /// The server is being probed; `failed` probes went unanswered so far.
    Probing { failed: u32 },
    /// The server answered.
    Ready,
    /// Startup failed.
    Failed,
}

/// What was observed.
#[derive(PartialEq, Eq, Structural, Clone, Copy, Debug)]
pub enum StartupEvent {
    /// The address was reserved.
    BindOk,
    /// The address could not be reserved.
    BindFailed,
    /// A probe got a response with this status.
    Response { status: u16 },
    /// A probe got no response.
    NoResponse,
}

/// What to do next.
#[derive(PartialEq, Eq, Structural, Clone, Copy, Debug)]
pub enum StartupAction {
    /// Wait the probe interval, then send one probe request.
    Probe,
    /// Report that the server has started, opening a browser if asked to.
    Announce { open_browser: bool },
    /// Report the failure and end the process with this code.
    Exit { code: i32 },
    /// Nothing.
    Idle,
}

/// A status that proves the server is answering.
pub open spec fn recognized(status: u16) -> bool {
    status == 200 || status == 404
}

/// A probe that did not prove the server is answering.
pub open spec fn probe_missed(e: StartupEvent) -> bool {
    match e {
        StartupEvent::NoResponse => true,
        StartupEvent::Response { status } => !recognized(status),
        _ => false,
    }
}

/// The transition on one event. Events that do not belong to a state leave
/// it as it is and call for nothing.
pub open spec fn next(s: Readiness, e: StartupEvent, open_browser: bool) -> (Readiness, StartupAction) {
    match s {
        Readiness::Binding => match e {
            StartupEvent::BindOk => (Readiness::Probing { failed: 0 }, StartupAction::Probe),
            StartupEvent::BindFailed => (
                Readiness::Failed,
                StartupAction::Exit { code: EXIT_STARTUP_FAILURE },
            ),
            _ => (s, StartupAction::Idle),
        },
        Readiness::Probing { failed } => match e {
            StartupEvent::Response { status } if recognized(status) => (
                Readiness::Ready,
                StartupAction::Announce { open_browser },
            ),
            StartupEvent::Response { .. } | StartupEvent::NoResponse => {
                if failed + 1 > PROBE_ATTEMPT_LIMIT {
                    (Readiness::Failed, StartupAction::Exit { code: EXIT_STARTUP_FAILURE })
                } else {
                    (Readiness::Probing { failed: (failed + 1) as u32 }, StartupAction::Probe)
                }
            },
            _ => (s, StartupAction::Idle),
        },
        Readiness::Ready | Readiness::Failed => (s, StartupAction::Idle),
    }
}

/// Takes one step of the startup protocol.
pub fn step(state: Readiness, event: StartupEvent, open_browser: bool) -> (r: (Readiness, StartupAction))
    ensures
        r == next(state, event, open_browser),
{
    match state {
        Readiness::Binding => match event {
            StartupEvent::BindOk => (Readiness::Probing { failed: 0 }, StartupAction::Probe),
            StartupEvent::BindFailed => (
                Readiness::Failed,
                StartupAction::Exit { code: EXIT_STARTUP_FAILURE },
            ),
            _ => (state, StartupAction::Idle),
        },
        Readiness::Probing { failed } => match event {
            StartupEvent::Response { status } if status == 200 || status == 404 => (
                Readiness::Ready,
                StartupAction::Announce { open_browser },
            ),
            StartupEvent::Response { .. } | StartupEvent::NoResponse => {
                if failed >= PROBE_ATTEMPT_LIMIT {
                    (Readiness::Failed, StartupAction::Exit { code: EXIT_STARTUP_FAILURE })
                } else {
                    (Readiness::Probing { failed: failed + 1 }, StartupAction::Probe)
                }
            },
            _ => (state, StartupAction::Idle),
        },
        Readiness::Ready | Readiness::Failed => (state, StartupAction::Idle),
    }
}

/// The state after a sequence of events, and how many probes were requested
/// on the way.
pub open spec fn run(s: Readiness, events: Seq<StartupEvent>, open_browser: bool) -> (Readiness, nat)
    decreases events.len(),
{
    if events.len() == 0 {
        (s, 0)
    } else {
        let (s1, a) = next(s, events[0], open_browser);
        let (sf, n) = run(s1, events.drop_first(), open_browser);
        (sf, if a is Probe { n + 1 } else { n })
    }
}

/// Ready and failed are final: no event leaves them or requests a probe.
pub proof fn lemma_final_states(s: Readiness, events: Seq<StartupEvent>, open_browser: bool)
    requires
        s is Ready || s is Failed,
    ensures
        run(s, events, open_browser) == (s, 0nat),
    decreases events.len(),
{
    if events.len() > 0 {
        lemma_final_states(s, events.drop_first(), open_browser);
    }
}

/// Missed probes within the limit keep probing, one new probe per miss.
pub proof fn lemma_missed_probes(
    failed: u32,
    misses: Seq<StartupEvent>,
    rest: Seq<StartupEvent>,
    open_browser: bool,
)
    requires
        forall|i: int| 0 <= i < misses.len() ==> probe_missed(#[trigger] misses[i]),
        failed + misses.len() <= PROBE_ATTEMPT_LIMIT,
    ensures
        ({
            let (s, n) = run(Readiness::Probing { failed: (failed + misses.len()) as u32 }, rest, open_browser);
            run(Readiness::Probing { failed }, misses + rest, open_browser) == (s, n + misses.len())
        }),
    decreases misses.len(),
{
    if misses.len() > 0 {
        assert(probe_missed(misses[0]));
        assert((misses + rest)[0] == misses[0]);
        assert((misses + rest).drop_first() =~= misses.drop_first() + rest);
        lemma_missed_probes((failed + 1) as u32, misses.drop_first(), rest, open_browser);
    } else {
        assert(misses + rest =~= rest);
    }
}

/// Once probing has begun, the first response with status `200` or `404`
/// makes the server ready, with one probe requested per earlier miss, and no
/// probe is requested after it, whatever is observed next.
pub proof fn lemma_ready_on_first_recognized(
    failed: u32,
    misses: Seq<StartupEvent>,
    status: u16,
    rest: Seq<StartupEvent>,
    open_browser: bool,
)
    requires
        forall|i: int| 0 <= i < misses.len() ==> probe_missed(#[trigger] misses[i]),
        failed + misses.len() <= PROBE_ATTEMPT_LIMIT,
        recognized(status),
    ensures
        next(
            Readiness::Probing { failed: (failed + misses.len()) as u32 },
            StartupEvent::Response { status },
            open_browser,
        ) == (Readiness::Ready, StartupAction::Announce { open_browser }),
        run(
            Readiness::Probing { failed },
            misses + seq![StartupEvent::Response { status }] + rest,
            open_browser,
        ) == (Readiness::Ready, misses.len()),
{
    let tail = seq![StartupEvent::Response { status }] + rest;
    assert(misses + seq![StartupEvent::Response { status }] + rest =~= misses + tail);
    lemma_missed_probes(failed, misses, tail, open_browser);
    assert(tail.drop_first() =~= rest);
    lemma_final_states(Readiness::Ready, rest, open_browser);
}

/// When the address cannot be reserved, startup fails at once with the
/// startup exit code, and no probe is ever requested.
pub proof fn lemma_bind_failure_exits(rest: Seq<StartupEvent>, open_browser: bool)
    ensures
        next(Readiness::Binding, StartupEvent::BindFailed, open_browser) == (
            Readiness::Failed,
            StartupAction::Exit { code: EXIT_STARTUP_FAILURE },
        ),
        run(Readiness::Binding, seq![StartupEvent::BindFailed] + rest, open_browser) == (
            Readiness::Failed,
            0nat,
        ),
{
    assert((seq![StartupEvent::BindFailed] + rest).drop_first() =~= rest);
    lemma_final_states(Readiness::Failed, rest, open_browser);
}

/// After the address is reserved, sixty-one probes that all miss end startup
/// in failure: sixty-one probes are requested, and none after.
pub proof fn lemma_gives_up_after_limit(
    misses: Seq<StartupEvent>,
    rest: Seq<StartupEvent>,
    open_browser: bool,
)
    requires
        misses.len() == PROBE_ATTEMPT_LIMIT + 1,
        forall|i: int| 0 <= i < misses.len() ==> probe_missed(#[trigger] misses[i]),
    ensures
        run(Readiness::Binding, seq![StartupEvent::BindOk] + misses + rest, open_browser) == (
            Readiness::Failed,
            (PROBE_ATTEMPT_LIMIT + 1) as nat,
        ),
{
    let first = misses.subrange(0, PROBE_ATTEMPT_LIMIT as int);
    let last = misses[PROBE_ATTEMPT_LIMIT as int];
    let tail = seq![last] + rest;
    assert(misses =~= first.push(last));
    assert(forall|i: int| 0 <= i < first.len() ==> #[trigger] first[i] == misses[i]);
    lemma_missed_probes(0, first, tail, open_browser);
    assert(probe_missed(last));
    assert(tail.drop_first() =~= rest);
    lemma_final_states(Readiness::Failed, rest, open_browser);
    let all = seq![StartupEvent::BindOk] + misses + rest;
    assert(all.drop_first() =~= first + tail);
}

} // verus!
