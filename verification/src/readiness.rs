//! Waiting for a rebooted node to come back: first, if asked, until the
//! node is seen to disconnect (for at most a minute), then until it
//! reports `Ready` or the timeout runs out. The two waits have budgets of
//! their own: the timeout counts from the moment at which the wait for
//! readiness is entered, whatever the wait for the disconnect took.
//!
//! The wait is a state machine. The caller reads the clock and probes the
//! node when asked to, and feeds what it got back as a `WaitEvent`; the
//! pauses between the probes are the caller's to keep, too.

use crate::probe::NodeConditionStatus;
use crate::text::{append_decimal, decimal};
use vstd::prelude::*;
use vstd::string::*;

verus! {

/// Result of waiting for a node to become ready.
#[derive(Debug, Clone)]
pub struct NodeReadyResult {
    /// Whether the node became ready.
    pub success: bool,
    /// Seconds that the wait for readiness took.
    pub time_taken_secs: u64,
    /// Error message if the wait failed.
    pub error: Option<String>,
}

/// What a `NodeReadyResult` holds, every text taken as its characters.
pub struct NodeReadyResultView {
    pub success: bool,
    pub time_taken_secs: u64,
    pub error: Option<Seq<char>>,
}

impl View for NodeReadyResult {
    type V = NodeReadyResultView;

    open spec fn view(&self) -> NodeReadyResultView {
        NodeReadyResultView {
            success: self.success,
            time_taken_secs: self.time_taken_secs,
            error: self.error.deep_view(),
        }
    }
}

/// Longest wait for the node to disconnect, in seconds.
pub const DISCONNECT_TIMEOUT_SECS: u64 = 60;

/// Pause between two probes while waiting for the disconnect, in
/// milliseconds.
pub const DISCONNECT_POLL_MILLIS: u64 = 2000;

/// Pause between two probes while waiting for readiness, in milliseconds.
pub const READY_POLL_MILLIS: u64 = 5000;

/// What the caller of a wait learned.
#[derive(Debug, Clone, Copy, PartialEq, Eq, Structural)]
pub enum WaitEvent {
    /// The clock was read: so many whole seconds have passed since the
    /// wait began.
    Clock { elapsed_secs: u64 },
    /// The node was probed; `None` where the probe itself failed.
    Probed { status: Option<NodeConditionStatus> },
}

/// One thing for the caller of a wait to do. The effects of a step are
/// performed in order; a request (`ReadClock` or `Probe`), if there is
/// one, comes last, and what it yields is the next event.
#[derive(Debug, Clone)]
pub enum WaitEffect {
    /// Hand a progress line to the progress sink.
    Report(String),
    /// Sleep for this many milliseconds.
    Pause(u64),
    /// Read the seconds passed since the wait began.
    ReadClock,
    /// Read the node's readiness condition.
    Probe,
}

/// What a `WaitEffect` holds, every text taken as its characters.
pub enum WaitEffectView {
    Report(Seq<char>),
    Pause(u64),
    ReadClock,
    Probe,
}

impl View for WaitEffect {
    type V = WaitEffectView;

    open spec fn view(&self) -> WaitEffectView {
        match self {
            WaitEffect::Report(line) => WaitEffectView::Report(line@),
            WaitEffect::Pause(millis) => WaitEffectView::Pause(*millis),
            WaitEffect::ReadClock => WaitEffectView::ReadClock,
            WaitEffect::Probe => WaitEffectView::Probe,
        }
    }
}

impl DeepView for WaitEffect {
    type V = WaitEffectView;

    open spec fn deep_view(&self) -> WaitEffectView {
        self@
    }
}

/// Where a wait stands.
#[derive(Debug, Clone, Copy, PartialEq, Eq, Structural)]
pub enum WaitPhase {
    /// Waiting for the disconnect; the clock is being read.
    DisconnectClock,
    /// Waiting for the disconnect; the node is being probed, and the
    /// clock stood at `elapsed_secs` before the probe.
    DisconnectProbe { elapsed_secs: u64 },
    /// Waiting for readiness; the clock is being read.
    ReadyClock,
    /// Waiting for readiness; the node is being probed, `waited_secs`
    /// after the wait for readiness was entered.
    ReadyProbe { waited_secs: u64 },
    /// The node was seen ready, `time_taken_secs` after the wait for
    /// readiness was entered.
    Succeeded { time_taken_secs: u64 },
    /// The timeout ran out, `time_taken_secs` after the wait for
    /// readiness was entered.
    TimedOut { time_taken_secs: u64 },
}

/// The state of a wait.
pub struct WaitStateView {
    pub timeout_secs: u64,
    /// The clock reading at which the wait for readiness was entered;
    /// zero while the disconnect is waited for.
    pub entered_secs: u64,
    pub phase: WaitPhase,
}

/// The line that opens the wait for the disconnect.
pub open spec fn begin_reboot_message() -> Seq<char> {
    "Waiting for node to begin rebooting..."@
}

/// The line that tells of the observed disconnect.
pub open spec fn rebooting_message() -> Seq<char> {
    "Node is rebooting..."@
}

/// The warning of a node that was never seen to disconnect.
pub open spec fn no_disconnect_message() -> Seq<char> {
    "Warning: Node didn't appear to disconnect, continuing to wait..."@
}

/// The line that opens the wait for readiness.
pub open spec fn come_back_message() -> Seq<char> {
    "Waiting for node to come back online..."@
}

/// `Node is Ready (took Ns)`.
pub open spec fn ready_message(waited_secs: u64) -> Seq<char> {
    "Node is Ready (took "@ + decimal(waited_secs as nat) + "s)"@
}

/// `Timed out waiting for node after Ns`.
pub open spec fn timeout_message(timeout_secs: u64) -> Seq<char> {
    "Timed out waiting for node after "@ + decimal(timeout_secs as nat) + "s"@
}

/// The progress line after a probe that did not find the node ready:
/// `Node status: NotReady (Ns remaining)`, the same with `Unknown`, or
/// `Waiting for node to rejoin cluster (Ns remaining)` where the probe
/// failed.
pub open spec fn still_waiting_message(
    status: Option<NodeConditionStatus>,
    remaining_secs: nat,
) -> Seq<char> {
    match status {
        Some(NodeConditionStatus::NotReady) => "Node status: NotReady ("@ + decimal(remaining_secs)
            + "s remaining)"@,
        Some(_) => "Node status: Unknown ("@ + decimal(remaining_secs) + "s remaining)"@,
        None => "Waiting for node to rejoin cluster ("@ + decimal(remaining_secs)
            + "s remaining)"@,
    }
}

/// The seconds that the wait for readiness has lasted when the clock
/// stands at `elapsed_secs`: the seconds since it was entered, none where
/// the clock stands before that.
pub open spec fn waited_since(entered_secs: u64, elapsed_secs: u64) -> u64 {
    if elapsed_secs >= entered_secs {
        (elapsed_secs - entered_secs) as u64
    } else {
        0
    }
}

/// The effects that open the wait for readiness.
pub open spec fn enter_ready_wait() -> Seq<WaitEffectView> {
    seq![WaitEffectView::Report(come_back_message()), WaitEffectView::ReadClock]
}

/// The first state of a wait and what to do first. Without a wait for
/// the disconnect, the wait for readiness is entered at once.
pub open spec fn wait_start(timeout_secs: u64, wait_for_disconnect: bool) -> (
    WaitStateView,
    Seq<WaitEffectView>,
) {
    if wait_for_disconnect {
        (
            WaitStateView { timeout_secs, entered_secs: 0, phase: WaitPhase::DisconnectClock },
            seq![WaitEffectView::Report(begin_reboot_message()), WaitEffectView::ReadClock],
        )
    } else {
        (
            WaitStateView { timeout_secs, entered_secs: 0, phase: WaitPhase::ReadyClock },
            enter_ready_wait(),
        )
    }
}

/// The state after `event` and what to do next. An event that answers no
/// request of the current phase changes nothing.
pub open spec fn wait_step(s: WaitStateView, event: WaitEvent) -> (
    WaitStateView,
    Seq<WaitEffectView>,
) {
    match (s.phase, event) {
        (WaitPhase::DisconnectClock, WaitEvent::Clock { elapsed_secs }) => {
            if elapsed_secs < DISCONNECT_TIMEOUT_SECS {
                (
                    WaitStateView { phase: WaitPhase::DisconnectProbe { elapsed_secs }, ..s },
                    seq![WaitEffectView::Probe],
                )
            } else {
                (
                    WaitStateView {
                        phase: WaitPhase::ReadyClock,
                        entered_secs: elapsed_secs,
                        ..s
                    },
                    seq![WaitEffectView::Report(no_disconnect_message())] + enter_ready_wait(),
                )
            }
        },
        (WaitPhase::DisconnectProbe { elapsed_secs }, WaitEvent::Probed { status }) => {
            if status == Some(NodeConditionStatus::Ready) {
                (
                    WaitStateView { phase: WaitPhase::DisconnectClock, ..s },
                    seq![
                        WaitEffectView::Pause(DISCONNECT_POLL_MILLIS),
                        WaitEffectView::ReadClock,
                    ],
                )
            } else {
                (
                    WaitStateView {
                        phase: WaitPhase::ReadyClock,
                        entered_secs: elapsed_secs,
                        ..s
                    },
                    seq![WaitEffectView::Report(rebooting_message())] + enter_ready_wait(),
                )
            }
        },
        (WaitPhase::ReadyClock, WaitEvent::Clock { elapsed_secs }) => {
            let waited_secs = waited_since(s.entered_secs, elapsed_secs);
            if waited_secs >= s.timeout_secs {
                (
                    WaitStateView {
                        phase: WaitPhase::TimedOut { time_taken_secs: waited_secs },
                        ..s
                    },
                    Seq::empty(),
                )
            } else {
                (
                    WaitStateView { phase: WaitPhase::ReadyProbe { waited_secs }, ..s },
                    seq![WaitEffectView::Probe],
                )
            }
        },
        (WaitPhase::ReadyProbe { waited_secs }, WaitEvent::Probed { status }) => {
            if status == Some(NodeConditionStatus::Ready) {
                (
                    WaitStateView {
                        phase: WaitPhase::Succeeded { time_taken_secs: waited_secs },
                        ..s
                    },
                    seq![WaitEffectView::Report(ready_message(waited_secs))],
                )
            } else {
                (
                    WaitStateView { phase: WaitPhase::ReadyClock, ..s },
                    seq![
                        WaitEffectView::Report(
                            still_waiting_message(status, (s.timeout_secs - waited_secs) as nat),
                        ),
                        WaitEffectView::Pause(READY_POLL_MILLIS),
                        WaitEffectView::ReadClock,
                    ],
                )
            }
        },
        _ => (s, Seq::empty()),
    }
}

/// The result of a wait that has ended.
pub open spec fn wait_result(s: WaitStateView) -> Option<NodeReadyResultView> {
    match s.phase {
        WaitPhase::Succeeded { time_taken_secs } => Some(
            NodeReadyResultView { success: true, time_taken_secs, error: None },
        ),
        WaitPhase::TimedOut { time_taken_secs } => Some(
            NodeReadyResultView {
                success: false,
                time_taken_secs,
                error: Some(timeout_message(s.timeout_secs)),
            },
        ),
        _ => None,
    }
}

/// What holds of every state that a wait reaches.
pub open spec fn wait_state_wf(s: WaitStateView) -> bool {
    match s.phase {
        WaitPhase::DisconnectClock => s.entered_secs == 0,
        WaitPhase::DisconnectProbe { elapsed_secs } => s.entered_secs == 0 && elapsed_secs
            < DISCONNECT_TIMEOUT_SECS,
        WaitPhase::ReadyClock => true,
        WaitPhase::ReadyProbe { waited_secs } => waited_secs < s.timeout_secs,
        WaitPhase::Succeeded { time_taken_secs } => time_taken_secs < s.timeout_secs,
        WaitPhase::TimedOut { time_taken_secs } => time_taken_secs >= s.timeout_secs,
    }
}

/// A wait for a node's readiness in progress.
pub struct ReadyWait {
    timeout_secs: u64,
    entered_secs: u64,
    phase: WaitPhase,
}

impl View for ReadyWait {
    type V = WaitStateView;

    closed spec fn view(&self) -> WaitStateView {
        WaitStateView {
            timeout_secs: self.timeout_secs,
            entered_secs: self.entered_secs,
            phase: self.phase,
        }
    }
}

fn push_effect(effects: &mut Vec<WaitEffect>, effect: WaitEffect)
    ensures
        final(effects).deep_view() == old(effects).deep_view().push(effect@),
{
    effects.push(effect);
    assert(effects.deep_view() =~= old(effects).deep_view().push(effect@));
}

fn push_ready_wait(effects: &mut Vec<WaitEffect>)
    ensures
        final(effects).deep_view() == old(effects).deep_view() + enter_ready_wait(),
{
    push_effect(effects, WaitEffect::Report("Waiting for node to come back online...".to_string()));
    push_effect(effects, WaitEffect::ReadClock);
    assert(effects.deep_view() =~= old(effects).deep_view() + enter_ready_wait());
}

fn ready_line(waited_secs: u64) -> (line: String)
    ensures
        line@ == ready_message(waited_secs),
{
    let mut line = "Node is Ready (took ".to_string();
    append_decimal(&mut line, waited_secs as u128);
    line.append("s)");
    line
}

fn timeout_line(timeout_secs: u64) -> (line: String)
    ensures
        line@ == timeout_message(timeout_secs),
{
    let mut line = "Timed out waiting for node after ".to_string();
    append_decimal(&mut line, timeout_secs as u128);
    line.append("s");
    line
}

fn still_waiting_line(status: Option<NodeConditionStatus>, remaining_secs: u64) -> (line: String)
    ensures
        line@ == still_waiting_message(status, remaining_secs as nat),
{
    let mut line = match status {
        Some(NodeConditionStatus::NotReady) => "Node status: NotReady (".to_string(),
        Some(_) => "Node status: Unknown (".to_string(),
        None => "Waiting for node to rejoin cluster (".to_string(),
    };
    append_decimal(&mut line, remaining_secs as u128);
    line.append("s remaining)");
    line
}

impl ReadyWait {
    /// Begins a wait for readiness of at most `timeout_secs` seconds;
    /// with `wait_for_disconnect`, the node is first watched until it
    /// disconnects, for a minute at most and outside that budget.
    pub fn start(timeout_secs: u64, wait_for_disconnect: bool) -> (started: (
        ReadyWait,
        Vec<WaitEffect>,
    ))
        ensures
            (started.0@, started.1.deep_view()) == wait_start(timeout_secs, wait_for_disconnect),
            wait_state_wf(started.0@),
    {
        let mut effects: Vec<WaitEffect> = Vec::new();
        assert(effects.deep_view() =~= Seq::empty());
        if wait_for_disconnect {
            push_effect(
                &mut effects,
                WaitEffect::Report("Waiting for node to begin rebooting...".to_string()),
            );
            push_effect(&mut effects, WaitEffect::ReadClock);
            assert(effects.deep_view() =~= wait_start(timeout_secs, wait_for_disconnect).1);
            (
                ReadyWait { timeout_secs, entered_secs: 0, phase: WaitPhase::DisconnectClock },
                effects,
            )
        } else {
            push_ready_wait(&mut effects);
            assert(effects.deep_view() =~= wait_start(timeout_secs, wait_for_disconnect).1);
            (ReadyWait { timeout_secs, entered_secs: 0, phase: WaitPhase::ReadyClock }, effects)
        }
    }

    /// Takes what the last request yielded and hands out what to do next.
    pub fn step(&mut self, event: WaitEvent) -> (effects: Vec<WaitEffect>)
        requires
            wait_state_wf(old(self)@),
        ensures
            (final(self)@, effects.deep_view()) == wait_step(old(self)@, event),
            wait_state_wf(final(self)@),
    {
        let mut effects: Vec<WaitEffect> = Vec::new();
        assert(effects.deep_view() =~= Seq::empty());
        match (self.phase, event) {
            (WaitPhase::DisconnectClock, WaitEvent::Clock { elapsed_secs }) => {
                if elapsed_secs < DISCONNECT_TIMEOUT_SECS {
                    self.phase = WaitPhase::DisconnectProbe { elapsed_secs };
                    push_effect(&mut effects, WaitEffect::Probe);
                } else {
                    self.phase = WaitPhase::ReadyClock;
                    self.entered_secs = elapsed_secs;
                    push_effect(
                        &mut effects,
                        WaitEffect::Report(
                            "Warning: Node didn't appear to disconnect, continuing to wait...".to_string(),
                        ),
                    );
                    push_ready_wait(&mut effects);
                }
            },
            (WaitPhase::DisconnectProbe { elapsed_secs }, WaitEvent::Probed { status }) => {
                let ready = match status {
                    Some(NodeConditionStatus::Ready) => true,
                    _ => false,
                };
                if ready {
                    self.phase = WaitPhase::DisconnectClock;
                    push_effect(&mut effects, WaitEffect::Pause(DISCONNECT_POLL_MILLIS));
                    push_effect(&mut effects, WaitEffect::ReadClock);
                } else {
                    self.phase = WaitPhase::ReadyClock;
                    self.entered_secs = elapsed_secs;
                    push_effect(&mut effects, WaitEffect::Report("Node is rebooting...".to_string()));
                    push_ready_wait(&mut effects);
                }
            },
            (WaitPhase::ReadyClock, WaitEvent::Clock { elapsed_secs }) => {
                let waited_secs: u64 = if elapsed_secs >= self.entered_secs {
                    elapsed_secs - self.entered_secs
                } else {
                    0
                };
                if waited_secs >= self.timeout_secs {
                    self.phase = WaitPhase::TimedOut { time_taken_secs: waited_secs };
                } else {
                    self.phase = WaitPhase::ReadyProbe { waited_secs };
                    push_effect(&mut effects, WaitEffect::Probe);
                }
            },
            (WaitPhase::ReadyProbe { waited_secs }, WaitEvent::Probed { status }) => {
                let ready = match status {
                    Some(NodeConditionStatus::Ready) => true,
                    _ => false,
                };
                if ready {
                    self.phase = WaitPhase::Succeeded { time_taken_secs: waited_secs };
                    push_effect(&mut effects, WaitEffect::Report(ready_line(waited_secs)));
                } else {
                    self.phase = WaitPhase::ReadyClock;
                    let remaining: u64 = self.timeout_secs - waited_secs;
                    push_effect(
                        &mut effects,
                        WaitEffect::Report(still_waiting_line(status, remaining)),
                    );
                    push_effect(&mut effects, WaitEffect::Pause(READY_POLL_MILLIS));
                    push_effect(&mut effects, WaitEffect::ReadClock);
                }
            },
            _ => {},
        }
        assert(effects.deep_view() =~= wait_step(old(self)@, event).1);
        effects
    }

    /// The result of the wait, once it has ended.
    pub fn result(&self) -> (result: Option<NodeReadyResult>)
        ensures
            result.is_some() == wait_result(self@).is_some(),
            result matches Some(r) ==> wait_result(self@) == Some(r@),
    {
        match self.phase {
            WaitPhase::Succeeded { time_taken_secs } => Some(
                NodeReadyResult { success: true, time_taken_secs, error: None },
            ),
            WaitPhase::TimedOut { time_taken_secs } => Some(
                NodeReadyResult {
                    success: false,
                    time_taken_secs,
                    error: Some(timeout_line(self.timeout_secs)),
                },
            ),
            _ => None,
        }
    }
}

/// A step keeps a well-formed state well-formed and the timeout as it
/// is.
pub proof fn wait_step_preserves_wf(s: WaitStateView, event: WaitEvent)
    requires
        wait_state_wf(s),
    ensures
        wait_state_wf(wait_step(s, event).0),
        wait_step(s, event).0.timeout_secs == s.timeout_secs,
{
}

/// A wait that ends without success took at least the timeout and says
/// why it failed; one that ends with success took less than the timeout
/// and names no error. Both times count from the moment at which the
/// wait for readiness was entered.
pub proof fn result_respects_timeout(s: WaitStateView)
    requires
        wait_state_wf(s),
        wait_result(s) is Some,
    ensures
        !wait_result(s)->0.success ==> wait_result(s)->0.time_taken_secs >= s.timeout_secs
            && wait_result(s)->0.error is Some,
        wait_result(s)->0.success ==> wait_result(s)->0.time_taken_secs < s.timeout_secs
            && wait_result(s)->0.error is None,
{
}

/// The wait succeeds the moment `Ready` is first observed while waiting
/// for readiness, with the time that the wait for readiness had lasted
/// at the clock reading before the probe.
pub proof fn ready_observation_ends_the_wait(s: WaitStateView, waited_secs: u64)
    requires
        wait_state_wf(s),
        s.phase == (WaitPhase::ReadyProbe { waited_secs }),
    ensures
        wait_result(
            wait_step(s, WaitEvent::Probed { status: Some(NodeConditionStatus::Ready) }).0,
        ) == Some(NodeReadyResultView { success: true, time_taken_secs: waited_secs, error: None }),
        waited_secs < s.timeout_secs,
{
}

/// While waiting for readiness, the wait times out exactly at a clock
/// reading that stands the timeout or more past the reading at which the
/// wait for readiness was entered; a probe that does not find the node
/// ready, or that fails, never ends it. The wait succeeds exactly at a
/// probe that finds the node ready.
pub proof fn only_the_timeout_fails_the_wait(s: WaitStateView, event: WaitEvent)
    requires
        wait_state_wf(s),
        wait_result(s) is None,
    ensures
        wait_step(s, event).0.phase is TimedOut <==> s.phase is ReadyClock && event is Clock
            && waited_since(s.entered_secs, event->elapsed_secs) >= s.timeout_secs,
        wait_step(s, event).0.phase is TimedOut ==> wait_step(
            s,
            event,
        ).0.phase->TimedOut_time_taken_secs == waited_since(s.entered_secs, event->elapsed_secs),
        wait_step(s, event).0.phase is Succeeded <==> s.phase is ReadyProbe && event
            == (WaitEvent::Probed { status: Some(NodeConditionStatus::Ready) }),
{
}

/// A wait that has ended stays as it is.
pub proof fn ended_wait_is_final(s: WaitStateView, event: WaitEvent)
    requires
        wait_result(s) is Some,
    ensures
        wait_step(s, event) == (s, Seq::<WaitEffectView>::empty()),
{
}

/// The wait for the disconnect lasts a minute at most: the first clock
/// reading at or past the minute ends it, with a warning, though the
/// node was never seen to disconnect; the wait for readiness is entered
/// at that reading.
pub proof fn disconnect_wait_is_bounded(s: WaitStateView, elapsed_secs: u64)
    requires
        s.phase is DisconnectClock,
        elapsed_secs >= DISCONNECT_TIMEOUT_SECS,
    ensures
        wait_step(s, WaitEvent::Clock { elapsed_secs }).0.phase is ReadyClock,
        wait_step(s, WaitEvent::Clock { elapsed_secs }).0.entered_secs == elapsed_secs,
        wait_step(s, WaitEvent::Clock { elapsed_secs }).1[0] == WaitEffectView::Report(
            no_disconnect_message(),
        ),
{
}

/// While waiting for the disconnect, any probe that does not find the
/// node ready, a failed probe too, ends that wait at once; the wait for
/// readiness is entered at the clock reading before the probe.
pub proof fn disconnect_is_observed(
    s: WaitStateView,
    elapsed_secs: u64,
    status: Option<NodeConditionStatus>,
)
    requires
        s.phase == (WaitPhase::DisconnectProbe { elapsed_secs }),
        status != Some(NodeConditionStatus::Ready),
    ensures
        wait_step(s, WaitEvent::Probed { status }).0.phase is ReadyClock,
        wait_step(s, WaitEvent::Probed { status }).0.entered_secs == elapsed_secs,
{
}

/// The wait for readiness has a budget of its own. However long the wait
/// for the disconnect took, a clock reading less than the timeout past
/// its end leads to a probe, and a node found ready at that probe ends
/// the wait in success: a node that never visibly disconnects is no
/// failure.
pub proof fn readiness_budget_starts_at_entry(
    s: WaitStateView,
    left_at_secs: u64,
    read_at_secs: u64,
)
    requires
        wait_state_wf(s),
        s.phase is DisconnectClock,
        left_at_secs >= DISCONNECT_TIMEOUT_SECS,
        waited_since(left_at_secs, read_at_secs) < s.timeout_secs,
    ensures
        ({
            let entered = wait_step(s, WaitEvent::Clock { elapsed_secs: left_at_secs }).0;
            let probing = wait_step(entered, WaitEvent::Clock { elapsed_secs: read_at_secs });
            let ended = wait_step(
                probing.0,
                WaitEvent::Probed { status: Some(NodeConditionStatus::Ready) },
            ).0;
            &&& probing.0.phase == (WaitPhase::ReadyProbe {
                waited_secs: waited_since(left_at_secs, read_at_secs),
            })
            &&& probing.1 == seq![WaitEffectView::Probe]
            &&& wait_result(ended) == Some(
                NodeReadyResultView {
                    success: true,
                    time_taken_secs: waited_since(left_at_secs, read_at_secs),
                    error: None,
                },
            )
        }),
{
}

} // verus!
