//! The lifecycle of one node operation: cordon, drain, reboot, wait until
//! the node is ready again, uncordon.
//!
//! The operation is a state machine. Each step hands out progress lines
//! and at most one request; the caller performs the request (through the
//! scheduler API, the node-control API, the eviction engine or the
//! readiness wait) and feeds the answer back as a `LifecycleEvent`.

use crate::cordon::{CordonResult, CordonResultView};
use crate::drain::{DrainOptions, DrainResult, DrainResultView};
use crate::readiness::{NodeReadyResult, NodeReadyResultView};
use crate::text::{append_decimal, decimal};
use vstd::prelude::*;
use vstd::string::*;

verus! {

/// Where a node operation stands.
#[derive(Debug, Clone, Copy, PartialEq, Eq, Structural)]
pub enum LifecyclePhase {
    Idle,
    /// The advisory survey of the disruption budgets is out.
    Checking,
    Cordoning,
    Draining,
    AwaitingExternalReboot,
    WaitingReady,
    Uncordoning,
    /// The operation succeeded.
    Done,
    /// The operation failed; the node stays as the failed step left it.
    Failed,
}

/// What the caller of a node operation learned.
#[derive(Debug, Clone)]
pub enum LifecycleEvent {
    /// The operation is to begin.
    Begin,
    /// The disruption budgets were surveyed: so many would block a drain;
    /// `None` where the survey failed.
    PdbsChecked { blocking: Option<usize> },
    Cordoned(CordonResult),
    Drained(DrainResult),
    /// The drain could not be begun; `error` says why.
    DrainNotRun { error: String },
    /// The node-control API answered the reboot request; `error` holds
    /// its error text where it refused.
    Rebooted { error: Option<String> },
    ReadyWaited(NodeReadyResult),
    Uncordoned(CordonResult),
}

/// What a `LifecycleEvent` holds, every text taken as its characters.
pub enum LifecycleEventView {
    Begin,
    PdbsChecked { blocking: Option<usize> },
    Cordoned(CordonResultView),
    Drained(DrainResultView),
    DrainNotRun { error: Seq<char> },
    Rebooted { error: Option<Seq<char>> },
    ReadyWaited(NodeReadyResultView),
    Uncordoned(CordonResultView),
}

impl View for LifecycleEvent {
    type V = LifecycleEventView;

    open spec fn view(&self) -> LifecycleEventView {
        match self {
            LifecycleEvent::Begin => LifecycleEventView::Begin,
            LifecycleEvent::PdbsChecked { blocking } => LifecycleEventView::PdbsChecked {
                blocking: *blocking,
            },
            LifecycleEvent::Cordoned(result) => LifecycleEventView::Cordoned(result@),
            LifecycleEvent::Drained(result) => LifecycleEventView::Drained(result@),
            LifecycleEvent::DrainNotRun { error } => LifecycleEventView::DrainNotRun {
                error: error@,
            },
            LifecycleEvent::Rebooted { error } => LifecycleEventView::Rebooted {
                error: error.deep_view(),
            },
            LifecycleEvent::ReadyWaited(result) => LifecycleEventView::ReadyWaited(result@),
            LifecycleEvent::Uncordoned(result) => LifecycleEventView::Uncordoned(result@),
        }
    }
}

/// One thing for the caller of a node operation to do. The effects of a
/// step are performed in order; a request, if there is one, comes last.
#[derive(Debug, Clone)]
pub enum LifecycleEffect {
    /// Hand a progress line to the progress sink.
    Report(String),
    /// Survey the disruption budgets.
    CheckPdbs,
    /// Cordon the node.
    Cordon,
    /// Drain the node with the operation's options.
    Drain,
    /// Ask the node-control API to reboot the node.
    Reboot,
    /// Wait until the node is ready again.
    WaitReady { timeout_secs: u64, wait_for_disconnect: bool },
    /// Uncordon the node.
    Uncordon,
}

/// What a `LifecycleEffect` holds, every text taken as its characters.
pub enum LifecycleEffectView {
    Report(Seq<char>),
    CheckPdbs,
    Cordon,
    Drain,
    Reboot,
    WaitReady { timeout_secs: u64, wait_for_disconnect: bool },
    Uncordon,
}

impl View for LifecycleEffect {
    type V = LifecycleEffectView;

    open spec fn view(&self) -> LifecycleEffectView {
        match self {
            LifecycleEffect::Report(line) => LifecycleEffectView::Report(line@),
            LifecycleEffect::CheckPdbs => LifecycleEffectView::CheckPdbs,
            LifecycleEffect::Cordon => LifecycleEffectView::Cordon,
            LifecycleEffect::Drain => LifecycleEffectView::Drain,
            LifecycleEffect::Reboot => LifecycleEffectView::Reboot,
            LifecycleEffect::WaitReady { timeout_secs, wait_for_disconnect } => {
                LifecycleEffectView::WaitReady {
                    timeout_secs: *timeout_secs,
                    wait_for_disconnect: *wait_for_disconnect,
                }
            },
            LifecycleEffect::Uncordon => LifecycleEffectView::Uncordon,
        }
    }
}

impl DeepView for LifecycleEffect {
    type V = LifecycleEffectView;

    open spec fn deep_view(&self) -> LifecycleEffectView {
        self@
    }
}

/// The state of a node operation.
pub struct LifecycleStateView {
    pub node: Seq<char>,
    pub options: DrainOptions,
    /// Whether the disruption budgets are surveyed before the cordon.
    pub pre_check: bool,
    pub phase: LifecyclePhase,
    /// Whether the operation has cordoned the node and not uncordoned it.
    pub cordoned: bool,
    /// Why the operation ended as it did; empty until it has ended.
    pub explanation: Seq<char>,
    /// The pods that the drain could not drive out.
    pub failed_pods: Seq<Seq<char>>,
    /// The pods that the drain force-deleted.
    pub force_deleted_pods: Seq<Seq<char>>,
}

/// The text of an optional error, `unknown error` without one.
pub open spec fn error_text(error: Option<Seq<char>>) -> Seq<char> {
    match error {
        Some(text) => text,
        None => "unknown error"@,
    }
}

/// The advisory lines after the survey of the disruption budgets.
pub open spec fn advisory_lines(blocking: Option<usize>) -> Seq<LifecycleEffectView> {
    match blocking {
        Some(count) => if count > 0 {
            seq![
                LifecycleEffectView::Report(
                    "Warning: "@ + decimal(count as nat)
                        + " PodDisruptionBudgets would block drain"@,
                ),
            ]
        } else {
            Seq::empty()
        },
        None => seq![
            LifecycleEffectView::Report("Warning: could not check PodDisruptionBudgets"@),
        ],
    }
}

/// `Drain failed: N pods could not be evicted; node remains cordoned`.
pub open spec fn drain_failed_message(failed: nat) -> Seq<char> {
    "Drain failed: "@ + decimal(failed) + " pods could not be evicted; node remains cordoned"@
}

/// Why a drain failed: the drain's own error where it names one, else
/// the number of pods that it could not drive out.
pub open spec fn drain_failure_explanation(result: DrainResultView) -> Seq<char> {
    match result.error {
        Some(text) => "Drain failed: "@ + text,
        None => drain_failed_message(result.failed_pods.len()),
    }
}

/// The operation ends in `phase` with `explanation`, which is reported.
pub open spec fn conclude(s: LifecycleStateView, phase: LifecyclePhase, explanation: Seq<char>) -> (
    LifecycleStateView,
    Seq<LifecycleEffectView>,
) {
    (LifecycleStateView { phase, explanation, ..s }, seq![LifecycleEffectView::Report(explanation)])
}

/// The cordon is announced and requested.
pub open spec fn begin_cordon(s: LifecycleStateView) -> (
    LifecycleStateView,
    Seq<LifecycleEffectView>,
) {
    (
        LifecycleStateView { phase: LifecyclePhase::Cordoning, ..s },
        seq![
            LifecycleEffectView::Report("Cordoning node "@ + s.node),
            LifecycleEffectView::Cordon,
        ],
    )
}

/// The node is back (or was not waited for): it is uncordoned where the
/// options ask for it, else the operation is done and the node stays
/// cordoned.
pub open spec fn after_ready(s: LifecycleStateView) -> (
    LifecycleStateView,
    Seq<LifecycleEffectView>,
) {
    if s.options.uncordon_after_reboot {
        (
            LifecycleStateView { phase: LifecyclePhase::Uncordoning, ..s },
            seq![
                LifecycleEffectView::Report("Uncordoning node "@ + s.node),
                LifecycleEffectView::Uncordon,
            ],
        )
    } else {
        conclude(s, LifecyclePhase::Done, "Node operation completed; node remains cordoned"@)
    }
}

/// The first state of an operation on `node`.
pub open spec fn lifecycle_init(node: Seq<char>, options: DrainOptions, pre_check: bool) -> LifecycleStateView {
    LifecycleStateView {
        node,
        options,
        pre_check,
        phase: LifecyclePhase::Idle,
        cordoned: false,
        explanation: Seq::empty(),
        failed_pods: Seq::empty(),
        force_deleted_pods: Seq::empty(),
    }
}

/// The state after `event` and what to do next. An event that answers no
/// request of the current phase changes nothing.
pub open spec fn lifecycle_step(s: LifecycleStateView, event: LifecycleEventView) -> (
    LifecycleStateView,
    Seq<LifecycleEffectView>,
) {
    match (s.phase, event) {
        (LifecyclePhase::Idle, LifecycleEventView::Begin) => {
            if s.pre_check {
                (
                    LifecycleStateView { phase: LifecyclePhase::Checking, ..s },
                    seq![LifecycleEffectView::CheckPdbs],
                )
            } else {
                begin_cordon(s)
            }
        },
        (LifecyclePhase::Checking, LifecycleEventView::PdbsChecked { blocking }) => {
            let (next, effects) = begin_cordon(s);
            (next, advisory_lines(blocking) + effects)
        },
        (LifecyclePhase::Cordoning, LifecycleEventView::Cordoned(result)) => {
            if result.success {
                (
                    LifecycleStateView { phase: LifecyclePhase::Draining, cordoned: true, ..s },
                    seq![
                        LifecycleEffectView::Report("Draining node "@ + s.node),
                        LifecycleEffectView::Drain,
                    ],
                )
            } else {
                conclude(
                    s,
                    LifecyclePhase::Failed,
                    "Failed to cordon node: "@ + error_text(result.error),
                )
            }
        },
        (LifecyclePhase::Draining, LifecycleEventView::Drained(result)) => {
            let drained = LifecycleStateView {
                failed_pods: result.failed_pods,
                force_deleted_pods: result.force_deleted_pods,
                ..s
            };
            if result.success {
                (
                    LifecycleStateView { phase: LifecyclePhase::AwaitingExternalReboot, ..drained },
                    seq![
                        LifecycleEffectView::Report("Rebooting node "@ + s.node),
                        LifecycleEffectView::Reboot,
                    ],
                )
            } else {
                conclude(drained, LifecyclePhase::Failed, drain_failure_explanation(result))
            }
        },
        (LifecyclePhase::Draining, LifecycleEventView::DrainNotRun { error }) => conclude(
            s,
            LifecyclePhase::Failed,
            "Drain failed: "@ + error,
        ),
        (LifecyclePhase::AwaitingExternalReboot, LifecycleEventView::Rebooted { error }) => {
            match error {
                Some(text) => conclude(s, LifecyclePhase::Failed, "Reboot failed: "@ + text),
                None => if s.options.wait_for_node_ready {
                    (
                        LifecycleStateView { phase: LifecyclePhase::WaitingReady, ..s },
                        seq![
                            LifecycleEffectView::WaitReady {
                                timeout_secs: s.options.post_reboot_timeout_secs,
                                wait_for_disconnect: true,
                            },
                        ],
                    )
                } else {
                    after_ready(s)
                },
            }
        },
        (LifecyclePhase::WaitingReady, LifecycleEventView::ReadyWaited(result)) => {
            if result.success {
                after_ready(s)
            } else {
                conclude(
                    s,
                    LifecyclePhase::Failed,
                    "Node did not become Ready: "@ + error_text(result.error),
                )
            }
        },
        (LifecyclePhase::Uncordoning, LifecycleEventView::Uncordoned(result)) => {
            if result.success {
                conclude(
                    LifecycleStateView { cordoned: false, ..s },
                    LifecyclePhase::Done,
                    "Node operation completed"@,
                )
            } else {
                conclude(
                    s,
                    LifecyclePhase::Done,
                    "Node is healthy but remains cordoned: "@ + error_text(result.error),
                )
            }
        },
        _ => (s, Seq::empty()),
    }
}

/// What holds of every state that a node operation reaches.
pub open spec fn lifecycle_state_wf(s: LifecycleStateView) -> bool {
    &&& (s.phase is Idle || s.phase is Checking || s.phase is Cordoning) ==> !s.cordoned
    &&& (s.phase is Draining || s.phase is AwaitingExternalReboot || s.phase is WaitingReady
        || s.phase is Uncordoning) ==> s.cordoned
    &&& s.phase is Checking ==> s.pre_check
    &&& s.phase is WaitingReady ==> s.options.wait_for_node_ready
    &&& s.phase is Uncordoning ==> s.options.uncordon_after_reboot
    &&& (s.phase is Done || s.phase is Failed) ==> s.explanation.len() > 0
}

/// Whether the operation has ended.
pub open spec fn is_terminal(phase: LifecyclePhase) -> bool {
    phase is Done || phase is Failed
}

/// One node operation in progress.
pub struct NodeOperation {
    node: String,
    options: DrainOptions,
    pre_check: bool,
    phase: LifecyclePhase,
    cordoned: bool,
    explanation: String,
    failed_pods: Vec<String>,
    force_deleted_pods: Vec<String>,
}

impl View for NodeOperation {
    type V = LifecycleStateView;

    closed spec fn view(&self) -> LifecycleStateView {
        LifecycleStateView {
            node: self.node@,
            options: self.options,
            pre_check: self.pre_check,
            phase: self.phase,
            cordoned: self.cordoned,
            explanation: self.explanation@,
            failed_pods: self.failed_pods.deep_view(),
            force_deleted_pods: self.force_deleted_pods.deep_view(),
        }
    }
}

fn push_effect(effects: &mut Vec<LifecycleEffect>, effect: LifecycleEffect)
    ensures
        final(effects).deep_view() == old(effects).deep_view().push(effect@),
{
    effects.push(effect);
    assert(effects.deep_view() =~= old(effects).deep_view().push(effect@));
}

fn error_or_unknown(error: &Option<String>) -> (text: &str)
    ensures
        text@ == error_text(error.deep_view()),
{
    match error {
        Some(text) => text.as_str(),
        None => "unknown error",
    }
}

fn concat(head: &str, tail: &str) -> (text: String)
    ensures
        text@ == head@ + tail@,
{
    let mut text = head.to_string();
    text.append(tail);
    text
}

impl NodeOperation {
    /// A new operation on `node`; with `pre_check`, the disruption
    /// budgets are surveyed before the node is cordoned.
    pub fn new(node: &str, options: &DrainOptions, pre_check: bool) -> (operation: NodeOperation)
        ensures
            operation@ == lifecycle_init(node@, *options, pre_check),
            lifecycle_state_wf(operation@),
    {
        let operation = NodeOperation {
            node: node.to_string(),
            options: *options,
            pre_check,
            phase: LifecyclePhase::Idle,
            cordoned: false,
            explanation: String::new(),
            failed_pods: Vec::new(),
            force_deleted_pods: Vec::new(),
        };
        assert(operation.failed_pods.deep_view() =~= Seq::empty());
        assert(operation.force_deleted_pods.deep_view() =~= Seq::empty());
        operation
    }

    fn conclude(&mut self, phase: LifecyclePhase, explanation: String, effects: &mut Vec<
        LifecycleEffect,
    >)
        ensures
            final(self)@ == conclude(old(self)@, phase, explanation@).0,
            final(effects).deep_view() == old(effects).deep_view() + conclude(
                old(self)@,
                phase,
                explanation@,
            ).1,
    {
        self.phase = phase;
        push_effect(effects, LifecycleEffect::Report(explanation.clone()));
        self.explanation = explanation;
        assert(effects.deep_view() =~= old(effects).deep_view() + conclude(
            old(self)@,
            phase,
            explanation@,
        ).1);
    }

    fn begin_cordon(&mut self, effects: &mut Vec<LifecycleEffect>)
        ensures
            final(self)@ == begin_cordon(old(self)@).0,
            final(effects).deep_view() == old(effects).deep_view() + begin_cordon(old(self)@).1,
    {
        self.phase = LifecyclePhase::Cordoning;
        push_effect(effects, LifecycleEffect::Report(concat("Cordoning node ", self.node.as_str())));
        push_effect(effects, LifecycleEffect::Cordon);
        assert(effects.deep_view() =~= old(effects).deep_view() + begin_cordon(old(self)@).1);
    }

    fn after_ready(&mut self, effects: &mut Vec<LifecycleEffect>)
        ensures
            final(self)@ == after_ready(old(self)@).0,
            final(effects).deep_view() == old(effects).deep_view() + after_ready(old(self)@).1,
    {
        if self.options.uncordon_after_reboot {
            self.phase = LifecyclePhase::Uncordoning;
            push_effect(
                effects,
                LifecycleEffect::Report(concat("Uncordoning node ", self.node.as_str())),
            );
            push_effect(effects, LifecycleEffect::Uncordon);
            assert(effects.deep_view() =~= old(effects).deep_view() + after_ready(old(self)@).1);
        } else {
            self.conclude(
                LifecyclePhase::Done,
                "Node operation completed; node remains cordoned".to_string(),
                effects,
            );
        }
    }

    /// Takes the answer to the last request and hands out what to do
    /// next.
    pub fn step(&mut self, event: LifecycleEvent) -> (effects: Vec<LifecycleEffect>)
        requires
            lifecycle_state_wf(old(self)@),
        ensures
            (final(self)@, effects.deep_view()) == lifecycle_step(old(self)@, event@),
            lifecycle_state_wf(final(self)@),
    {
        let mut effects: Vec<LifecycleEffect> = Vec::new();
        assert(effects.deep_view() =~= Seq::empty());
        proof {
            lifecycle_step_preserves_wf(self@, event@);
        }
        match (self.phase, event) {
            (LifecyclePhase::Idle, LifecycleEvent::Begin) => {
                if self.pre_check {
                    self.phase = LifecyclePhase::Checking;
                    push_effect(&mut effects, LifecycleEffect::CheckPdbs);
                } else {
                    self.begin_cordon(&mut effects);
                }
            },
            (LifecyclePhase::Checking, LifecycleEvent::PdbsChecked { blocking }) => {
                match blocking {
                    Some(count) => {
                        if count > 0 {
                            let mut line = "Warning: ".to_string();
                            append_decimal(&mut line, count as u128);
                            line.append(" PodDisruptionBudgets would block drain");
                            push_effect(&mut effects, LifecycleEffect::Report(line));
                        }
                    },
                    None => {
                        push_effect(
                            &mut effects,
                            LifecycleEffect::Report(
                                "Warning: could not check PodDisruptionBudgets".to_string(),
                            ),
                        );
                    },
                }
                assert(effects.deep_view() =~= advisory_lines(blocking));
                self.begin_cordon(&mut effects);
            },
            (LifecyclePhase::Cordoning, LifecycleEvent::Cordoned(result)) => {
                if result.success {
                    self.phase = LifecyclePhase::Draining;
                    self.cordoned = true;
                    push_effect(
                        &mut effects,
                        LifecycleEffect::Report(concat("Draining node ", self.node.as_str())),
                    );
                    push_effect(&mut effects, LifecycleEffect::Drain);
                } else {
                    let text = concat("Failed to cordon node: ", error_or_unknown(&result.error));
                    self.conclude(LifecyclePhase::Failed, text, &mut effects);
                }
            },
            (LifecyclePhase::Draining, LifecycleEvent::Drained(result)) => {
                let success = result.success;
                let failed = result.failed_pods.len();
                self.failed_pods = result.failed_pods;
                self.force_deleted_pods = result.force_deleted_pods;
                let named = result.error;
                if success {
                    self.phase = LifecyclePhase::AwaitingExternalReboot;
                    push_effect(
                        &mut effects,
                        LifecycleEffect::Report(concat("Rebooting node ", self.node.as_str())),
                    );
                    push_effect(&mut effects, LifecycleEffect::Reboot);
                } else {
                    let mut text = "Drain failed: ".to_string();
                    match named {
                        Some(error) => {
                            text.append(error.as_str());
                        },
                        None => {
                            append_decimal(&mut text, failed as u128);
                            text.append(" pods could not be evicted; node remains cordoned");
                        },
                    }
                    self.conclude(LifecyclePhase::Failed, text, &mut effects);
                }
            },
            (LifecyclePhase::Draining, LifecycleEvent::DrainNotRun { error }) => {
                let text = concat("Drain failed: ", error.as_str());
                self.conclude(LifecyclePhase::Failed, text, &mut effects);
            },
            (LifecyclePhase::AwaitingExternalReboot, LifecycleEvent::Rebooted { error }) => {
                match error {
                    Some(text) => {
                        let text = concat("Reboot failed: ", text.as_str());
                        self.conclude(LifecyclePhase::Failed, text, &mut effects);
                    },
                    None => {
                        if self.options.wait_for_node_ready {
                            self.phase = LifecyclePhase::WaitingReady;
                            push_effect(
                                &mut effects,
                                LifecycleEffect::WaitReady {
                                    timeout_secs: self.options.post_reboot_timeout_secs,
                                    wait_for_disconnect: true,
                                },
                            );
                        } else {
                            self.after_ready(&mut effects);
                        }
                    },
                }
            },
            (LifecyclePhase::WaitingReady, LifecycleEvent::ReadyWaited(result)) => {
                if result.success {
                    self.after_ready(&mut effects);
                } else {
                    let text = concat(
                        "Node did not become Ready: ",
                        error_or_unknown(&result.error),
                    );
                    self.conclude(LifecyclePhase::Failed, text, &mut effects);
                }
            },
            (LifecyclePhase::Uncordoning, LifecycleEvent::Uncordoned(result)) => {
                if result.success {
                    self.cordoned = false;
                    self.conclude(
                        LifecyclePhase::Done,
                        "Node operation completed".to_string(),
                        &mut effects,
                    );
                } else {
                    let text = concat(
                        "Node is healthy but remains cordoned: ",
                        error_or_unknown(&result.error),
                    );
                    self.conclude(LifecyclePhase::Done, text, &mut effects);
                }
            },
            _ => {},
        }
        assert(effects.deep_view() =~= lifecycle_step(old(self)@, event@).1);
        effects
    }

    /// The phase of the operation.
    pub fn phase(&self) -> (phase: LifecyclePhase)
        ensures
            phase == self@.phase,
    {
        self.phase
    }

    /// Whether the operation has ended, in success or in failure.
    pub fn is_finished(&self) -> (finished: bool)
        ensures
            finished == is_terminal(self@.phase),
    {
        match self.phase {
            LifecyclePhase::Done => true,
            LifecyclePhase::Failed => true,
            _ => false,
        }
    }

    /// Whether the operation has ended in success.
    pub fn succeeded(&self) -> (done: bool)
        ensures
            done == (self@.phase is Done),
    {
        match self.phase {
            LifecyclePhase::Done => true,
            _ => false,
        }
    }

    /// Whether the operation has cordoned the node and not uncordoned it.
    pub fn leaves_node_cordoned(&self) -> (cordoned: bool)
        ensures
            cordoned == self@.cordoned,
    {
        self.cordoned
    }

    /// Why the operation ended as it did; empty until it has ended.
    pub fn explanation(&self) -> (text: String)
        ensures
            text@ == self@.explanation,
    {
        self.explanation.clone()
    }
}

/// A step keeps a well-formed state well-formed, and never changes the
/// node or the options.
pub proof fn lifecycle_step_preserves_wf(s: LifecycleStateView, event: LifecycleEventView)
    requires
        lifecycle_state_wf(s),
    ensures
        lifecycle_state_wf(lifecycle_step(s, event).0),
        lifecycle_step(s, event).0.node == s.node,
        lifecycle_step(s, event).0.options == s.options,
{
    reveal_strlit("Failed to cordon node: ");
    reveal_strlit("Drain failed: ");
    reveal_strlit("Reboot failed: ");
    reveal_strlit("Node did not become Ready: ");
    reveal_strlit("Node operation completed");
    reveal_strlit("Node operation completed; node remains cordoned");
    reveal_strlit("Node is healthy but remains cordoned: ");
}

/// Every operation that has ended carries an explanation.
pub proof fn terminal_states_are_explained(s: LifecycleStateView)
    requires
        lifecycle_state_wf(s),
        is_terminal(s.phase),
    ensures
        s.explanation.len() > 0,
{
}

/// An operation that has ended stays as it is.
pub proof fn terminal_states_are_final(s: LifecycleStateView, event: LifecycleEventView)
    requires
        is_terminal(s.phase),
    ensures
        lifecycle_step(s, event) == (s, Seq::<LifecycleEffectView>::empty()),
{
}

/// A step that fails the operation never uncordons the node: a node
/// whose drain, reboot or wait failed stays cordoned.
pub proof fn failure_leaves_node_cordoned(s: LifecycleStateView, event: LifecycleEventView)
    requires
        lifecycle_state_wf(s),
        !is_terminal(s.phase),
        lifecycle_step(s, event).0.phase is Failed,
    ensures
        lifecycle_step(s, event).0.cordoned == s.cordoned,
        s.phase is Draining || s.phase is AwaitingExternalReboot || s.phase is WaitingReady
            ==> lifecycle_step(s, event).0.cordoned,
        forall|k: int|
            0 <= k < lifecycle_step(s, event).1.len() ==> !(#[trigger] lifecycle_step(
                s,
                event,
            ).1[k] is Uncordon),
{
}

/// The node is uncordoned only where the options ask for it and every
/// step before has succeeded; and a failed uncordon still ends the
/// operation in success, with the node cordoned.
pub proof fn uncordon_only_after_success(s: LifecycleStateView, event: LifecycleEventView, k: int)
    requires
        lifecycle_state_wf(s),
        0 <= k < lifecycle_step(s, event).1.len(),
        lifecycle_step(s, event).1[k] is Uncordon,
    ensures
        s.options.uncordon_after_reboot,
        lifecycle_step(s, event).0.phase is Uncordoning,
        (s.phase is WaitingReady && event is ReadyWaited && event->ReadyWaited_0.success) || (
        s.phase is AwaitingExternalReboot && event is Rebooted && event->Rebooted_error is None
            && !s.options.wait_for_node_ready),
{
}

/// The wait for readiness is entered only where the options ask for it,
/// with the timeout that they give.
pub proof fn wait_only_when_asked(s: LifecycleStateView, event: LifecycleEventView, k: int)
    requires
        lifecycle_state_wf(s),
        0 <= k < lifecycle_step(s, event).1.len(),
        lifecycle_step(s, event).1[k] is WaitReady,
    ensures
        s.options.wait_for_node_ready,
        lifecycle_step(s, event).1[k]->timeout_secs == s.options.post_reboot_timeout_secs,
{
}

/// The survey of the disruption budgets only informs: whatever it
/// yields, the cordon follows.
pub proof fn pre_check_is_advisory(s: LifecycleStateView, blocking: Option<usize>)
    requires
        lifecycle_state_wf(s),
        s.phase is Checking,
    ensures
        lifecycle_step(s, LifecycleEventView::PdbsChecked { blocking }).0.phase is Cordoning,
        lifecycle_step(s, LifecycleEventView::PdbsChecked { blocking }).1.last()
            is Cordon,
{
}

} // verus!
