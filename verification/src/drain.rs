//! The eviction engine: which pods of a node are driven out, in what order,
//! with how many retries, and when a pod is force-deleted or given up.
//!
//! The engine is a state machine. It never talks to the scheduler API
//! itself: `DrainRun::start` and `DrainRun::step` hand out the effects to
//! perform (progress reports, pauses and one request), and the caller feeds
//! the outcome of the request back as a `DrainEvent`. It never sleeps
//! either: a pause is an effect, for the caller to keep or, under test, to
//! cut short.

use crate::client::{K8sError, K8sErrorView};
use crate::records::{list_holds, PodRecord, PodView};
use crate::text::{
    append_decimal, contains, decimal, make_pod_key, pod_key, text_contains, text_eq,
};
use vstd::prelude::*;
use vstd::string::*;

verus! {

/// Options for drain and reboot operations.
#[derive(Debug, Clone, Copy)]
pub struct DrainOptions {
    /// Eviction retry budget per pod, in seconds.
    pub per_pod_timeout_secs: u64,
    /// Grace period for force-deletion; `None` deletes at once.
    pub grace_period_secs: Option<i64>,
    /// Force-delete unmanaged pods that cannot be evicted.
    pub force_delete_unmanaged: bool,
    /// Leave DaemonSet pods alone.
    pub ignore_daemonsets: bool,
    /// Evict pods that hold emptyDir volumes.
    pub delete_emptydir_data: bool,
    /// Wait for the node to become Ready after a reboot.
    pub wait_for_node_ready: bool,
    /// How long to wait for the node to become Ready, in seconds.
    pub post_reboot_timeout_secs: u64,
    /// Uncordon the node once it is Ready again.
    pub uncordon_after_reboot: bool,
}

impl Default for DrainOptions {
    fn default() -> (options: Self)
        ensures
            options.per_pod_timeout_secs == 30,
            options.grace_period_secs is None,
            !options.force_delete_unmanaged,
            options.ignore_daemonsets,
            options.delete_emptydir_data,
            options.wait_for_node_ready,
            options.post_reboot_timeout_secs == 300,
            options.uncordon_after_reboot,
    {
        DrainOptions {
            per_pod_timeout_secs: 30,
            grace_period_secs: None,
            force_delete_unmanaged: false,
            ignore_daemonsets: true,
            delete_emptydir_data: true,
            wait_for_node_ready: true,
            post_reboot_timeout_secs: 300,
            uncordon_after_reboot: true,
        }
    }
}

/// Result of a drain operation.
#[derive(Debug, Clone)]
pub struct DrainResult {
    /// Node name.
    pub node: String,
    /// Whether every pod left the node.
    pub success: bool,
    /// Number of pods evicted, force-deleted ones included.
    pub pods_evicted: usize,
    /// Pods that could not be driven out, as `namespace/name`.
    pub failed_pods: Vec<String>,
    /// Pods that were force-deleted, as `namespace/name`.
    pub force_deleted_pods: Vec<String>,
    /// Error message if the drain as a whole failed.
    pub error: Option<String>,
}

/// What a `DrainResult` holds, every text taken as its characters.
pub struct DrainResultView {
    pub node: Seq<char>,
    pub success: bool,
    pub pods_evicted: nat,
    pub failed_pods: Seq<Seq<char>>,
    pub force_deleted_pods: Seq<Seq<char>>,
    pub error: Option<Seq<char>>,
}

impl View for DrainResult {
    type V = DrainResultView;

    open spec fn view(&self) -> DrainResultView {
        DrainResultView {
            node: self.node@,
            success: self.success,
            pods_evicted: self.pods_evicted as nat,
            failed_pods: self.failed_pods.deep_view(),
            force_deleted_pods: self.force_deleted_pods.deep_view(),
            error: self.error.deep_view(),
        }
    }
}

/// A pod of the node that the drain will try to drive out.
#[derive(Debug, Clone)]
pub struct EvictionCandidate {
    pub namespace: String,
    pub name: String,
    /// Owned by a ReplicaSet, Deployment, StatefulSet, Job or DaemonSet.
    pub is_managed: bool,
    pub is_daemonset_pod: bool,
    pub has_empty_dir_volume: bool,
}

/// What a `EvictionCandidate` holds, every text taken as its characters.
pub struct CandidateView {
    pub namespace: Seq<char>,
    pub name: Seq<char>,
    pub is_managed: bool,
    pub is_daemonset_pod: bool,
    pub has_empty_dir_volume: bool,
}

impl View for EvictionCandidate {
    type V = CandidateView;

    open spec fn view(&self) -> CandidateView {
        CandidateView {
            namespace: self.namespace@,
            name: self.name@,
            is_managed: self.is_managed,
            is_daemonset_pod: self.is_daemonset_pod,
            has_empty_dir_volume: self.has_empty_dir_volume,
        }
    }
}

impl DeepView for EvictionCandidate {
    type V = CandidateView;

    open spec fn deep_view(&self) -> CandidateView {
        self@
    }
}

/// Pause after a successful eviction, in milliseconds.
pub const EVICTION_PAUSE_MILLIS: u64 = 500;

/// Pause before an eviction blocked by a disruption budget is retried, in
/// milliseconds.
pub const PDB_RETRY_PAUSE_MILLIS: u64 = 2000;

/// A mirror pod carries the annotation `kubernetes.io/config.mirror`.
pub open spec fn is_mirror_pod(pod: PodView) -> bool {
    pod.annotation_keys.contains("kubernetes.io/config.mirror"@)
}

/// A DaemonSet pod has an owner of kind `DaemonSet`.
pub open spec fn is_daemonset_pod(pod: PodView) -> bool {
    pod.owner_kinds.contains("DaemonSet"@)
}

/// The owner kinds that make a pod a managed one.
pub open spec fn is_controller_kind(kind: Seq<char>) -> bool {
    kind == "ReplicaSet"@ || kind == "Deployment"@ || kind == "StatefulSet"@ || kind == "Job"@
        || kind == "DaemonSet"@
}

/// A managed pod has an owner of a controller kind.
pub open spec fn is_managed_pod(pod: PodView) -> bool {
    exists|i: int| 0 <= i < pod.owner_kinds.len() && is_controller_kind(#[trigger] pod.owner_kinds[i])
}

/// Whether one of the pod's volumes is an emptyDir volume.
pub open spec fn has_empty_dir(pod: PodView) -> bool {
    exists|i: int| 0 <= i < pod.volumes.len() && (#[trigger] pod.volumes[i]).is_empty_dir
}

/// The candidate record of a pod.
pub open spec fn candidate_of(pod: PodView) -> CandidateView {
    CandidateView {
        namespace: pod.namespace,
        name: pod.name,
        is_managed: is_managed_pod(pod),
        is_daemonset_pod: is_daemonset_pod(pod),
        has_empty_dir_volume: has_empty_dir(pod),
    }
}

/// Whether the drain tries to drive `pod` out: never a mirror pod, no
/// DaemonSet pod while DaemonSets are ignored, and no pod with an emptyDir
/// volume unless its data may be deleted.
pub open spec fn is_eviction_eligible(pod: PodView, options: DrainOptions) -> bool {
    &&& !is_mirror_pod(pod)
    &&& !(is_daemonset_pod(pod) && options.ignore_daemonsets)
    &&& !(has_empty_dir(pod) && !options.delete_emptydir_data)
}

/// The candidates among `pods`: the eligible pods, in listed order.
pub open spec fn eviction_candidates(pods: Seq<PodView>, options: DrainOptions) -> Seq<CandidateView>
    decreases pods.len(),
{
    if pods.len() == 0 {
        Seq::empty()
    } else if is_eviction_eligible(pods.last(), options) {
        eviction_candidates(pods.drop_last(), options).push(candidate_of(pods.last()))
    } else {
        eviction_candidates(pods.drop_last(), options)
    }
}

/// Number of eviction attempts granted to one pod: one per two seconds of
/// the per-pod timeout, and never fewer than one.
pub open spec fn spec_max_attempts(per_pod_timeout_secs: u64) -> nat {
    if per_pod_timeout_secs / 2 >= 1 {
        (per_pod_timeout_secs / 2) as nat
    } else {
        1
    }
}

/// Grace period handed to a force-deletion: the configured override cut
/// to 32 bits, or zero.
pub open spec fn spec_force_delete_grace(options: DrainOptions) -> u32 {
    match options.grace_period_secs {
        Some(grace) => grace as u32,
        None => 0,
    }
}

/// The number of eviction attempts that the per-pod timeout grants.
pub fn max_attempts(per_pod_timeout_secs: u64) -> (attempts: u64)
    ensures
        attempts == spec_max_attempts(per_pod_timeout_secs),
        attempts >= 1,
{
    let half: u64 = per_pod_timeout_secs / 2;
    if half >= 1 {
        half
    } else {
        1
    }
}

/// The grace period that a force-deletion is given.
pub fn force_delete_grace(options: &DrainOptions) -> (grace: u32)
    ensures
        grace == spec_force_delete_grace(*options),
{
    match options.grace_period_secs {
        Some(grace) => {
            #[verifier::truncate]
            (grace as u32)
        },
        None => 0,
    }
}

/// Whether a pod is owned by a controller.
pub fn pod_is_managed(pod: &PodRecord) -> (managed: bool)
    ensures
        managed == is_managed_pod(pod@),
{
    let mut i: usize = 0;
    while i < pod.owner_kinds.len()
        invariant
            i <= pod.owner_kinds.len(),
            forall|j: int| 0 <= j < i ==> !is_controller_kind(#[trigger] pod@.owner_kinds[j]),
        decreases pod.owner_kinds.len() - i,
    {
        let kind = pod.owner_kinds[i].as_str();
        assert(kind@ == pod@.owner_kinds[i as int]);
        if text_eq(kind, "ReplicaSet") || text_eq(kind, "Deployment") || text_eq(
            kind,
            "StatefulSet",
        ) || text_eq(kind, "Job") || text_eq(kind, "DaemonSet") {
            return true;
        }
        i += 1;
    }
    false
}

/// Whether a pod holds an emptyDir volume.
pub fn pod_has_empty_dir(pod: &PodRecord) -> (found: bool)
    ensures
        found == has_empty_dir(pod@),
{
    let mut i: usize = 0;
    while i < pod.volumes.len()
        invariant
            i <= pod.volumes.len(),
            forall|j: int| 0 <= j < i ==> !(#[trigger] pod@.volumes[j]).is_empty_dir,
        decreases pod.volumes.len() - i,
    {
        if pod.volumes[i].is_empty_dir {
            assert(pod@.volumes[i as int].is_empty_dir);
            return true;
        }
        i += 1;
    }
    false
}

/// Classifies one pod.
pub fn classify_pod(pod: &PodRecord) -> (candidate: EvictionCandidate)
    ensures
        candidate@ == candidate_of(pod@),
{
    EvictionCandidate {
        namespace: pod.namespace.clone(),
        name: pod.name.clone(),
        is_managed: pod_is_managed(pod),
        is_daemonset_pod: list_holds(&pod.owner_kinds, "DaemonSet"),
        has_empty_dir_volume: pod_has_empty_dir(pod),
    }
}

/// Selects the pods to drive out of a node, in listed order.
pub fn select_candidates(pods: &Vec<PodRecord>, options: &DrainOptions) -> (candidates: Vec<
    EvictionCandidate,
>)
    ensures
        candidates.deep_view() == eviction_candidates(pods.deep_view(), *options),
{
    let mut candidates: Vec<EvictionCandidate> = Vec::new();
    let mut i: usize = 0;
    assert(pods.deep_view().take(0) =~= Seq::empty());
    while i < pods.len()
        invariant
            i <= pods.len(),
            candidates.deep_view() == eviction_candidates(
                pods.deep_view().take(i as int),
                *options,
            ),
        decreases pods.len() - i,
    {
        let pod = &pods[i];
        let ghost before = candidates.deep_view();
        proof {
            let prefix = pods.deep_view().take(i + 1);
            assert(prefix.drop_last() =~= pods.deep_view().take(i as int));
            assert(prefix.last() == pod@);
        }
        let candidate = classify_pod(pod);
        let mirror = list_holds(&pod.annotation_keys, "kubernetes.io/config.mirror");
        let skip = mirror || (candidate.is_daemonset_pod && options.ignore_daemonsets) || (
        candidate.has_empty_dir_volume && !options.delete_emptydir_data);
        if !skip {
            candidates.push(candidate);
            assert(candidates.deep_view() =~= before.push(candidate_of(pod@)));
        }
        i += 1;
    }
    assert(pods.deep_view().take(pods.len() as int) =~= pods.deep_view());
    candidates
}


/// What the scheduler API answered to the last request of a drain.
#[derive(Debug, Clone, Copy, PartialEq, Eq, Structural)]
pub enum DrainEvent {
    /// The eviction was accepted.
    Evicted,
    /// The pod to evict no longer exists.
    NotFound,
    /// A disruption budget does not allow the eviction now.
    Blocked,
    /// The eviction failed for another reason.
    EvictFailed,
    /// The force-deletion was accepted.
    Deleted,
    /// The force-deletion failed.
    DeleteFailed,
}

/// One thing for the caller of a drain to do. The effects of a step are
/// performed in order; a request, if there is one, comes last, and its
/// outcome is the next event.
#[derive(Debug, Clone)]
pub enum DrainEffect {
    /// Hand a progress line to the progress sink.
    Report(String),
    /// Sleep for this many milliseconds.
    Pause(u64),
    /// Ask the scheduler API to evict a pod.
    Evict { namespace: String, name: String },
    /// Ask the scheduler API to delete a pod.
    ForceDelete { namespace: String, name: String, grace_period_secs: u32 },
}

/// What a `DrainEffect` holds, every text taken as its characters.
pub enum EffectView {
    Report(Seq<char>),
    Pause(u64),
    Evict { namespace: Seq<char>, name: Seq<char> },
    ForceDelete { namespace: Seq<char>, name: Seq<char>, grace_period_secs: u32 },
}

impl View for DrainEffect {
    type V = EffectView;

    open spec fn view(&self) -> EffectView {
        match self {
            DrainEffect::Report(line) => EffectView::Report(line@),
            DrainEffect::Pause(millis) => EffectView::Pause(*millis),
            DrainEffect::Evict { namespace, name } => EffectView::Evict {
                namespace: namespace@,
                name: name@,
            },
            DrainEffect::ForceDelete { namespace, name, grace_period_secs } => EffectView::ForceDelete {
                namespace: namespace@,
                name: name@,
                grace_period_secs: *grace_period_secs,
            },
        }
    }
}

impl DeepView for DrainEffect {
    type V = EffectView;

    open spec fn deep_view(&self) -> EffectView {
        self@
    }
}

/// Where a drain stands with the pod under its cursor.
#[derive(Debug, Clone, Copy, PartialEq, Eq, Structural)]
pub enum DrainPhase {
    /// An eviction request for the pod is out.
    Evicting,
    /// A force-deletion request for the pod is out; `timed_out` tells
    /// whether the retries against a disruption budget ran out before it.
    Deleting { timed_out: bool },
    /// Every candidate has been dealt with.
    Finished,
}

/// The state of a drain.
pub struct DrainStateView {
    pub node: Seq<char>,
    pub options: DrainOptions,
    pub candidates: Seq<CandidateView>,
    /// Index of the pod being driven out.
    pub cursor: nat,
    /// Evictions of that pod that a disruption budget has blocked so far.
    pub attempts: nat,
    pub phase: DrainPhase,
    pub evicted: nat,
    pub failed_pods: Seq<Seq<char>>,
    pub force_deleted_pods: Seq<Seq<char>>,
}

/// The key `namespace/name` under which a candidate is reported.
pub open spec fn key_of(candidate: CandidateView) -> Seq<char> {
    pod_key(candidate.namespace, candidate.name)
}

/// `Found N pods to evict`.
pub open spec fn found_message(total: nat) -> Seq<char> {
    "Found "@ + decimal(total) + " pods to evict"@
}

/// `<prefix>ns/name (done/total)`.
pub open spec fn progress_message(
    prefix: Seq<char>,
    candidate: CandidateView,
    done: nat,
    total: nat,
) -> Seq<char> {
    prefix + key_of(candidate) + " ("@ + decimal(done) + "/"@ + decimal(total) + ")"@
}

/// `Waiting for PDB: ns/name (retry attempts/max)`.
pub open spec fn waiting_message(candidate: CandidateView, attempts: nat, max: nat) -> Seq<char> {
    "Waiting for PDB: "@ + key_of(candidate) + " (retry "@ + decimal(attempts) + "/"@ + decimal(
        max,
    ) + ")"@
}

/// `Force deleting unmanaged pod ns/name`, with ` after timeout` where the
/// retries ran out.
pub open spec fn force_message(candidate: CandidateView, timed_out: bool) -> Seq<char> {
    if timed_out {
        "Force deleting unmanaged pod "@ + key_of(candidate) + " after timeout"@
    } else {
        "Force deleting unmanaged pod "@ + key_of(candidate)
    }
}

/// `Timeout: ns/name` where the retries ran out, else `Failed: ns/name`.
pub open spec fn give_up_message(candidate: CandidateView, timed_out: bool) -> Seq<char> {
    if timed_out {
        "Timeout: "@ + key_of(candidate)
    } else {
        "Failed: "@ + key_of(candidate)
    }
}

/// Moves the cursor to `next`: the eviction of that pod is announced and
/// requested, or the drain is finished where no pod is left.
pub open spec fn enter_pod(s: DrainStateView, next: nat) -> (DrainStateView, Seq<EffectView>) {
    if next < s.candidates.len() {
        let c = s.candidates[next as int];
        (
            DrainStateView { cursor: next, attempts: 0, phase: DrainPhase::Evicting, ..s },
            seq![
                EffectView::Report(
                    progress_message("Evicting "@, c, next + 1, s.candidates.len()),
                ),
                EffectView::Evict { namespace: c.namespace, name: c.name },
            ],
        )
    } else {
        (
            DrainStateView { cursor: next, attempts: 0, phase: DrainPhase::Finished, ..s },
            Seq::empty(),
        )
    }
}

/// Eviction of the pod under the cursor is abandoned: an unmanaged pod is
/// force-deleted where the options allow it, any other pod is recorded as
/// failed and the drain moves on.
pub open spec fn abandon_eviction(s: DrainStateView, timed_out: bool) -> (
    DrainStateView,
    Seq<EffectView>,
) {
    let c = s.candidates[s.cursor as int];
    if s.options.force_delete_unmanaged && !c.is_managed {
        (
            DrainStateView { phase: DrainPhase::Deleting { timed_out }, ..s },
            seq![
                EffectView::Report(force_message(c, timed_out)),
                EffectView::ForceDelete {
                    namespace: c.namespace,
                    name: c.name,
                    grace_period_secs: spec_force_delete_grace(s.options),
                },
            ],
        )
    } else {
        record_failure(s, timed_out)
    }
}

/// The pod under the cursor is recorded as failed and the drain moves on.
pub open spec fn record_failure(s: DrainStateView, timed_out: bool) -> (
    DrainStateView,
    Seq<EffectView>,
) {
    let c = s.candidates[s.cursor as int];
    let recorded = DrainStateView { failed_pods: s.failed_pods.push(key_of(c)), ..s };
    let (next, effects) = enter_pod(recorded, s.cursor + 1);
    (next, seq![EffectView::Report(give_up_message(c, timed_out))] + effects)
}

/// The pod under the cursor is counted as evicted, which is reported
/// under `prefix`; after `pause` milliseconds, if any, the drain moves on.
pub open spec fn record_eviction(s: DrainStateView, prefix: Seq<char>, pause: u64) -> (
    DrainStateView,
    Seq<EffectView>,
) {
    let c = s.candidates[s.cursor as int];
    let counted = DrainStateView { evicted: s.evicted + 1, ..s };
    let (next, effects) = enter_pod(counted, s.cursor + 1);
    let report = seq![
        EffectView::Report(progress_message(prefix, c, s.evicted + 1, s.candidates.len())),
    ];
    if pause > 0 {
        (next, report + seq![EffectView::Pause(pause)] + effects)
    } else {
        (next, report + effects)
    }
}

/// The first state of a drain of `node` and what to do first: the number
/// of candidates is reported, then the first pod is entered.
pub open spec fn drain_start(
    node: Seq<char>,
    candidates: Seq<CandidateView>,
    options: DrainOptions,
) -> (DrainStateView, Seq<EffectView>) {
    let (first, effects) = enter_pod(
        DrainStateView {
            node,
            options,
            candidates,
            cursor: 0,
            attempts: 0,
            phase: DrainPhase::Finished,
            evicted: 0,
            failed_pods: Seq::empty(),
            force_deleted_pods: Seq::empty(),
        },
        0,
    );
    (first, seq![EffectView::Report(found_message(candidates.len()))] + effects)
}

/// The state after `event` and what to do next. An event that answers no
/// request of the current phase changes nothing.
pub open spec fn drain_step(s: DrainStateView, event: DrainEvent) -> (
    DrainStateView,
    Seq<EffectView>,
) {
    let c = s.candidates[s.cursor as int];
    let max = spec_max_attempts(s.options.per_pod_timeout_secs);
    match s.phase {
        DrainPhase::Evicting => match event {
            DrainEvent::Evicted => record_eviction(s, "Evicted "@, EVICTION_PAUSE_MILLIS),
            DrainEvent::NotFound => record_eviction(s, "Pod gone "@, 0),
            DrainEvent::Blocked => {
                let waited = DrainStateView { attempts: s.attempts + 1, ..s };
                let wait = seq![
                    EffectView::Report(waiting_message(c, s.attempts + 1, max)),
                    EffectView::Pause(PDB_RETRY_PAUSE_MILLIS),
                ];
                if s.attempts + 1 < max {
                    (waited, wait.push(EffectView::Evict { namespace: c.namespace, name: c.name }))
                } else {
                    let (next, effects) = abandon_eviction(waited, true);
                    (next, wait + effects)
                }
            },
            DrainEvent::EvictFailed => abandon_eviction(s, false),
            _ => (s, Seq::empty()),
        },
        DrainPhase::Deleting { timed_out } => match event {
            DrainEvent::Deleted => record_eviction(
                DrainStateView { force_deleted_pods: s.force_deleted_pods.push(key_of(c)), ..s },
                "Force deleted "@,
                0,
            ),
            DrainEvent::DeleteFailed => record_failure(s, timed_out),
            _ => (s, Seq::empty()),
        },
        DrainPhase::Finished => (s, Seq::empty()),
    }
}

/// The result of a drain in state `s`: it succeeded if and only if no pod
/// is recorded as failed.
pub open spec fn drain_result(s: DrainStateView) -> DrainResultView {
    DrainResultView {
        node: s.node,
        success: s.failed_pods.len() == 0,
        pods_evicted: s.evicted,
        failed_pods: s.failed_pods,
        force_deleted_pods: s.force_deleted_pods,
        error: None,
    }
}

/// What holds of every state that a drain reaches.
pub open spec fn drain_state_wf(s: DrainStateView) -> bool {
    &&& s.cursor <= s.candidates.len()
    &&& s.phase is Finished <==> s.cursor == s.candidates.len()
    &&& s.phase is Evicting ==> s.attempts < spec_max_attempts(s.options.per_pod_timeout_secs)
    &&& s.phase is Deleting ==> s.options.force_delete_unmanaged && !s.candidates[s.cursor as int].is_managed
    &&& s.evicted + s.failed_pods.len() == s.cursor
    &&& s.force_deleted_pods.len() <= s.evicted
}


/// A drain of one node in progress.
pub struct DrainRun {
    node: String,
    options: DrainOptions,
    candidates: Vec<EvictionCandidate>,
    cursor: usize,
    attempts: u64,
    phase: DrainPhase,
    evicted: usize,
    failed_pods: Vec<String>,
    force_deleted_pods: Vec<String>,
}

impl View for DrainRun {
    type V = DrainStateView;

    closed spec fn view(&self) -> DrainStateView {
        DrainStateView {
            node: self.node@,
            options: self.options,
            candidates: self.candidates.deep_view(),
            cursor: self.cursor as nat,
            attempts: self.attempts as nat,
            phase: self.phase,
            evicted: self.evicted as nat,
            failed_pods: self.failed_pods.deep_view(),
            force_deleted_pods: self.force_deleted_pods.deep_view(),
        }
    }
}

fn push_effect(effects: &mut Vec<DrainEffect>, effect: DrainEffect)
    ensures
        final(effects).deep_view() == old(effects).deep_view().push(effect@),
{
    effects.push(effect);
    assert(effects.deep_view() =~= old(effects).deep_view().push(effect@));
}

fn push_text(list: &mut Vec<String>, item: String)
    ensures
        final(list).deep_view() == old(list).deep_view().push(item@),
{
    list.push(item);
    assert(list.deep_view() =~= old(list).deep_view().push(item@));
}

fn clone_texts(list: &Vec<String>) -> (copy: Vec<String>)
    ensures
        copy.deep_view() == list.deep_view(),
{
    let mut copy: Vec<String> = Vec::new();
    let mut i: usize = 0;
    while i < list.len()
        invariant
            i <= list.len(),
            copy.deep_view() =~= list.deep_view().take(i as int),
        decreases list.len() - i,
    {
        push_text(&mut copy, list[i].clone());
        i += 1;
    }
    assert(copy.deep_view() =~= list.deep_view());
    copy
}

fn progress_line(prefix: &str, candidate: &EvictionCandidate, done: usize, total: usize) -> (line:
    String)
    ensures
        line@ == progress_message(prefix@, candidate@, done as nat, total as nat),
{
    let mut line = prefix.to_string();
    let key = make_pod_key(candidate.namespace.as_str(), candidate.name.as_str());
    line.append(key.as_str());
    line.append(" (");
    append_decimal(&mut line, done as u128);
    line.append("/");
    append_decimal(&mut line, total as u128);
    line.append(")");
    line
}

fn waiting_line(candidate: &EvictionCandidate, attempts: u64, max: u64) -> (line: String)
    ensures
        line@ == waiting_message(candidate@, attempts as nat, max as nat),
{
    let mut line = "Waiting for PDB: ".to_string();
    let key = make_pod_key(candidate.namespace.as_str(), candidate.name.as_str());
    line.append(key.as_str());
    line.append(" (retry ");
    append_decimal(&mut line, attempts as u128);
    line.append("/");
    append_decimal(&mut line, max as u128);
    line.append(")");
    line
}

fn force_line(candidate: &EvictionCandidate, timed_out: bool) -> (line: String)
    ensures
        line@ == force_message(candidate@, timed_out),
{
    let mut line = "Force deleting unmanaged pod ".to_string();
    let key = make_pod_key(candidate.namespace.as_str(), candidate.name.as_str());
    line.append(key.as_str());
    if timed_out {
        line.append(" after timeout");
    }
    line
}

fn give_up_line(candidate: &EvictionCandidate, timed_out: bool) -> (line: String)
    ensures
        line@ == give_up_message(candidate@, timed_out),
{
    let mut line = if timed_out {
        "Timeout: ".to_string()
    } else {
        "Failed: ".to_string()
    };
    let key = make_pod_key(candidate.namespace.as_str(), candidate.name.as_str());
    line.append(key.as_str());
    line
}

fn found_line(total: usize) -> (line: String)
    ensures
        line@ == found_message(total as nat),
{
    let mut line = "Found ".to_string();
    append_decimal(&mut line, total as u128);
    line.append(" pods to evict");
    line
}

impl DrainRun {
    /// Begins the drain of `node`, on which `pods` are bound: selects the
    /// candidates and hands out the first effects.
    pub fn start(node: &str, pods: &Vec<PodRecord>, options: &DrainOptions) -> (started: (
        DrainRun,
        Vec<DrainEffect>,
    ))
        ensures
            (started.0@, started.1.deep_view()) == drain_start(
                node@,
                eviction_candidates(pods.deep_view(), *options),
                *options,
            ),
            drain_state_wf(started.0@),
    {
        let candidates = select_candidates(pods, options);
        let mut run = DrainRun {
            node: node.to_string(),
            options: *options,
            candidates,
            cursor: 0,
            attempts: 0,
            phase: DrainPhase::Finished,
            evicted: 0,
            failed_pods: Vec::new(),
            force_deleted_pods: Vec::new(),
        };
        let mut effects: Vec<DrainEffect> = Vec::new();
        push_effect(&mut effects, DrainEffect::Report(found_line(run.candidates.len())));
        assert(run.failed_pods.deep_view() =~= Seq::empty());
        assert(run.force_deleted_pods.deep_view() =~= Seq::empty());
        let ghost first = effects.deep_view();
        assert(first =~= seq![EffectView::Report(found_message(run@.candidates.len()))]);
        run.enter(0, &mut effects);
        (run, effects)
    }

    fn enter(&mut self, next: usize, effects: &mut Vec<DrainEffect>)
        requires
            next <= old(self).candidates.len(),
        ensures
            final(self)@ == enter_pod(old(self)@, next as nat).0,
            final(effects).deep_view() == old(effects).deep_view() + enter_pod(
                old(self)@,
                next as nat,
            ).1,
    {
        self.cursor = next;
        self.attempts = 0;
        if next < self.candidates.len() {
            self.phase = DrainPhase::Evicting;
            let candidate = &self.candidates[next];
            assert(candidate@ == old(self)@.candidates[next as int]);
            let line = progress_line("Evicting ", candidate, next + 1, self.candidates.len());
            push_effect(effects, DrainEffect::Report(line));
            push_effect(
                effects,
                DrainEffect::Evict {
                    namespace: candidate.namespace.clone(),
                    name: candidate.name.clone(),
                },
            );
            assert(effects.deep_view() =~= old(effects).deep_view() + enter_pod(
                old(self)@,
                next as nat,
            ).1);
        } else {
            self.phase = DrainPhase::Finished;
            assert(effects.deep_view() =~= old(effects).deep_view() + enter_pod(
                old(self)@,
                next as nat,
            ).1);
        }
    }

    fn fail_pod(&mut self, timed_out: bool, effects: &mut Vec<DrainEffect>)
        requires
            old(self).cursor < old(self).candidates.len(),
        ensures
            final(self)@ == record_failure(old(self)@, timed_out).0,
            final(effects).deep_view() == old(effects).deep_view() + record_failure(
                old(self)@,
                timed_out,
            ).1,
    {
        let candidate = &self.candidates[self.cursor];
        assert(candidate@ == old(self)@.candidates[old(self).cursor as int]);
        let key = make_pod_key(candidate.namespace.as_str(), candidate.name.as_str());
        let line = give_up_line(candidate, timed_out);
        push_text(&mut self.failed_pods, key);
        push_effect(effects, DrainEffect::Report(line));
        let next = self.cursor + 1;
        self.enter(next, effects);
        assert(effects.deep_view() =~= old(effects).deep_view() + record_failure(
            old(self)@,
            timed_out,
        ).1);
    }

    fn abandon(&mut self, timed_out: bool, effects: &mut Vec<DrainEffect>)
        requires
            old(self).cursor < old(self).candidates.len(),
        ensures
            final(self)@ == abandon_eviction(old(self)@, timed_out).0,
            final(effects).deep_view() == old(effects).deep_view() + abandon_eviction(
                old(self)@,
                timed_out,
            ).1,
    {
        let candidate = &self.candidates[self.cursor];
        assert(candidate@ == old(self)@.candidates[old(self).cursor as int]);
        if self.options.force_delete_unmanaged && !candidate.is_managed {
            let line = force_line(candidate, timed_out);
            push_effect(effects, DrainEffect::Report(line));
            push_effect(
                effects,
                DrainEffect::ForceDelete {
                    namespace: candidate.namespace.clone(),
                    name: candidate.name.clone(),
                    grace_period_secs: force_delete_grace(&self.options),
                },
            );
            self.phase = DrainPhase::Deleting { timed_out };
            assert(effects.deep_view() =~= old(effects).deep_view() + abandon_eviction(
                old(self)@,
                timed_out,
            ).1);
        } else {
            self.fail_pod(timed_out, effects);
        }
    }

    fn count_pod(&mut self, prefix: &str, pause: u64, effects: &mut Vec<DrainEffect>)
        requires
            old(self).cursor < old(self).candidates.len(),
            old(self).evicted <= old(self).cursor,
        ensures
            final(self)@ == record_eviction(old(self)@, prefix@, pause).0,
            final(effects).deep_view() == old(effects).deep_view() + record_eviction(
                old(self)@,
                prefix@,
                pause,
            ).1,
    {
        let candidate = &self.candidates[self.cursor];
        assert(candidate@ == old(self)@.candidates[old(self).cursor as int]);
        self.evicted = self.evicted + 1;
        let line = progress_line(prefix, candidate, self.evicted, self.candidates.len());
        push_effect(effects, DrainEffect::Report(line));
        if pause > 0 {
            push_effect(effects, DrainEffect::Pause(pause));
        }
        let next = self.cursor + 1;
        self.enter(next, effects);
        assert(effects.deep_view() =~= old(effects).deep_view() + record_eviction(
            old(self)@,
            prefix@,
            pause,
        ).1);
    }

    /// Takes the outcome of the last request and hands out what to do
    /// next.
    pub fn step(&mut self, event: DrainEvent) -> (effects: Vec<DrainEffect>)
        requires
            drain_state_wf(old(self)@),
        ensures
            (final(self)@, effects.deep_view()) == drain_step(old(self)@, event),
            drain_state_wf(final(self)@),
    {
        let mut effects: Vec<DrainEffect> = Vec::new();
        assert(effects.deep_view() =~= Seq::empty());
        match self.phase {
            DrainPhase::Evicting => match event {
                DrainEvent::Evicted => {
                    self.count_pod("Evicted ", EVICTION_PAUSE_MILLIS, &mut effects);
                },
                DrainEvent::NotFound => {
                    self.count_pod("Pod gone ", 0, &mut effects);
                },
                DrainEvent::Blocked => {
                    let max = max_attempts(self.options.per_pod_timeout_secs);
                    self.attempts = self.attempts + 1;
                    let candidate = &self.candidates[self.cursor];
                    assert(candidate@ == old(self)@.candidates[old(self).cursor as int]);
                    let line = waiting_line(candidate, self.attempts, max);
                    push_effect(&mut effects, DrainEffect::Report(line));
                    push_effect(&mut effects, DrainEffect::Pause(PDB_RETRY_PAUSE_MILLIS));
                    if self.attempts < max {
                        push_effect(
                            &mut effects,
                            DrainEffect::Evict {
                                namespace: candidate.namespace.clone(),
                                name: candidate.name.clone(),
                            },
                        );
                    } else {
                        self.abandon(true, &mut effects);
                    }
                    assert(effects.deep_view() =~= drain_step(old(self)@, event).1);
                },
                DrainEvent::EvictFailed => {
                    self.abandon(false, &mut effects);
                },
                _ => {},
            },
            DrainPhase::Deleting { timed_out } => match event {
                DrainEvent::Deleted => {
                    let candidate = &self.candidates[self.cursor];
                    assert(candidate@ == old(self)@.candidates[old(self).cursor as int]);
                    let key = make_pod_key(candidate.namespace.as_str(), candidate.name.as_str());
                    push_text(&mut self.force_deleted_pods, key);
                    self.count_pod("Force deleted ", 0, &mut effects);
                },
                DrainEvent::DeleteFailed => {
                    self.fail_pod(timed_out, &mut effects);
                },
                _ => {},
            },
            DrainPhase::Finished => {},
        }
        assert(effects.deep_view() =~= drain_step(old(self)@, event).1);
        effects
    }

    /// Whether every candidate has been dealt with.
    pub fn is_finished(&self) -> (finished: bool)
        ensures
            finished == (self@.phase is Finished),
    {
        match self.phase {
            DrainPhase::Finished => true,
            _ => false,
        }
    }

    /// The result of the drain as it stands; final once the run is
    /// finished.
    pub fn result(&self) -> (result: DrainResult)
        ensures
            result@ == drain_result(self@),
    {
        DrainResult {
            node: self.node.clone(),
            success: self.failed_pods.len() == 0,
            pods_evicted: self.evicted,
            failed_pods: clone_texts(&self.failed_pods),
            force_deleted_pods: clone_texts(&self.force_deleted_pods),
            error: None,
        }
    }
}


/// How the text of a failed eviction is read: a missing pod first, then a
/// disruption budget in the way, then anything else.
pub open spec fn eviction_error_kind(message: Seq<char>) -> DrainEvent {
    if contains(message, "404"@) || contains(message, "not found"@) {
        DrainEvent::NotFound
    } else if contains(message, "429"@) || contains(message, "disruption budget"@) || contains(
        message,
        "PodDisruptionBudget"@,
    ) || contains(message, "Cannot evict"@) {
        DrainEvent::Blocked
    } else {
        DrainEvent::EvictFailed
    }
}

/// The event that the answer to an eviction request stands for.
pub open spec fn eviction_event_of(outcome: Result<(), Seq<char>>) -> DrainEvent {
    match outcome {
        Ok(_) => DrainEvent::Evicted,
        Err(message) => eviction_error_kind(message),
    }
}

/// The event that the answer to a deletion request stands for.
pub open spec fn deletion_event_of(outcome: Result<(), Seq<char>>) -> DrainEvent {
    match outcome {
        Ok(_) => DrainEvent::Deleted,
        Err(_) => DrainEvent::DeleteFailed,
    }
}

/// Reads the error text of a failed eviction.
pub fn classify_eviction_error(message: &str) -> (event: DrainEvent)
    ensures
        event == eviction_error_kind(message@),
{
    if text_contains(message, "404") || text_contains(message, "not found") {
        DrainEvent::NotFound
    } else if text_contains(message, "429") || text_contains(message, "disruption budget")
        || text_contains(message, "PodDisruptionBudget") || text_contains(
        message,
        "Cannot evict",
    ) {
        DrainEvent::Blocked
    } else {
        DrainEvent::EvictFailed
    }
}

/// Turns the answer to an eviction request (`Err` holds the error text)
/// into an event.
pub fn eviction_event(outcome: &Result<(), String>) -> (event: DrainEvent)
    ensures
        event == eviction_event_of(
            match *outcome {
                Ok(_) => Ok(()),
                Err(message) => Err(message@),
            },
        ),
{
    match outcome {
        Ok(_) => DrainEvent::Evicted,
        Err(message) => classify_eviction_error(message.as_str()),
    }
}

/// Turns the answer to a deletion request (`Err` holds the error text)
/// into an event.
pub fn deletion_event(outcome: &Result<(), String>) -> (event: DrainEvent)
    ensures
        event == deletion_event_of(
            match *outcome {
                Ok(_) => Ok(()),
                Err(message) => Err(message@),
            },
        ),
{
    match outcome {
        Ok(_) => DrainEvent::Deleted,
        Err(_) => DrainEvent::DeleteFailed,
    }
}

/// Every candidate is the record of an eligible pod of the list.
pub proof fn candidates_are_eligible_pods(pods: Seq<PodView>, options: DrainOptions, i: int)
    requires
        0 <= i < eviction_candidates(pods, options).len(),
    ensures
        exists|j: int|
            0 <= j < pods.len() && is_eviction_eligible(#[trigger] pods[j], options)
                && eviction_candidates(pods, options)[i] == candidate_of(pods[j]),
    decreases pods.len(),
{
    if pods.len() > 0 {
        let rest = eviction_candidates(pods.drop_last(), options);
        if i < rest.len() {
            candidates_are_eligible_pods(pods.drop_last(), options, i);
            let j = choose|j: int|
                0 <= j < pods.drop_last().len() && is_eviction_eligible(
                    #[trigger] pods.drop_last()[j],
                    options,
                ) && rest[i] == candidate_of(pods.drop_last()[j]);
            assert(pods[j] == pods.drop_last()[j]);
        } else {
            assert(is_eviction_eligible(pods[pods.len() - 1], options));
        }
    }
}

/// While DaemonSets are ignored, no DaemonSet pod is a candidate, so no
/// request of the drain ever names one.
pub proof fn daemonset_pods_are_never_candidates(pods: Seq<PodView>, options: DrainOptions, i: int)
    requires
        options.ignore_daemonsets,
        0 <= i < eviction_candidates(pods, options).len(),
    ensures
        !eviction_candidates(pods, options)[i].is_daemonset_pod,
{
    candidates_are_eligible_pods(pods, options, i);
}

/// Unless emptyDir data may be deleted, no pod with an emptyDir volume is
/// a candidate, so no request of the drain ever names one.
pub proof fn emptydir_pods_are_never_candidates(pods: Seq<PodView>, options: DrainOptions, i: int)
    requires
        !options.delete_emptydir_data,
        0 <= i < eviction_candidates(pods, options).len(),
    ensures
        !eviction_candidates(pods, options)[i].has_empty_dir_volume,
{
    candidates_are_eligible_pods(pods, options, i);
}

/// No mirror pod is a candidate, whatever the options.
pub proof fn mirror_pods_are_never_candidates(pods: Seq<PodView>, options: DrainOptions, i: int)
    requires
        0 <= i < eviction_candidates(pods, options).len(),
    ensures
        exists|j: int|
            0 <= j < pods.len() && !is_mirror_pod(#[trigger] pods[j]) && eviction_candidates(
                pods,
                options,
            )[i] == candidate_of(pods[j]),
{
    candidates_are_eligible_pods(pods, options, i);
    let j = choose|j: int|
        0 <= j < pods.len() && is_eviction_eligible(#[trigger] pods[j], options)
            && eviction_candidates(pods, options)[i] == candidate_of(pods[j]);
    assert(!is_mirror_pod(pods[j]));
}

/// Whether `effect` is a request that names `candidate`.
pub open spec fn names_candidate(effect: EffectView, candidate: CandidateView) -> bool {
    match effect {
        EffectView::Evict { namespace, name } => namespace == candidate.namespace && name
            == candidate.name,
        EffectView::ForceDelete { namespace, name, .. } => namespace == candidate.namespace
            && name == candidate.name,
        _ => false,
    }
}

/// The first state of a drain is well-formed, and the only request among
/// its first effects is the eviction of the first candidate.
pub proof fn drain_start_is_well_formed(
    node: Seq<char>,
    candidates: Seq<CandidateView>,
    options: DrainOptions,
)
    ensures
        drain_state_wf(drain_start(node, candidates, options).0),
        drain_start(node, candidates, options).0.candidates == candidates,
        forall|k: int|
            #![trigger drain_start(node, candidates, options).1[k]]
            0 <= k < drain_start(node, candidates, options).1.len() ==> {
                let effect = drain_start(node, candidates, options).1[k];
                &&& !(effect is ForceDelete)
                &&& effect is Evict ==> candidates.len() > 0 && names_candidate(
                    effect,
                    candidates[0],
                )
            },
{
}

/// A step keeps a well-formed state well-formed, and never changes the
/// node, the options or the candidates.
pub proof fn drain_step_preserves_wf(s: DrainStateView, event: DrainEvent)
    requires
        drain_state_wf(s),
    ensures
        drain_state_wf(drain_step(s, event).0),
        drain_step(s, event).0.candidates == s.candidates,
        drain_step(s, event).0.options == s.options,
        drain_step(s, event).0.node == s.node,
{
}

/// Every request that a step hands out names the candidate under the
/// cursor of the state it leads to: requests name candidates and nothing
/// else.
pub proof fn requests_name_the_current_candidate(s: DrainStateView, event: DrainEvent, k: int)
    requires
        drain_state_wf(s),
        0 <= k < drain_step(s, event).1.len(),
        drain_step(s, event).1[k] is Evict || drain_step(s, event).1[k] is ForceDelete,
    ensures
        drain_step(s, event).0.cursor < s.candidates.len(),
        names_candidate(
            drain_step(s, event).1[k],
            s.candidates[drain_step(s, event).0.cursor as int],
        ),
{
}

/// A drain has succeeded if and only if no pod is recorded as failed.
pub proof fn success_iff_no_failed_pods(s: DrainStateView)
    ensures
        drain_result(s).success <==> drain_result(s).failed_pods.len() == 0,
{
}

/// A force-deletion is requested only where the options allow it and the
/// pod under the cursor is unmanaged, and it is that pod that is named.
pub proof fn force_delete_only_when_allowed(s: DrainStateView, event: DrainEvent, k: int)
    requires
        drain_state_wf(s),
        0 <= k < drain_step(s, event).1.len(),
        drain_step(s, event).1[k] is ForceDelete,
    ensures
        s.options.force_delete_unmanaged,
        s.phase is Evicting,
        !s.candidates[s.cursor as int].is_managed,
        names_candidate(drain_step(s, event).1[k], s.candidates[s.cursor as int]),
{
}

/// Whether `event` ends the attempts to evict the pod under the cursor
/// without evicting it.
pub open spec fn eviction_is_abandoned(s: DrainStateView, event: DrainEvent) -> bool {
    s.phase is Evicting && (event is EvictFailed || (event is Blocked && s.attempts + 1
        >= spec_max_attempts(s.options.per_pod_timeout_secs)))
}

/// Where force-deletion is off, or the pod is managed, a pod whose
/// eviction is abandoned lands in the failed pods and never among the
/// force-deleted ones, and no deletion is requested.
pub proof fn unforced_pod_lands_in_failed(s: DrainStateView, event: DrainEvent)
    requires
        drain_state_wf(s),
        eviction_is_abandoned(s, event),
        !s.options.force_delete_unmanaged || s.candidates[s.cursor as int].is_managed,
    ensures
        drain_step(s, event).0.failed_pods == s.failed_pods.push(
            key_of(s.candidates[s.cursor as int]),
        ),
        drain_step(s, event).0.force_deleted_pods == s.force_deleted_pods,
        drain_step(s, event).0.evicted == s.evicted,
        forall|k: int|
            0 <= k < drain_step(s, event).1.len() ==> !(#[trigger] drain_step(s, event).1[k]
                is ForceDelete),
{
}

/// A pod is force-deleted only after its force-deletion was requested and
/// accepted: the list of force-deleted pods grows by the pod under the
/// cursor on `Deleted` in the deleting phase, and on nothing else.
pub proof fn force_deleted_only_on_accepted_deletion(s: DrainStateView, event: DrainEvent)
    requires
        drain_state_wf(s),
    ensures
        (s.phase is Deleting && event is Deleted) ==> drain_step(s, event).0.force_deleted_pods
            == s.force_deleted_pods.push(key_of(s.candidates[s.cursor as int])),
        !(s.phase is Deleting && event is Deleted) ==> drain_step(s, event).0.force_deleted_pods
            == s.force_deleted_pods,
{
}

/// A pod that is gone when its eviction is requested counts as evicted and
/// never as failed.
pub proof fn not_found_counts_as_evicted(s: DrainStateView)
    requires
        drain_state_wf(s),
        s.phase is Evicting,
    ensures
        drain_step(s, DrainEvent::NotFound).0.evicted == s.evicted + 1,
        drain_step(s, DrainEvent::NotFound).0.failed_pods == s.failed_pods,
        drain_step(s, DrainEvent::NotFound).0.force_deleted_pods == s.force_deleted_pods,
        drain_step(s, DrainEvent::NotFound).0.cursor == s.cursor + 1,
{
}

/// Pods are dealt with in listed order: a step leaves the cursor where it
/// is or moves it to the next candidate.
pub proof fn cursor_moves_in_listed_order(s: DrainStateView, event: DrainEvent)
    requires
        drain_state_wf(s),
    ensures
        drain_step(s, event).0.cursor == s.cursor || drain_step(s, event).0.cursor == s.cursor
            + 1,
{
}


/// Everything that a drain in state `s` hands out while it takes the
/// events `events` one after the other.
pub open spec fn effects_of_events(s: DrainStateView, events: Seq<DrainEvent>) -> Seq<EffectView>
    decreases events.len(),
{
    if events.len() == 0 {
        Seq::empty()
    } else {
        drain_step(s, events[0]).1 + effects_of_events(
            drain_step(s, events[0]).0,
            events.drop_first(),
        )
    }
}

/// Everything that the drain of a node with `pods` hands out from its
/// start on while it takes the events `events`.
pub open spec fn effects_of_drain(
    node: Seq<char>,
    pods: Seq<PodView>,
    options: DrainOptions,
    events: Seq<DrainEvent>,
) -> Seq<EffectView> {
    let started = drain_start(node, eviction_candidates(pods, options), options);
    started.1 + effects_of_events(started.0, events)
}

/// Whatever the scheduler API answers: every request that a drain ever
/// hands out names one of its candidates.
pub proof fn every_request_names_a_candidate(s: DrainStateView, events: Seq<DrainEvent>, k: int)
    requires
        drain_state_wf(s),
        0 <= k < effects_of_events(s, events).len(),
        effects_of_events(s, events)[k] is Evict || effects_of_events(s, events)[k] is ForceDelete,
    ensures
        exists|i: int|
            0 <= i < s.candidates.len() && names_candidate(
                effects_of_events(s, events)[k],
                #[trigger] s.candidates[i],
            ),
    decreases events.len(),
{
    let first = drain_step(s, events[0]);
    drain_step_preserves_wf(s, events[0]);
    if k < first.1.len() {
        requests_name_the_current_candidate(s, events[0], k);
        assert(names_candidate(first.1[k], s.candidates[first.0.cursor as int]));
    } else {
        let rest = effects_of_events(first.0, events.drop_first());
        assert(effects_of_events(s, events)[k] == rest[k - first.1.len()]);
        every_request_names_a_candidate(first.0, events.drop_first(), k - first.1.len());
    }
}

/// Whatever the scheduler API answers: every request of the drain of a
/// node names an eligible pod of the node. So, while DaemonSets are
/// ignored, no eviction or deletion of a DaemonSet pod is ever
/// attempted; unless emptyDir data may be deleted, none of a pod with an
/// emptyDir volume; and none of a mirror pod at all.
pub proof fn requests_spare_ineligible_pods(
    node: Seq<char>,
    pods: Seq<PodView>,
    options: DrainOptions,
    events: Seq<DrainEvent>,
    k: int,
)
    requires
        0 <= k < effects_of_drain(node, pods, options, events).len(),
        effects_of_drain(node, pods, options, events)[k] is Evict || effects_of_drain(
            node,
            pods,
            options,
            events,
        )[k] is ForceDelete,
    ensures
        exists|j: int|
            0 <= j < pods.len() && names_candidate(
                effects_of_drain(node, pods, options, events)[k],
                candidate_of(#[trigger] pods[j]),
            ) && is_eviction_eligible(pods[j], options) && !is_mirror_pod(pods[j]) && !(
            options.ignore_daemonsets && is_daemonset_pod(pods[j])) && !(
            !options.delete_emptydir_data && has_empty_dir(pods[j])),
{
    let candidates = eviction_candidates(pods, options);
    let started = drain_start(node, candidates, options);
    let effect = effects_of_drain(node, pods, options, events)[k];
    drain_start_is_well_formed(node, candidates, options);
    let i = if k < started.1.len() {
        assert(effect == started.1[k]);
        0int
    } else {
        assert(effect == effects_of_events(started.0, events)[k - started.1.len()]);
        every_request_names_a_candidate(started.0, events, k - started.1.len());
        choose|i: int|
            0 <= i < candidates.len() && names_candidate(effect, #[trigger] candidates[i])
    };
    assert(0 <= i < candidates.len() && names_candidate(effect, candidates[i]));
    candidates_are_eligible_pods(pods, options, i);
    let j = choose|j: int|
        0 <= j < pods.len() && is_eviction_eligible(#[trigger] pods[j], options) && candidates[i]
            == candidate_of(pods[j]);
    assert(names_candidate(effect, candidate_of(pods[j])));
}


/// Begins the drain of `node` from the answer to a listing of the pods
/// bound to it (`Err` holds the error text): a failed listing is
/// surfaced as an API error, and nothing is evicted.
pub fn begin_drain(node: &str, listing: &Result<Vec<PodRecord>, String>, options: &DrainOptions) -> (
    result: Result<(DrainRun, Vec<DrainEffect>), K8sError>)
    ensures
        match *listing {
            Ok(pods) => result is Ok && (result->Ok_0.0@, result->Ok_0.1.deep_view())
                == drain_start(node@, eviction_candidates(pods.deep_view(), *options), *options)
                && drain_state_wf(result->Ok_0.0@),
            Err(error) => result is Err && result->Err_0@ == K8sErrorView::ApiError(
                "Failed to list pods: "@ + error@,
            ),
        },
{
    match listing {
        Ok(pods) => Ok(DrainRun::start(node, pods, options)),
        Err(error) => Err(K8sError::list_pods_failed(error.as_str())),
    }
}


/// An eviction that a disruption budget blocks is retried for the same
/// pod while the pod's attempts last; the attempt that uses up the last
/// of them ends the retries: the pod is force-deleted or given up, and
/// the drain moves on.
pub proof fn blocked_eviction_is_retried_within_budget(s: DrainStateView)
    requires
        drain_state_wf(s),
        s.phase is Evicting,
    ensures
        s.attempts + 1 < spec_max_attempts(s.options.per_pod_timeout_secs) ==> {
            &&& drain_step(s, DrainEvent::Blocked).0.cursor == s.cursor
            &&& drain_step(s, DrainEvent::Blocked).0.phase is Evicting
            &&& drain_step(s, DrainEvent::Blocked).0.attempts == s.attempts + 1
            &&& drain_step(s, DrainEvent::Blocked).1.last() == (EffectView::Evict {
                namespace: s.candidates[s.cursor as int].namespace,
                name: s.candidates[s.cursor as int].name,
            })
        },
        s.attempts + 1 >= spec_max_attempts(s.options.per_pod_timeout_secs) ==> drain_step(
            s,
            DrainEvent::Blocked,
        ).0.phase is Deleting || drain_step(s, DrainEvent::Blocked).0.cursor == s.cursor + 1,
{
}

/// A finished drain has dealt with every candidate: each is counted as
/// evicted or recorded as failed, and the force-deleted ones are among
/// the evicted.
pub proof fn finished_drain_accounts_for_every_candidate(s: DrainStateView)
    requires
        drain_state_wf(s),
        s.phase is Finished,
    ensures
        drain_result(s).pods_evicted + drain_result(s).failed_pods.len() == s.candidates.len(),
        drain_result(s).force_deleted_pods.len() <= drain_result(s).pods_evicted,
        drain_result(s).success <==> drain_result(s).pods_evicted == s.candidates.len(),
{
}

} // verus!
