//! Workload health: which pods crash, fail to pull their image or hang in
//! `Pending`.

use crate::client::{K8sError, K8sErrorView};
use crate::records::{ContainerRecord, ContainerView, PodRecord, PodView};
use crate::text::{append_decimal, decimal, text_eq};
use vstd::prelude::*;
use vstd::string::*;

verus! {

/// Information about an unhealthy pod.
#[derive(Debug, Clone)]
pub struct UnhealthyPodInfo {
    /// Pod name.
    pub name: String,
    /// Pod namespace.
    pub namespace: String,
    /// Container state, such as `CrashLoopBackOff` or `ImagePullBackOff`.
    pub state: String,
    /// Number of restarts.
    pub restart_count: i32,
    /// Last termination reason, if any.
    pub last_reason: Option<String>,
}

/// What a `UnhealthyPodInfo` holds, every text taken as its characters.
pub struct UnhealthyPodView {
    pub name: Seq<char>,
    pub namespace: Seq<char>,
    pub state: Seq<char>,
    pub restart_count: i32,
    pub last_reason: Option<Seq<char>>,
}

impl View for UnhealthyPodInfo {
    type V = UnhealthyPodView;

    open spec fn view(&self) -> UnhealthyPodView {
        UnhealthyPodView {
            name: self.name@,
            namespace: self.namespace@,
            state: self.state@,
            restart_count: self.restart_count,
            last_reason: self.last_reason.deep_view(),
        }
    }
}

impl DeepView for UnhealthyPodInfo {
    type V = UnhealthyPodView;

    open spec fn deep_view(&self) -> UnhealthyPodView {
        self@
    }
}

/// Pod health summary.
#[derive(Debug, Clone)]
pub struct PodHealthInfo {
    /// Pods in CrashLoopBackOff.
    pub crashing: Vec<UnhealthyPodInfo>,
    /// Pods that cannot pull their image.
    pub image_pull_errors: Vec<UnhealthyPodInfo>,
    /// Pods stuck in Pending.
    pub pending: Vec<UnhealthyPodInfo>,
    /// Total pod count.
    pub total_pods: usize,
}

impl Default for PodHealthInfo {
    fn default() -> (info: Self)
        ensures
            info.crashing@.len() == 0,
            info.image_pull_errors@.len() == 0,
            info.pending@.len() == 0,
            info.total_pods == 0,
    {
        PodHealthInfo {
            crashing: Vec::new(),
            image_pull_errors: Vec::new(),
            pending: Vec::new(),
            total_pods: 0,
        }
    }
}

/// The two ailments that a waiting container can show.
#[derive(Debug, Clone, Copy, PartialEq, Eq, Structural)]
pub enum Ailment {
    /// Waiting with reason `CrashLoopBackOff`.
    CrashLoop,
    /// Waiting with reason `ImagePullBackOff` or `ErrImagePull`.
    ImagePull,
}

/// The ailment that a container shows, if any.
pub open spec fn ailment_of(container: ContainerView) -> Option<Ailment> {
    match container.waiting_reason {
        Some(reason) => if reason == "CrashLoopBackOff"@ {
            Some(Ailment::CrashLoop)
        } else if reason == "ImagePullBackOff"@ || reason == "ErrImagePull"@ {
            Some(Ailment::ImagePull)
        } else {
            None
        },
        None => None,
    }
}

/// The entry reported for an ailing container of `pod`.
pub open spec fn finding_of(pod: PodView, container: ContainerView) -> UnhealthyPodView {
    UnhealthyPodView {
        name: pod.name,
        namespace: pod.namespace,
        state: container.waiting_reason->0,
        restart_count: container.restart_count,
        last_reason: container.last_terminated_reason,
    }
}

/// The entries for the containers among `containers` that show
/// `ailment`, in listed order.
pub open spec fn container_findings(
    pod: PodView,
    containers: Seq<ContainerView>,
    ailment: Ailment,
) -> Seq<UnhealthyPodView>
    decreases containers.len(),
{
    if containers.len() == 0 {
        Seq::empty()
    } else if ailment_of(containers.last()) == Some(ailment) {
        container_findings(pod, containers.drop_last(), ailment).push(
            finding_of(pod, containers.last()),
        )
    } else {
        container_findings(pod, containers.drop_last(), ailment)
    }
}

/// The entries for all containers of `pods` that show `ailment`: pod by
/// pod, container by container.
pub open spec fn pod_findings(pods: Seq<PodView>, ailment: Ailment) -> Seq<UnhealthyPodView>
    decreases pods.len(),
{
    if pods.len() == 0 {
        Seq::empty()
    } else {
        pod_findings(pods.drop_last(), ailment) + container_findings(
            pods.last(),
            pods.last().containers,
            ailment,
        )
    }
}

/// A pod hangs in `Pending` when that is its phase and it has conditions
/// but no container status yet.
pub open spec fn is_stuck_pending(pod: PodView) -> bool {
    pod.phase == Some("Pending"@) && pod.conditions.len() > 0 && pod.containers.len() == 0
}

/// The entry reported for a pod that hangs in `Pending`.
pub open spec fn pending_finding_of(pod: PodView) -> UnhealthyPodView {
    UnhealthyPodView {
        name: pod.name,
        namespace: pod.namespace,
        state: "Pending"@,
        restart_count: 0,
        last_reason: None,
    }
}

/// The entries for the pods that hang in `Pending`, in listed order.
pub open spec fn pending_findings(pods: Seq<PodView>) -> Seq<UnhealthyPodView>
    decreases pods.len(),
{
    if pods.len() == 0 {
        Seq::empty()
    } else if is_stuck_pending(pods.last()) {
        pending_findings(pods.drop_last()).push(pending_finding_of(pods.last()))
    } else {
        pending_findings(pods.drop_last())
    }
}

fn push_finding(list: &mut Vec<UnhealthyPodInfo>, item: UnhealthyPodInfo)
    ensures
        final(list).deep_view() == old(list).deep_view().push(item@),
{
    list.push(item);
    assert(list.deep_view() =~= old(list).deep_view().push(item@));
}

fn clone_optional_text(text: &Option<String>) -> (copy: Option<String>)
    ensures
        copy.deep_view() == text.deep_view(),
{
    match text {
        Some(t) => Some(t.clone()),
        None => None,
    }
}

/// Reads the ailment of a container off its waiting reason.
pub fn container_ailment(container: &ContainerRecord) -> (ailment: Option<Ailment>)
    ensures
        ailment == ailment_of(container@),
{
    match &container.waiting_reason {
        Some(reason) => {
            let reason = reason.as_str();
            if text_eq(reason, "CrashLoopBackOff") {
                Some(Ailment::CrashLoop)
            } else if text_eq(reason, "ImagePullBackOff") || text_eq(reason, "ErrImagePull") {
                Some(Ailment::ImagePull)
            } else {
                None
            }
        },
        None => None,
    }
}

fn make_finding(pod: &PodRecord, container: &ContainerRecord) -> (item: UnhealthyPodInfo)
    requires
        container.waiting_reason is Some,
    ensures
        item@ == finding_of(pod@, container@),
{
    let state = match &container.waiting_reason {
        Some(reason) => reason.clone(),
        None => String::new(),
    };
    UnhealthyPodInfo {
        name: pod.name.clone(),
        namespace: pod.namespace.clone(),
        state,
        restart_count: container.restart_count,
        last_reason: clone_optional_text(&container.last_terminated_reason),
    }
}

/// Whether a pod hangs in `Pending`.
pub fn pod_is_stuck_pending(pod: &PodRecord) -> (stuck: bool)
    ensures
        stuck == is_stuck_pending(pod@),
{
    let pending = match &pod.phase {
        Some(phase) => text_eq(phase.as_str(), "Pending"),
        None => false,
    };
    pending && pod.conditions.len() > 0 && pod.containers.len() == 0
}

/// Surveys the pods of the cluster: every container that crash-loops or
/// cannot pull its image gives one entry, every pod that hangs in
/// `Pending` one more.
pub fn pod_health(pods: &Vec<PodRecord>) -> (info: PodHealthInfo)
    ensures
        info.total_pods == pods.len(),
        info.crashing.deep_view() == pod_findings(pods.deep_view(), Ailment::CrashLoop),
        info.image_pull_errors.deep_view() == pod_findings(pods.deep_view(), Ailment::ImagePull),
        info.pending.deep_view() == pending_findings(pods.deep_view()),
{
    let mut crashing: Vec<UnhealthyPodInfo> = Vec::new();
    let mut image_pull_errors: Vec<UnhealthyPodInfo> = Vec::new();
    let mut pending: Vec<UnhealthyPodInfo> = Vec::new();
    let mut i: usize = 0;
    assert(pods.deep_view().take(0) =~= Seq::empty());
    while i < pods.len()
        invariant
            i <= pods.len(),
            crashing.deep_view() == pod_findings(
                pods.deep_view().take(i as int),
                Ailment::CrashLoop,
            ),
            image_pull_errors.deep_view() == pod_findings(
                pods.deep_view().take(i as int),
                Ailment::ImagePull,
            ),
            pending.deep_view() == pending_findings(pods.deep_view().take(i as int)),
        decreases pods.len() - i,
    {
        let pod = &pods[i];
        let ghost crashing_before = crashing.deep_view();
        let ghost image_before = image_pull_errors.deep_view();
        proof {
            let prefix = pods.deep_view().take(i + 1);
            assert(prefix.drop_last() =~= pods.deep_view().take(i as int));
            assert(prefix.last() == pod@);
            assert(pod@.containers.take(0) =~= Seq::empty());
        }
        let mut k: usize = 0;
        while k < pod.containers.len()
            invariant
                k <= pod.containers.len(),
                crashing.deep_view() == crashing_before + container_findings(
                    pod@,
                    pod@.containers.take(k as int),
                    Ailment::CrashLoop,
                ),
                image_pull_errors.deep_view() == image_before + container_findings(
                    pod@,
                    pod@.containers.take(k as int),
                    Ailment::ImagePull,
                ),
            decreases pod.containers.len() - k,
        {
            let container = &pod.containers[k];
            proof {
                let prefix = pod@.containers.take(k + 1);
                assert(prefix.drop_last() =~= pod@.containers.take(k as int));
                assert(prefix.last() == container@);
            }
            match container_ailment(container) {
                Some(Ailment::CrashLoop) => {
                    push_finding(&mut crashing, make_finding(pod, container));
                    assert(crashing.deep_view() =~= crashing_before + container_findings(
                        pod@,
                        pod@.containers.take(k + 1),
                        Ailment::CrashLoop,
                    ));
                },
                Some(Ailment::ImagePull) => {
                    push_finding(&mut image_pull_errors, make_finding(pod, container));
                    assert(image_pull_errors.deep_view() =~= image_before + container_findings(
                        pod@,
                        pod@.containers.take(k + 1),
                        Ailment::ImagePull,
                    ));
                },
                None => {},
            }
            k += 1;
        }
        assert(pod@.containers.take(pod.containers.len() as int) =~= pod@.containers);
        if pod_is_stuck_pending(pod) {
            push_finding(
                &mut pending,
                UnhealthyPodInfo {
                    name: pod.name.clone(),
                    namespace: pod.namespace.clone(),
                    state: "Pending".to_string(),
                    restart_count: 0,
                    last_reason: None,
                },
            );
        }
        i += 1;
    }
    assert(pods.deep_view().take(pods.len() as int) =~= pods.deep_view());
    PodHealthInfo { crashing, image_pull_errors, pending, total_pods: pods.len() }
}

/// `texts` joined with `separator` between each two of them.
pub open spec fn joined(texts: Seq<Seq<char>>, separator: Seq<char>) -> Seq<char>
    decreases texts.len(),
{
    if texts.len() == 0 {
        Seq::empty()
    } else if texts.len() == 1 {
        texts[0]
    } else {
        joined(texts.drop_last(), separator) + separator + texts.last()
    }
}

/// `N <what>`, or nothing where `count` is zero.
pub open spec fn count_part(count: nat, what: Seq<char>) -> Seq<Seq<char>> {
    if count == 0 {
        Seq::empty()
    } else {
        seq![decimal(count) + what]
    }
}

/// The summary line of a pod survey: `All pods healthy`, or the non-zero
/// counts of crashing pods, image errors and pending pods, in that order,
/// separated by commas.
pub open spec fn pod_health_summary(crashing: nat, image_errors: nat, pending: nat) -> Seq<char> {
    if crashing == 0 && image_errors == 0 && pending == 0 {
        "All pods healthy"@
    } else {
        joined(
            count_part(crashing, " crashing"@) + count_part(image_errors, " image errors"@)
                + count_part(pending, " pending"@),
            ", "@,
        )
    }
}

fn append_part(line: &mut String, parts: Ghost<Seq<Seq<char>>>, count: usize, what: &str) -> (after:
    Ghost<Seq<Seq<char>>>)
    requires
        old(line)@ == joined(parts@, ", "@),
        forall|i: int| 0 <= i < parts@.len() ==> (#[trigger] parts@[i]).len() > 0,
    ensures
        final(line)@ == joined(after@, ", "@),
        after@ == parts@ + count_part(count as nat, what@),
        forall|i: int| 0 <= i < after@.len() ==> (#[trigger] after@[i]).len() > 0,
{
    if count == 0 {
        assert(parts@ + count_part(count as nat, what@) =~= parts@);
        return parts;
    }
    let ghost part = decimal(count as nat) + what@;
    let ghost all = parts@.push(part);
    assert(decimal(count as nat).len() > 0);
    assert(all =~= parts@ + count_part(count as nat, what@));
    assert(all.drop_last() =~= parts@);
    if line.as_str().unicode_len() > 0 {
        proof {
            assert(parts@.len() > 0);
        }
        line.append(", ");
        append_decimal(line, count as u128);
        line.append(what);
        assert(line@ =~= joined(parts@, ", "@) + ", "@ + part);
    } else {
        append_decimal(line, count as u128);
        line.append(what);
        proof {
            assert(line@ =~= part);
            if parts@.len() > 0 {
                lemma_joined_of_nonempty_parts(parts@);
            }
        }
    }
    Ghost(all)
}

/// A join of one or more non-empty parts is not empty.
proof fn lemma_joined_of_nonempty_parts(parts: Seq<Seq<char>>)
    requires
        parts.len() > 0,
        forall|i: int| 0 <= i < parts.len() ==> (#[trigger] parts[i]).len() > 0,
    ensures
        joined(parts, ", "@).len() > 0,
{
    assert(parts.last().len() > 0);
}

impl PodHealthInfo {
    /// Whether any pod crashes or cannot pull its image.
    pub fn has_issues(&self) -> (issues: bool)
        ensures
            issues == (self.crashing@.len() > 0 || self.image_pull_errors@.len() > 0),
    {
        self.crashing.len() > 0 || self.image_pull_errors.len() > 0
    }

    /// The summary line.
    pub fn summary(&self) -> (line: String)
        ensures
            line@ == pod_health_summary(
                self.crashing@.len(),
                self.image_pull_errors@.len(),
                self.pending@.len(),
            ),
    {
        if self.crashing.len() == 0 && self.image_pull_errors.len() == 0 && self.pending.len()
            == 0 {
            return "All pods healthy".to_string();
        }
        let mut line = String::new();
        let parts: Ghost<Seq<Seq<char>>> = Ghost(Seq::empty());
        let parts = append_part(&mut line, parts, self.crashing.len(), " crashing");
        let parts = append_part(&mut line, parts, self.image_pull_errors.len(), " image errors");
        let parts = append_part(&mut line, parts, self.pending.len(), " pending");
        assert(parts@ =~= count_part(self.crashing@.len(), " crashing"@) + count_part(
            self.image_pull_errors@.len(),
            " image errors"@,
        ) + count_part(self.pending@.len(), " pending"@));
        line
    }
}


/// Surveys the pods from the answer to a listing of all pods (`Err` holds
/// the error text): a failed listing is surfaced as an API error.
pub fn check_pod_health(listing: &Result<Vec<PodRecord>, String>) -> (result: Result<
    PodHealthInfo,
    K8sError,
>)
    ensures
        match *listing {
            Ok(pods) => result is Ok && result->Ok_0.total_pods == pods.len()
                && result->Ok_0.crashing.deep_view() == pod_findings(
                pods.deep_view(),
                Ailment::CrashLoop,
            ) && result->Ok_0.image_pull_errors.deep_view() == pod_findings(
                pods.deep_view(),
                Ailment::ImagePull,
            ) && result->Ok_0.pending.deep_view() == pending_findings(pods.deep_view()),
            Err(error) => result is Err && result->Err_0@ == K8sErrorView::ApiError(error@),
        },
{
    match listing {
        Ok(pods) => Ok(pod_health(pods)),
        Err(error) => Err(K8sError::ApiError(error.clone())),
    }
}

} // verus!
