//! Detection of the cluster's network plugin (CNI) from the pods of the
//! `kube-system` namespace, and a summary of how its pods fare.

use crate::client::{K8sError, K8sErrorView};
use crate::records::{
    ConditionRecord, ConditionView, ContainerRecord, ContainerView, PodRecord, PodView,
};
use crate::text::{
    append_decimal, append_signed_decimal, decimal, lowercase_of, signed_decimal, starts_with,
    text_eq, text_starts_with, to_lowercase,
};
use vstd::prelude::*;
use vstd::string::*;

verus! {

/// The network plugins that are told apart.
#[derive(Debug, Clone, Copy, PartialEq, Eq, Structural)]
pub enum CniType {
    Unknown,
    Flannel,
    Cilium,
    Calico,
}

impl Default for CniType {
    fn default() -> (kind: Self)
        ensures
            kind == CniType::Unknown,
    {
        CniType::Unknown
    }
}

/// Information about a CNI pod.
#[derive(Debug, Clone)]
pub struct CniPodInfo {
    /// Pod name.
    pub name: String,
    /// Node the pod is running on.
    pub node_name: Option<String>,
    /// Pod phase (`Running`, `Pending`, ...).
    pub phase: String,
    /// Whether the pod is ready.
    pub ready: bool,
    /// Number of restarts, over all containers.
    pub restart_count: i32,
}

/// What a `CniPodInfo` holds, every text taken as its characters.
pub struct CniPodView {
    pub name: Seq<char>,
    pub node_name: Option<Seq<char>>,
    pub phase: Seq<char>,
    pub ready: bool,
    pub restart_count: i32,
}

impl View for CniPodInfo {
    type V = CniPodView;

    open spec fn view(&self) -> CniPodView {
        CniPodView {
            name: self.name@,
            node_name: self.node_name.deep_view(),
            phase: self.phase@,
            ready: self.ready,
            restart_count: self.restart_count,
        }
    }
}

impl DeepView for CniPodInfo {
    type V = CniPodView;

    open spec fn deep_view(&self) -> CniPodView {
        self@
    }
}

/// Detected CNI information.
#[derive(Debug, Clone)]
pub struct CniInfo {
    /// Detected CNI type.
    pub cni_type: CniType,
    /// CNI pods in kube-system.
    pub pods: Vec<CniPodInfo>,
}

impl Default for CniInfo {
    fn default() -> (info: Self)
        ensures
            info.cni_type == CniType::Unknown,
            info.pods@.len() == 0,
    {
        CniInfo { cni_type: CniType::Unknown, pods: Vec::new() }
    }
}

/// The plugin that a pod belongs to, by the lower-case form of its name.
pub open spec fn cni_kind_of(lowered_name: Seq<char>) -> Option<CniType> {
    if starts_with(lowered_name, "kube-flannel"@) || starts_with(lowered_name, "flannel"@) {
        Some(CniType::Flannel)
    } else if starts_with(lowered_name, "cilium"@) {
        Some(CniType::Cilium)
    } else if starts_with(lowered_name, "calico"@) {
        Some(CniType::Calico)
    } else {
        None
    }
}

/// Tells the plugin of a pod from the lower-case form of its name.
pub fn cni_kind_of_lowered_name(lowered_name: &str) -> (kind: Option<CniType>)
    ensures
        kind == cni_kind_of(lowered_name@),
{
    if text_starts_with(lowered_name, "kube-flannel") || text_starts_with(lowered_name, "flannel") {
        Some(CniType::Flannel)
    } else if text_starts_with(lowered_name, "cilium") {
        Some(CniType::Cilium)
    } else if text_starts_with(lowered_name, "calico") {
        Some(CniType::Calico)
    } else {
        None
    }
}

/// The sum of two counts, held at the bounds of `i32`.
pub open spec fn saturating_sum(a: i32, b: i32) -> i32 {
    if a + b > i32::MAX {
        i32::MAX
    } else if a + b < i32::MIN {
        i32::MIN
    } else {
        (a + b) as i32
    }
}

/// The restarts of all `containers`, added up with saturation.
pub open spec fn total_restarts(containers: Seq<ContainerView>) -> i32
    decreases containers.len(),
{
    if containers.len() == 0 {
        0
    } else {
        saturating_sum(total_restarts(containers.drop_last()), containers.last().restart_count)
    }
}

/// A pod is ready when one of its conditions has type `Ready` and status
/// `True`.
pub open spec fn is_ready(conditions: Seq<ConditionView>) -> bool {
    exists|i: int|
        0 <= i < conditions.len() && (#[trigger] conditions[i]).type_ == "Ready"@
            && conditions[i].status == "True"@
}

/// The entry reported for a CNI pod.
pub open spec fn cni_pod_of(pod: PodView) -> CniPodView {
    CniPodView {
        name: pod.name,
        node_name: pod.node_name,
        phase: match pod.phase {
            Some(phase) => phase,
            None => "Unknown"@,
        },
        ready: is_ready(pod.conditions),
        restart_count: total_restarts(pod.containers),
    }
}

/// The entries for the CNI pods among `pods`, in listed order.
pub open spec fn detected_cni_pods(pods: Seq<PodView>) -> Seq<CniPodView>
    decreases pods.len(),
{
    if pods.len() == 0 {
        Seq::empty()
    } else if cni_kind_of(lowercase_of(pods.last().name)) is Some {
        detected_cni_pods(pods.drop_last()).push(cni_pod_of(pods.last()))
    } else {
        detected_cni_pods(pods.drop_last())
    }
}

/// The plugin that `pods` give away: that of the last CNI pod listed.
pub open spec fn detected_cni_type(pods: Seq<PodView>) -> CniType
    decreases pods.len(),
{
    if pods.len() == 0 {
        CniType::Unknown
    } else {
        match cni_kind_of(lowercase_of(pods.last().name)) {
            Some(kind) => kind,
            None => detected_cni_type(pods.drop_last()),
        }
    }
}

fn add_saturating(a: i32, b: i32) -> (sum: i32)
    ensures
        sum == saturating_sum(a, b),
{
    let wide: i64 = a as i64 + b as i64;
    if wide > i32::MAX as i64 {
        i32::MAX
    } else if wide < i32::MIN as i64 {
        i32::MIN
    } else {
        wide as i32
    }
}

fn count_restarts(containers: &Vec<ContainerRecord>) -> (total: i32)
    ensures
        total == total_restarts(containers.deep_view()),
{
    let mut total: i32 = 0;
    let mut i: usize = 0;
    assert(containers.deep_view().take(0) =~= Seq::empty());
    while i < containers.len()
        invariant
            i <= containers.len(),
            total == total_restarts(containers.deep_view().take(i as int)),
        decreases containers.len() - i,
    {
        proof {
            let prefix = containers.deep_view().take(i + 1);
            assert(prefix.drop_last() =~= containers.deep_view().take(i as int));
            assert(prefix.last() == containers[i as int]@);
        }
        total = add_saturating(total, containers[i].restart_count);
        i += 1;
    }
    assert(containers.deep_view().take(containers.len() as int) =~= containers.deep_view());
    total
}

fn conditions_say_ready(conditions: &Vec<ConditionRecord>) -> (ready: bool)
    ensures
        ready == is_ready(conditions.deep_view()),
{
    let mut i: usize = 0;
    while i < conditions.len()
        invariant
            i <= conditions.len(),
            forall|j: int|
                0 <= j < i ==> !((#[trigger] conditions.deep_view()[j]).type_ == "Ready"@
                    && conditions.deep_view()[j].status == "True"@),
        decreases conditions.len() - i,
    {
        let condition = &conditions[i];
        assert(conditions.deep_view()[i as int] == condition@);
        if text_eq(condition.type_.as_str(), "Ready") && text_eq(condition.status.as_str(), "True") {
            return true;
        }
        i += 1;
    }
    false
}

fn make_cni_pod(pod: &PodRecord) -> (info: CniPodInfo)
    ensures
        info@ == cni_pod_of(pod@),
{
    CniPodInfo {
        name: pod.name.clone(),
        node_name: match &pod.node_name {
            Some(node) => Some(node.clone()),
            None => None,
        },
        phase: match &pod.phase {
            Some(phase) => phase.clone(),
            None => "Unknown".to_string(),
        },
        ready: conditions_say_ready(&pod.conditions),
        restart_count: count_restarts(&pod.containers),
    }
}

/// Detects the network plugin from the pods of `kube-system`: a pod
/// whose lower-cased name begins with `kube-flannel`, `flannel`, `cilium`
/// or `calico` is a CNI pod and tells the plugin.
pub fn detect_cni(pods: &Vec<PodRecord>) -> (info: CniInfo)
    ensures
        info.cni_type == detected_cni_type(pods.deep_view()),
        info.pods.deep_view() == detected_cni_pods(pods.deep_view()),
{
    let mut cni_type = CniType::Unknown;
    let mut found: Vec<CniPodInfo> = Vec::new();
    let mut i: usize = 0;
    assert(pods.deep_view().take(0) =~= Seq::empty());
    while i < pods.len()
        invariant
            i <= pods.len(),
            cni_type == detected_cni_type(pods.deep_view().take(i as int)),
            found.deep_view() == detected_cni_pods(pods.deep_view().take(i as int)),
        decreases pods.len() - i,
    {
        let pod = &pods[i];
        let ghost before = found.deep_view();
        proof {
            let prefix = pods.deep_view().take(i + 1);
            assert(prefix.drop_last() =~= pods.deep_view().take(i as int));
            assert(prefix.last() == pod@);
        }
        let lowered = to_lowercase(pod.name.as_str());
        match cni_kind_of_lowered_name(lowered.as_str()) {
            Some(kind) => {
                cni_type = kind;
                let entry = make_cni_pod(pod);
                found.push(entry);
                assert(found.deep_view() =~= before.push(cni_pod_of(pod@)));
            },
            None => {},
        }
        i += 1;
    }
    assert(pods.deep_view().take(pods.len() as int) =~= pods.deep_view());
    CniInfo { cni_type, pods: found }
}

/// A CNI pod is healthy when it runs and is ready.
pub open spec fn is_healthy_cni_pod(pod: CniPodView) -> bool {
    pod.phase == "Running"@ && pod.ready
}

/// The number of healthy pods among `pods`.
pub open spec fn healthy_count(pods: Seq<CniPodView>) -> nat
    decreases pods.len(),
{
    if pods.len() == 0 {
        0
    } else if is_healthy_cni_pod(pods.last()) {
        healthy_count(pods.drop_last()) + 1
    } else {
        healthy_count(pods.drop_last())
    }
}

/// The restarts of all `pods`, added up with saturation.
pub open spec fn cni_restarts(pods: Seq<CniPodView>) -> i32
    decreases pods.len(),
{
    if pods.len() == 0 {
        0
    } else {
        saturating_sum(cni_restarts(pods.drop_last()), pods.last().restart_count)
    }
}

/// `H/T pods healthy`.
pub open spec fn healthy_message(healthy: nat, total: nat) -> Seq<char> {
    decimal(healthy) + "/"@ + decimal(total) + " pods healthy"@
}

/// `H/T pods healthy (R restarts)`.
pub open spec fn restarts_message(healthy: nat, total: nat, restarts: i32) -> Seq<char> {
    healthy_message(healthy, total) + " ("@ + signed_decimal(restarts as int) + " restarts)"@
}

/// The summary line for the CNI pods `pods`: the restarts are named only
/// where every pod is healthy and there were some.
pub open spec fn cni_summary(pods: Seq<CniPodView>) -> Seq<char> {
    if pods.len() == 0 {
        "No CNI pods found"@
    } else if healthy_count(pods) == pods.len() && cni_restarts(pods) != 0 {
        restarts_message(healthy_count(pods), pods.len(), cni_restarts(pods))
    } else {
        healthy_message(healthy_count(pods), pods.len())
    }
}

fn cni_pod_is_healthy(pod: &CniPodInfo) -> (healthy: bool)
    ensures
        healthy == is_healthy_cni_pod(pod@),
{
    text_eq(pod.phase.as_str(), "Running") && pod.ready
}

fn count_healthy(pods: &Vec<CniPodInfo>) -> (healthy: usize)
    ensures
        healthy == healthy_count(pods.deep_view()),
        healthy <= pods.len(),
{
    let mut healthy: usize = 0;
    let mut i: usize = 0;
    assert(pods.deep_view().take(0) =~= Seq::empty());
    while i < pods.len()
        invariant
            i <= pods.len(),
            healthy <= i,
            healthy == healthy_count(pods.deep_view().take(i as int)),
        decreases pods.len() - i,
    {
        proof {
            let prefix = pods.deep_view().take(i + 1);
            assert(prefix.drop_last() =~= pods.deep_view().take(i as int));
            assert(prefix.last() == pods[i as int]@);
        }
        if cni_pod_is_healthy(&pods[i]) {
            healthy += 1;
        }
        i += 1;
    }
    assert(pods.deep_view().take(pods.len() as int) =~= pods.deep_view());
    healthy
}

fn count_cni_restarts(pods: &Vec<CniPodInfo>) -> (total: i32)
    ensures
        total == cni_restarts(pods.deep_view()),
{
    let mut total: i32 = 0;
    let mut i: usize = 0;
    assert(pods.deep_view().take(0) =~= Seq::empty());
    while i < pods.len()
        invariant
            i <= pods.len(),
            total == cni_restarts(pods.deep_view().take(i as int)),
        decreases pods.len() - i,
    {
        proof {
            let prefix = pods.deep_view().take(i + 1);
            assert(prefix.drop_last() =~= pods.deep_view().take(i as int));
            assert(prefix.last() == pods[i as int]@);
        }
        total = add_saturating(total, pods[i].restart_count);
        i += 1;
    }
    assert(pods.deep_view().take(pods.len() as int) =~= pods.deep_view());
    total
}

/// All healthy pods of `pods` make the whole list.
pub proof fn all_healthy_iff_count_is_length(pods: Seq<CniPodView>)
    ensures
        healthy_count(pods) <= pods.len(),
        healthy_count(pods) == pods.len() <==> forall|i: int|
            0 <= i < pods.len() ==> is_healthy_cni_pod(#[trigger] pods[i]),
    decreases pods.len(),
{
    if pods.len() > 0 {
        all_healthy_iff_count_is_length(pods.drop_last());
        if healthy_count(pods) == pods.len() {
            assert forall|i: int| 0 <= i < pods.len() implies is_healthy_cni_pod(
                #[trigger] pods[i],
            ) by {
                if i < pods.len() - 1 {
                    assert(pods.drop_last()[i] == pods[i]);
                }
            }
        } else if is_healthy_cni_pod(pods.last()) {
            let j = choose|j: int|
                0 <= j < pods.drop_last().len() && !is_healthy_cni_pod(
                    #[trigger] pods.drop_last()[j],
                );
            assert(!is_healthy_cni_pod(pods[j]));
        }
    }
}

/// Whether there are CNI pods and all of them run and are ready.
pub fn are_cni_pods_healthy(info: &CniInfo) -> (healthy: bool)
    ensures
        healthy <==> info.pods@.len() > 0 && forall|i: int|
            0 <= i < info.pods@.len() ==> is_healthy_cni_pod(#[trigger] info.pods.deep_view()[i]),
{
    if info.pods.len() == 0 {
        return false;
    }
    let healthy = count_healthy(&info.pods);
    proof {
        all_healthy_iff_count_is_length(info.pods.deep_view());
    }
    healthy == info.pods.len()
}

/// The summary line of the CNI pods' health.
pub fn cni_pod_health_summary(info: &CniInfo) -> (line: String)
    ensures
        line@ == cni_summary(info.pods.deep_view()),
{
    if info.pods.len() == 0 {
        return "No CNI pods found".to_string();
    }
    let total = info.pods.len();
    let healthy = count_healthy(&info.pods);
    let restarts = count_cni_restarts(&info.pods);
    let mut line = String::new();
    append_decimal(&mut line, healthy as u128);
    line.append("/");
    append_decimal(&mut line, total as u128);
    line.append(" pods healthy");
    assert(line@ =~= healthy_message(healthy as nat, total as nat));
    if healthy == total && restarts != 0 {
        line.append(" (");
        append_signed_decimal(&mut line, restarts as i128);
        line.append(" restarts)");
    }
    line
}


/// Detects the network plugin from the answer to a listing of the pods of
/// `kube-system` (`Err` holds the error text): a failed listing is
/// surfaced as an API error.
pub fn detect_cni_from_k8s(listing: &Result<Vec<PodRecord>, String>) -> (result: Result<
    CniInfo,
    K8sError,
>)
    ensures
        match *listing {
            Ok(pods) => result is Ok && result->Ok_0.cni_type == detected_cni_type(
                pods.deep_view(),
            ) && result->Ok_0.pods.deep_view() == detected_cni_pods(pods.deep_view()),
            Err(error) => result is Err && result->Err_0@ == K8sErrorView::ApiError(error@),
        },
{
    match listing {
        Ok(pods) => Ok(detect_cni(pods)),
        Err(error) => Err(K8sError::ApiError(error.clone())),
    }
}

} // verus!
