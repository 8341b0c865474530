//! Typed records of what the scheduler API returns. Each record holds, as
//! plain values, exactly the fields that the probes and the eviction engine
//! read; absent lists are held as empty lists.

use vstd::prelude::*;

verus! {

/// One `conditions[]` entry of a pod or a node.
#[derive(Debug, Clone)]
pub struct ConditionRecord {
    /// Condition type, such as `Ready`.
    pub type_: String,
    /// Condition status: `True`, `False` or `Unknown`.
    pub status: String,
}

/// What a `ConditionRecord` holds, every text taken as its characters.
pub struct ConditionView {
    pub type_: Seq<char>,
    pub status: Seq<char>,
}

impl View for ConditionRecord {
    type V = ConditionView;

    open spec fn view(&self) -> ConditionView {
        ConditionView { type_: self.type_@, status: self.status@ }
    }
}

impl DeepView for ConditionRecord {
    type V = ConditionView;

    open spec fn deep_view(&self) -> ConditionView {
        self@
    }
}

/// One container status of a pod.
#[derive(Debug, Clone)]
pub struct ContainerRecord {
    /// Reason of the waiting state, where the container waits and names one.
    pub waiting_reason: Option<String>,
    /// Number of restarts.
    pub restart_count: i32,
    /// Reason of the last termination, if any.
    pub last_terminated_reason: Option<String>,
}

/// What a `ContainerRecord` holds, every text taken as its characters.
pub struct ContainerView {
    pub waiting_reason: Option<Seq<char>>,
    pub restart_count: i32,
    pub last_terminated_reason: Option<Seq<char>>,
}

impl View for ContainerRecord {
    type V = ContainerView;

    open spec fn view(&self) -> ContainerView {
        ContainerView {
            waiting_reason: self.waiting_reason.deep_view(),
            restart_count: self.restart_count,
            last_terminated_reason: self.last_terminated_reason.deep_view(),
        }
    }
}

impl DeepView for ContainerRecord {
    type V = ContainerView;

    open spec fn deep_view(&self) -> ContainerView {
        self@
    }
}

/// One volume of a pod: whether it is an emptyDir volume.
#[derive(Debug, Clone, Copy)]
pub struct VolumeRecord {
    pub is_empty_dir: bool,
}

/// A pod as listed by the scheduler API.
#[derive(Debug, Clone)]
pub struct PodRecord {
    pub namespace: String,
    pub name: String,
    /// Node the pod is bound to.
    pub node_name: Option<String>,
    /// Pod phase (`Running`, `Pending`, ...).
    pub phase: Option<String>,
    /// The `kind` of each owner reference.
    pub owner_kinds: Vec<String>,
    /// The keys of the pod's annotations.
    pub annotation_keys: Vec<String>,
    pub volumes: Vec<VolumeRecord>,
    pub conditions: Vec<ConditionRecord>,
    pub containers: Vec<ContainerRecord>,
}

/// What a `PodRecord` holds, every text taken as its characters.
pub struct PodView {
    pub namespace: Seq<char>,
    pub name: Seq<char>,
    pub node_name: Option<Seq<char>>,
    pub phase: Option<Seq<char>>,
    pub owner_kinds: Seq<Seq<char>>,
    pub annotation_keys: Seq<Seq<char>>,
    pub volumes: Seq<VolumeRecord>,
    pub conditions: Seq<ConditionView>,
    pub containers: Seq<ContainerView>,
}

impl View for PodRecord {
    type V = PodView;

    open spec fn view(&self) -> PodView {
        PodView {
            namespace: self.namespace@,
            name: self.name@,
            node_name: self.node_name.deep_view(),
            phase: self.phase.deep_view(),
            owner_kinds: self.owner_kinds.deep_view(),
            annotation_keys: self.annotation_keys.deep_view(),
            volumes: self.volumes@,
            conditions: self.conditions.deep_view(),
            containers: self.containers.deep_view(),
        }
    }
}

impl DeepView for PodRecord {
    type V = PodView;

    open spec fn deep_view(&self) -> PodView {
        self@
    }
}

/// A PodDisruptionBudget as listed by the scheduler API. A budget without
/// a status is held with all four counts at zero.
#[derive(Debug, Clone)]
pub struct PdbRecord {
    pub namespace: String,
    pub name: String,
    pub current_healthy: i32,
    pub desired_healthy: i32,
    pub disruptions_allowed: i32,
    pub expected_pods: i32,
}

/// What a `PdbRecord` holds, every text taken as its characters.
pub struct PdbRecordView {
    pub namespace: Seq<char>,
    pub name: Seq<char>,
    pub current_healthy: i32,
    pub desired_healthy: i32,
    pub disruptions_allowed: i32,
    pub expected_pods: i32,
}

impl View for PdbRecord {
    type V = PdbRecordView;

    open spec fn view(&self) -> PdbRecordView {
        PdbRecordView {
            namespace: self.namespace@,
            name: self.name@,
            current_healthy: self.current_healthy,
            desired_healthy: self.desired_healthy,
            disruptions_allowed: self.disruptions_allowed,
            expected_pods: self.expected_pods,
        }
    }
}

impl DeepView for PdbRecord {
    type V = PdbRecordView;

    open spec fn deep_view(&self) -> PdbRecordView {
        self@
    }
}

/// A node as read from the scheduler API.
#[derive(Debug, Clone)]
pub struct NodeRecord {
    pub name: String,
    pub conditions: Vec<ConditionRecord>,
}

/// Whether `items` holds the text `wanted`.
pub fn list_holds(items: &Vec<String>, wanted: &str) -> (found: bool)
    ensures
        found == items.deep_view().contains(wanted@),
{
    let mut i: usize = 0;
    while i < items.len()
        invariant
            i <= items.len(),
            forall|j: int| 0 <= j < i ==> items.deep_view()[j] != wanted@,
        decreases items.len() - i,
    {
        if crate::text::text_eq(items[i].as_str(), wanted) {
            assert(items.deep_view()[i as int] == wanted@);
            return true;
        }
        i += 1;
    }
    false
}

} // verus!
