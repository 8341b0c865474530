//! Read-only probes of the scheduler's state: the readiness condition of
//! a node and the disruption budgets, each computed from the records that
//! the scheduler API returned.

use crate::client::{K8sError, K8sErrorView};
use crate::records::{ConditionRecord, ConditionView, NodeRecord, PdbRecord, PdbRecordView};
use crate::text::{append_decimal, decimal, text_eq};
use vstd::prelude::*;
use vstd::string::*;

verus! {

/// Readiness of a node, as its `Ready` condition tells it.
#[derive(Debug, Clone, Copy, PartialEq, Eq, Structural)]
pub enum NodeConditionStatus {
    Ready,
    NotReady,
    /// The condition is absent, or its status is neither `True` nor
    /// `False`.
    Unknown,
}

/// What the status text of a `Ready` condition means.
pub open spec fn status_of(status: Seq<char>) -> NodeConditionStatus {
    if status == "True"@ {
        NodeConditionStatus::Ready
    } else if status == "False"@ {
        NodeConditionStatus::NotReady
    } else {
        NodeConditionStatus::Unknown
    }
}

/// The readiness that a list of conditions tells: the status of the first
/// condition of type `Ready`, or `Unknown` without one.
pub open spec fn ready_condition_of(conditions: Seq<ConditionView>) -> NodeConditionStatus
    decreases conditions.len(),
{
    if conditions.len() == 0 {
        NodeConditionStatus::Unknown
    } else if conditions[0].type_ == "Ready"@ {
        status_of(conditions[0].status)
    } else {
        ready_condition_of(conditions.drop_first())
    }
}

/// Reads the readiness of a node from its conditions.
pub fn node_ready_condition(conditions: &Vec<ConditionRecord>) -> (status: NodeConditionStatus)
    ensures
        status == ready_condition_of(conditions.deep_view()),
{
    let mut i: usize = 0;
    assert(conditions.deep_view().skip(0) =~= conditions.deep_view());
    while i < conditions.len()
        invariant
            i <= conditions.len(),
            ready_condition_of(conditions.deep_view()) == ready_condition_of(
                conditions.deep_view().skip(i as int),
            ),
        decreases conditions.len() - i,
    {
        let condition = &conditions[i];
        proof {
            let rest = conditions.deep_view().skip(i as int);
            assert(rest[0] == condition@);
            assert(rest.drop_first() =~= conditions.deep_view().skip(i + 1));
        }
        if text_eq(condition.type_.as_str(), "Ready") {
            let status = condition.status.as_str();
            if text_eq(status, "True") {
                return NodeConditionStatus::Ready;
            } else if text_eq(status, "False") {
                return NodeConditionStatus::NotReady;
            } else {
                return NodeConditionStatus::Unknown;
            }
        }
        i += 1;
    }
    NodeConditionStatus::Unknown
}

/// `Unknown` and `NotReady` both mean that the node is not ready yet.
pub fn is_not_yet_ready(status: NodeConditionStatus) -> (waiting: bool)
    ensures
        waiting == (status != NodeConditionStatus::Ready),
{
    match status {
        NodeConditionStatus::Ready => false,
        _ => true,
    }
}

/// Information about a PodDisruptionBudget.
#[derive(Debug, Clone)]
pub struct PdbInfo {
    /// PDB name.
    pub name: String,
    /// Namespace.
    pub namespace: String,
    /// Current number of healthy pods.
    pub current_healthy: i32,
    /// Desired number of healthy pods.
    pub desired_healthy: i32,
    /// Number of disruptions allowed.
    pub disruptions_allowed: i32,
    /// Expected pods (total matching the selector).
    pub expected_pods: i32,
    /// Whether this PDB would block a drain.
    pub would_block_drain: bool,
}

/// What a `PdbInfo` holds, every text taken as its characters.
pub struct PdbInfoView {
    pub name: Seq<char>,
    pub namespace: Seq<char>,
    pub current_healthy: i32,
    pub desired_healthy: i32,
    pub disruptions_allowed: i32,
    pub expected_pods: i32,
    pub would_block_drain: bool,
}

impl View for PdbInfo {
    type V = PdbInfoView;

    open spec fn view(&self) -> PdbInfoView {
        PdbInfoView {
            name: self.name@,
            namespace: self.namespace@,
            current_healthy: self.current_healthy,
            desired_healthy: self.desired_healthy,
            disruptions_allowed: self.disruptions_allowed,
            expected_pods: self.expected_pods,
            would_block_drain: self.would_block_drain,
        }
    }
}

impl DeepView for PdbInfo {
    type V = PdbInfoView;

    open spec fn deep_view(&self) -> PdbInfoView {
        self@
    }
}

/// A budget blocks a drain when it allows no disruption although it
/// expects pods.
pub open spec fn blocks_drain(disruptions_allowed: i32, expected_pods: i32) -> bool {
    disruptions_allowed == 0 && expected_pods > 0
}

/// The information drawn from one budget record.
pub open spec fn pdb_info_of(record: PdbRecordView) -> PdbInfoView {
    PdbInfoView {
        name: record.name,
        namespace: record.namespace,
        current_healthy: record.current_healthy,
        desired_healthy: record.desired_healthy,
        disruptions_allowed: record.disruptions_allowed,
        expected_pods: record.expected_pods,
        would_block_drain: blocks_drain(record.disruptions_allowed, record.expected_pods),
    }
}

/// The information of every budget, in listed order.
pub open spec fn pdb_infos(records: Seq<PdbRecordView>) -> Seq<PdbInfoView> {
    Seq::new(records.len(), |i: int| pdb_info_of(records[i]))
}

/// The information of the budgets that block a drain, in listed order.
pub open spec fn blocking_pdb_infos(records: Seq<PdbRecordView>) -> Seq<PdbInfoView>
    decreases records.len(),
{
    if records.len() == 0 {
        Seq::empty()
    } else if blocks_drain(records.last().disruptions_allowed, records.last().expected_pods) {
        blocking_pdb_infos(records.drop_last()).push(pdb_info_of(records.last()))
    } else {
        blocking_pdb_infos(records.drop_last())
    }
}

impl PdbInfo {
    /// Draws the information from a budget record; whether the budget
    /// blocks a drain is computed from its counts.
    pub fn from_record(record: &PdbRecord) -> (info: PdbInfo)
        ensures
            info@ == pdb_info_of(record@),
    {
        PdbInfo {
            name: record.name.clone(),
            namespace: record.namespace.clone(),
            current_healthy: record.current_healthy,
            desired_healthy: record.desired_healthy,
            disruptions_allowed: record.disruptions_allowed,
            expected_pods: record.expected_pods,
            would_block_drain: record.disruptions_allowed == 0 && record.expected_pods > 0,
        }
    }
}

/// PDB health summary.
#[derive(Debug, Clone)]
pub struct PdbHealthInfo {
    /// All PDBs in the cluster.
    pub pdbs: Vec<PdbInfo>,
    /// PDBs that would block a drain.
    pub blocking_pdbs: Vec<PdbInfo>,
}

impl Default for PdbHealthInfo {
    fn default() -> (info: Self)
        ensures
            info.pdbs@.len() == 0,
            info.blocking_pdbs@.len() == 0,
    {
        PdbHealthInfo { pdbs: Vec::new(), blocking_pdbs: Vec::new() }
    }
}

/// `N PDBs, all allow disruption`.
pub open spec fn all_allow_message(total: nat) -> Seq<char> {
    decimal(total) + " PDBs, all allow disruption"@
}

/// `N PDBs, M would block drain`.
pub open spec fn some_block_message(total: nat, blocking: nat) -> Seq<char> {
    decimal(total) + " PDBs, "@ + decimal(blocking) + " would block drain"@
}

/// The summary line of a budget report with `total` budgets of which
/// `blocking` block a drain.
pub open spec fn pdb_summary(total: nat, blocking: nat) -> Seq<char> {
    if total == 0 {
        "No PDBs configured"@
    } else if blocking == 0 {
        all_allow_message(total)
    } else {
        some_block_message(total, blocking)
    }
}

impl PdbHealthInfo {
    /// Whether any PDB would block a drain.
    pub fn has_blocking_pdbs(&self) -> (blocking: bool)
        ensures
            blocking == (self.blocking_pdbs@.len() > 0),
    {
        self.blocking_pdbs.len() > 0
    }

    /// The summary line.
    pub fn summary(&self) -> (line: String)
        ensures
            line@ == pdb_summary(self.pdbs@.len(), self.blocking_pdbs@.len()),
    {
        if self.pdbs.len() == 0 {
            "No PDBs configured".to_string()
        } else if self.blocking_pdbs.len() == 0 {
            let mut line = String::new();
            append_decimal(&mut line, self.pdbs.len() as u128);
            line.append(" PDBs, all allow disruption");
            assert(line@ =~= all_allow_message(self.pdbs@.len()));
            line
        } else {
            let mut line = String::new();
            append_decimal(&mut line, self.pdbs.len() as u128);
            line.append(" PDBs, ");
            append_decimal(&mut line, self.blocking_pdbs.len() as u128);
            line.append(" would block drain");
            assert(line@ =~= some_block_message(self.pdbs@.len(), self.blocking_pdbs@.len()));
            line
        }
    }
}

/// Surveys the disruption budgets of the cluster: every budget, and
/// apart the ones that would block a drain.
pub fn pdb_health(records: &Vec<PdbRecord>) -> (info: PdbHealthInfo)
    ensures
        info.pdbs.deep_view() == pdb_infos(records.deep_view()),
        info.blocking_pdbs.deep_view() == blocking_pdb_infos(records.deep_view()),
{
    let mut pdbs: Vec<PdbInfo> = Vec::new();
    let mut blocking_pdbs: Vec<PdbInfo> = Vec::new();
    let mut i: usize = 0;
    assert(records.deep_view().take(0) =~= Seq::empty());
    while i < records.len()
        invariant
            i <= records.len(),
            pdbs.deep_view() =~= pdb_infos(records.deep_view().take(i as int)),
            blocking_pdbs.deep_view() == blocking_pdb_infos(records.deep_view().take(i as int)),
        decreases records.len() - i,
    {
        let record = &records[i];
        let ghost before = blocking_pdbs.deep_view();
        proof {
            let prefix = records.deep_view().take(i + 1);
            assert(prefix.drop_last() =~= records.deep_view().take(i as int));
            assert(prefix.last() == record@);
        }
        let info = PdbInfo::from_record(record);
        if info.would_block_drain {
            blocking_pdbs.push(PdbInfo::from_record(record));
            assert(blocking_pdbs.deep_view() =~= before.push(pdb_info_of(record@)));
        }
        let ghost listed = pdbs.deep_view();
        pdbs.push(info);
        proof {
            let prefix = records.deep_view().take(i + 1);
            assert(pdbs.deep_view() =~= listed.push(pdb_info_of(record@)));
            assert forall|j: int| 0 <= j < prefix.len() implies pdbs.deep_view()[j]
                == pdb_info_of(prefix[j]) by {
                if j < i {
                    assert(prefix[j] == records.deep_view().take(i as int)[j]);
                }
            }
        }
        i += 1;
    }
    assert(records.deep_view().take(records.len() as int) =~= records.deep_view());
    PdbHealthInfo { pdbs, blocking_pdbs }
}

/// A budget that expects no pods never blocks a drain, whatever it
/// allows.
pub proof fn budget_without_pods_never_blocks(record: PdbRecordView)
    requires
        record.expected_pods == 0,
    ensures
        !pdb_info_of(record).would_block_drain,
{
}

/// Of every budget in a survey, and of every blocking one, the blocking
/// flag is the one computed from its counts; the blocking ones are the
/// budgets whose flag is set.
pub proof fn blocking_flag_is_derived(records: Seq<PdbRecordView>)
    ensures
        forall|i: int|
            0 <= i < pdb_infos(records).len() ==> (#[trigger] pdb_infos(
                records,
            )[i]).would_block_drain == blocks_drain(
                pdb_infos(records)[i].disruptions_allowed,
                pdb_infos(records)[i].expected_pods,
            ),
        forall|i: int|
            0 <= i < blocking_pdb_infos(records).len() ==> (#[trigger] blocking_pdb_infos(
                records,
            )[i]).would_block_drain && blocks_drain(
                blocking_pdb_infos(records)[i].disruptions_allowed,
                blocking_pdb_infos(records)[i].expected_pods,
            ),
    decreases records.len(),
{
    if records.len() > 0 {
        blocking_flag_is_derived(records.drop_last());
        let rest = blocking_pdb_infos(records.drop_last());
        assert forall|i: int| 0 <= i < blocking_pdb_infos(records).len() implies (
        #[trigger] blocking_pdb_infos(records)[i]).would_block_drain && blocks_drain(
            blocking_pdb_infos(records)[i].disruptions_allowed,
            blocking_pdb_infos(records)[i].expected_pods,
        ) by {
            if i < rest.len() {
                assert(blocking_pdb_infos(records)[i] == rest[i]);
            }
        }
    }
}


/// Surveys the disruption budgets from the answer to a listing of all
/// budgets (`Err` holds the error text): a failed listing is surfaced as
/// an API error.
pub fn check_pdb_health(listing: &Result<Vec<PdbRecord>, String>) -> (result: Result<
    PdbHealthInfo,
    K8sError,
>)
    ensures
        match *listing {
            Ok(records) => result is Ok && result->Ok_0.pdbs.deep_view() == pdb_infos(
                records.deep_view(),
            ) && result->Ok_0.blocking_pdbs.deep_view() == blocking_pdb_infos(records.deep_view()),
            Err(error) => result is Err && result->Err_0@ == K8sErrorView::ApiError(error@),
        },
{
    match listing {
        Ok(records) => Ok(pdb_health(records)),
        Err(error) => Err(K8sError::ApiError(error.clone())),
    }
}

/// Reads the readiness of a node from the answer to a read of the node
/// (`Err` holds the error text): a failed read is surfaced as an API
/// error.
pub fn get_node_ready_status(reading: &Result<NodeRecord, String>) -> (result: Result<
    NodeConditionStatus,
    K8sError,
>)
    ensures
        match *reading {
            Ok(node) => result == Ok::<NodeConditionStatus, K8sError>(
                ready_condition_of(node.conditions.deep_view()),
            ),
            Err(error) => result is Err && result->Err_0@ == K8sErrorView::ApiError(
                "Failed to get node: "@ + error@,
            ),
        },
{
    match reading {
        Ok(node) => Ok(node_ready_condition(&node.conditions)),
        Err(error) => Err(K8sError::get_node_failed(error.as_str())),
    }
}

/// Whether a node exists, by the answer to a read of the node: a failed
/// read means that it does not.
pub fn node_exists(reading: &Result<NodeRecord, String>) -> (exists: bool)
    ensures
        exists == (*reading is Ok),
{
    match reading {
        Ok(_) => true,
        Err(_) => false,
    }
}

/// What a probe of a node tells a wait for readiness: the readiness, or
/// nothing where the read of the node failed.
pub fn probe_outcome(reading: &Result<NodeRecord, String>) -> (status: Option<NodeConditionStatus>)
    ensures
        status == match *reading {
            Ok(node) => Some(ready_condition_of(node.conditions.deep_view())),
            Err(_) => None,
        },
{
    match reading {
        Ok(node) => Some(node_ready_condition(&node.conditions)),
        Err(_) => None,
    }
}

} // verus!
