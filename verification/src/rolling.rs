//! Rolling a node operation over a fleet: in which order the nodes are
//! visited, one at a time, and what becomes of the rollout when a node
//! fails.
//!
//! By default a rollout goes on past a failed node, so that the operator
//! learns of every node; with `FailurePolicy::Abort` it stops at the first
//! failure and records the untried nodes as skipped.

use crate::lifecycle::{is_terminal, NodeOperation};
use crate::talosctl::DiscoveryMember;
use crate::text::text_eq;
use vstd::prelude::*;
use vstd::string::*;

verus! {

/// A node of a rolling operation.
#[derive(Debug, Clone)]
pub struct RollingNodeInfo {
    pub hostname: String,
    pub address: String,
    pub is_controlplane: bool,
    /// Rank in the rollout; nodes without one keep the caller's order and
    /// come after the ranked ones.
    pub selection_order: Option<usize>,
}

/// What a `RollingNodeInfo` holds, every text taken as its characters.
pub struct RollingNodeView {
    pub hostname: Seq<char>,
    pub address: Seq<char>,
    pub is_controlplane: bool,
    pub selection_order: Option<usize>,
}

impl View for RollingNodeInfo {
    type V = RollingNodeView;

    open spec fn view(&self) -> RollingNodeView {
        RollingNodeView {
            hostname: self.hostname@,
            address: self.address@,
            is_controlplane: self.is_controlplane,
            selection_order: self.selection_order,
        }
    }
}

impl DeepView for RollingNodeInfo {
    type V = RollingNodeView;

    open spec fn deep_view(&self) -> RollingNodeView {
        self@
    }
}

/// The node that a discovery member stands for: reached at the member's
/// first address, a control plane node where its machine type says so,
/// and without a rank.
pub fn node_of_member(member: &DiscoveryMember) -> (node: RollingNodeInfo)
    ensures
        node@ == (RollingNodeView {
            hostname: member@.hostname,
            address: if member@.addresses.len() > 0 {
                member@.addresses[0]
            } else {
                Seq::empty()
            },
            is_controlplane: member@.machine_type == "controlplane"@,
            selection_order: None,
        }),
{
    RollingNodeInfo {
        hostname: member.hostname.clone(),
        address: if member.addresses.len() > 0 {
            assert(member@.addresses[0] == member.addresses[0]@);
            member.addresses[0].clone()
        } else {
            String::new()
        },
        is_controlplane: text_eq(member.machine_type.as_str(), "controlplane"),
        selection_order: None,
    }
}

/// Whether the node at index `a` of `nodes` is visited before the one at
/// index `b`: a ranked node before an unranked one, ranked nodes by
/// ascending rank, and in every tie the node listed first.
pub open spec fn visits_before(nodes: Seq<RollingNodeView>, a: int, b: int) -> bool {
    match (nodes[a].selection_order, nodes[b].selection_order) {
        (Some(x), Some(y)) => x < y || (x == y && a < b),
        (Some(_), None) => true,
        (None, Some(_)) => false,
        (None, None) => a < b,
    }
}

/// Whether `order` lists the indices of `nodes` in the order of their
/// visit: every index of the list, each before all that are visited
/// after it.
pub open spec fn is_execution_order(nodes: Seq<RollingNodeView>, order: Seq<usize>) -> bool {
    &&& order.len() == nodes.len()
    &&& forall|i: int| 0 <= i < order.len() ==> (#[trigger] order[i]) < nodes.len()
    &&& forall|i: int, j: int|
        0 <= i < j < order.len() ==> visits_before(
            nodes,
            #[trigger] order[i] as int,
            #[trigger] order[j] as int,
        )
}

/// The nodes in the order that `order` gives.
pub open spec fn nodes_in_order(nodes: Seq<RollingNodeView>, order: Seq<usize>) -> Seq<
    RollingNodeView,
> {
    Seq::new(order.len(), |i: int| nodes[order[i] as int])
}

/// Of two different nodes, one is visited before the other.
pub proof fn visit_order_is_total(nodes: Seq<RollingNodeView>, a: int, b: int)
    requires
        a != b,
    ensures
        visits_before(nodes, a, b) || visits_before(nodes, b, a),
{
}

/// No node is visited before itself, and no two nodes before each other.
pub proof fn visit_order_is_strict(nodes: Seq<RollingNodeView>, a: int, b: int)
    ensures
        !visits_before(nodes, a, a),
        !(visits_before(nodes, a, b) && visits_before(nodes, b, a)),
{
}

/// A node visited before a second, which is visited before a third, is
/// visited before the third.
pub proof fn visit_order_is_transitive(nodes: Seq<RollingNodeView>, a: int, b: int, c: int)
    requires
        visits_before(nodes, a, b),
        visits_before(nodes, b, c),
    ensures
        visits_before(nodes, a, c),
{
}

/// In an execution order the ranked nodes come first, by ascending rank;
/// the unranked nodes follow; and nodes of equal rank, like the unranked
/// ones among themselves, keep the order in which they were listed.
pub proof fn execution_order_is_stable(
    nodes: Seq<RollingNodeView>,
    order: Seq<usize>,
    i: int,
    j: int,
)
    requires
        is_execution_order(nodes, order),
        0 <= i < j < order.len(),
    ensures
        nodes[order[j] as int].selection_order is Some ==> nodes[order[i] as int].selection_order
            is Some && nodes[order[i] as int].selection_order->0
            <= nodes[order[j] as int].selection_order->0,
        nodes[order[i] as int].selection_order == nodes[order[j] as int].selection_order
            ==> order[i] < order[j],
        order[i] != order[j],
{
    assert(visits_before(nodes, order[i] as int, order[j] as int));
}

/// An execution order holds every index of the list.
pub proof fn execution_order_holds_every_index(
    nodes: Seq<RollingNodeView>,
    order: Seq<usize>,
    index: int,
)
    requires
        is_execution_order(nodes, order),
        0 <= index < nodes.len(),
    ensures
        exists|i: int| 0 <= i < order.len() && #[trigger] order[i] == index,
{
    let places = Seq::new(order.len(), |i: int| order[i] as int);
    assert forall|i: int, j: int| 0 <= i < places.len() && 0 <= j < places.len() && i != j implies
        places[i] != places[j] by {
        if i < j {
            assert(visits_before(nodes, order[i] as int, order[j] as int));
        } else {
            assert(visits_before(nodes, order[j] as int, order[i] as int));
        }
    }
    places.unique_seq_to_set();
    vstd::set_lib::lemma_int_range(0, nodes.len() as int);
    let all = vstd::set_lib::set_int_range(0, nodes.len() as int);
    assert forall|x: int| places.to_set().contains(x) implies all.contains(x) by {
        let i = choose|i: int| 0 <= i < places.len() && places[i] == x;
        assert(order[i] < nodes.len());
    }
    assert(places.to_set().finite()) by {
        vstd::set_lib::lemma_len_subset(places.to_set(), all);
    }
    vstd::set_lib::lemma_subset_equality(places.to_set(), all);
    assert(all.contains(index));
    assert(places.to_set().contains(index));
    let i = choose|i: int| 0 <= i < places.len() && places[i] == index;
    assert(order[i] == index);
}

/// Two execution orders of a list agree in their first `upto` places.
proof fn execution_orders_agree(
    nodes: Seq<RollingNodeView>,
    a: Seq<usize>,
    b: Seq<usize>,
    upto: int,
)
    requires
        is_execution_order(nodes, a),
        is_execution_order(nodes, b),
        0 <= upto <= nodes.len(),
    ensures
        forall|k: int| 0 <= k < upto ==> a[k] == b[k],
    decreases upto,
{
    if upto > 0 {
        let p = upto - 1;
        execution_orders_agree(nodes, a, b, p);
        if a[p] != b[p] {
            visit_order_is_total(nodes, a[p] as int, b[p] as int);
            if visits_before(nodes, a[p] as int, b[p] as int) {
                // `a[p]` stands in `b`, and it can stand nowhere.
                execution_order_holds_every_index(nodes, b, a[p] as int);
                let j = choose|j: int| 0 <= j < b.len() && #[trigger] b[j] == a[p] as int;
                if j < p {
                    assert(a[j] == b[j]);
                    assert(visits_before(nodes, a[j] as int, a[p] as int));
                } else if j > p {
                    assert(visits_before(nodes, b[p] as int, b[j] as int));
                }
                assert(false);
            } else {
                execution_order_holds_every_index(nodes, a, b[p] as int);
                let j = choose|j: int| 0 <= j < a.len() && #[trigger] a[j] == b[p] as int;
                if j < p {
                    assert(a[j] == b[j]);
                    assert(visits_before(nodes, b[j] as int, b[p] as int));
                } else if j > p {
                    assert(visits_before(nodes, a[p] as int, a[j] as int));
                }
                assert(false);
            }
        }
    }
}

/// A list of nodes has one execution order and no other.
pub proof fn execution_order_is_unique(nodes: Seq<RollingNodeView>, a: Seq<usize>, b: Seq<usize>)
    requires
        is_execution_order(nodes, a),
        is_execution_order(nodes, b),
    ensures
        a == b,
{
    execution_orders_agree(nodes, a, b, nodes.len() as int);
    assert(a =~= b);
}

fn goes_before(nodes: &Vec<RollingNodeInfo>, a: usize, b: usize) -> (before: bool)
    requires
        a < nodes.len(),
        b < nodes.len(),
    ensures
        before == visits_before(nodes.deep_view(), a as int, b as int),
{
    match (nodes[a].selection_order, nodes[b].selection_order) {
        (Some(x), Some(y)) => x < y || (x == y && a < b),
        (Some(_), None) => true,
        (None, Some(_)) => false,
        (None, None) => a < b,
    }
}

/// The order in which the nodes are visited, as indices into `nodes`:
/// ascending by rank, unranked nodes last, ties in listed order.
pub fn execution_order(nodes: &Vec<RollingNodeInfo>) -> (order: Vec<usize>)
    ensures
        is_execution_order(nodes.deep_view(), order@),
{
    let mut order: Vec<usize> = Vec::new();
    let mut k: usize = 0;
    while k < nodes.len()
        invariant
            k <= nodes.len(),
            order.len() == k,
            forall|i: int| 0 <= i < order.len() ==> (#[trigger] order[i]) < k,
            forall|i: int, j: int|
                0 <= i < j < order.len() ==> visits_before(
                    nodes.deep_view(),
                    #[trigger] order[i] as int,
                    #[trigger] order[j] as int,
                ),
        decreases nodes.len() - k,
    {
        let mut p: usize = 0;
        while p < order.len() && !goes_before(nodes, k, order[p])
            invariant
                p <= order.len(),
                k < nodes.len(),
                order.len() <= k,
                forall|i: int| 0 <= i < order.len() ==> (#[trigger] order[i]) < k,
                forall|i: int|
                    0 <= i < p ==> !visits_before(
                        nodes.deep_view(),
                        k as int,
                        #[trigger] order[i] as int,
                    ),
            decreases order.len() - p,
        {
            p += 1;
        }
        let ghost before = order@;
        order.insert(p, k);
        proof {
            let all = nodes.deep_view();
            assert(order@ == before.insert(p as int, k));
            assert forall|i: int, j: int| 0 <= i < j < order.len() implies visits_before(
                all,
                #[trigger] order[i] as int,
                #[trigger] order[j] as int,
            ) by {
                if j < p {
                    assert(order[i] == before[i] && order[j] == before[j]);
                } else if j == p {
                    assert(order[i] == before[i]);
                    assert(!visits_before(all, k as int, before[i] as int));
                    visit_order_is_total(all, k as int, before[i] as int);
                } else if i < p {
                    assert(order[i] == before[i] && order[j] == before[j - 1]);
                } else if i == p {
                    assert(order[j] == before[j - 1]);
                    assert(visits_before(all, k as int, before[p as int] as int));
                    if j - 1 > p {
                        assert(visits_before(all, before[p as int] as int, before[j - 1] as int));
                        visit_order_is_transitive(
                            all,
                            k as int,
                            before[p as int] as int,
                            before[j - 1] as int,
                        );
                    }
                } else {
                    assert(order[i] == before[i - 1] && order[j] == before[j - 1]);
                }
            }
            assert forall|i: int| 0 <= i < order.len() implies (#[trigger] order[i]) < k + 1 by {
                if i < p {
                    assert(order[i] == before[i]);
                } else if i > p {
                    assert(order[i] == before[i - 1]);
                }
            }
        }
        k += 1;
    }
    order
}

/// What a rollout does when a node fails.
#[derive(Debug, Clone, Copy, PartialEq, Eq, Structural)]
pub enum FailurePolicy {
    /// Go on with the next node.
    Continue,
    /// Stop, and record the untried nodes as skipped.
    Abort,
}

impl Default for FailurePolicy {
    fn default() -> (policy: Self)
        ensures
            policy == FailurePolicy::Continue,
    {
        FailurePolicy::Continue
    }
}

/// Overall status of a rollout.
#[derive(Debug, Clone, Copy, PartialEq, Eq, Structural)]
pub enum RolloutStatus {
    InProgress,
    Completed,
    AbortedOnFailure,
}

/// What became of one node of a rollout.
#[derive(Debug, Clone, Copy, PartialEq, Eq, Structural)]
pub enum NodeOutcomeStatus {
    Succeeded,
    Failed,
    /// The rollout was aborted before the node was tried.
    Skipped,
}

/// The outcome of one node of a rollout.
#[derive(Debug, Clone)]
pub struct NodeOutcome {
    pub hostname: String,
    pub status: NodeOutcomeStatus,
    /// Why the node ended as it did.
    pub explanation: String,
}

/// What a `NodeOutcome` holds, every text taken as its characters.
pub struct NodeOutcomeView {
    pub hostname: Seq<char>,
    pub status: NodeOutcomeStatus,
    pub explanation: Seq<char>,
}

impl View for NodeOutcome {
    type V = NodeOutcomeView;

    open spec fn view(&self) -> NodeOutcomeView {
        NodeOutcomeView {
            hostname: self.hostname@,
            status: self.status,
            explanation: self.explanation@,
        }
    }
}

impl DeepView for NodeOutcome {
    type V = NodeOutcomeView;

    open spec fn deep_view(&self) -> NodeOutcomeView {
        self@
    }
}

/// The state of a rollout: the nodes in the order of their visit, and
/// the outcomes recorded so far, one per node from the first on.
pub struct RolloutView {
    pub nodes: Seq<RollingNodeView>,
    pub outcomes: Seq<NodeOutcomeView>,
    pub status: RolloutStatus,
    pub policy: FailurePolicy,
}

/// The explanation recorded for a node that was never tried.
pub open spec fn skipped_explanation() -> Seq<char> {
    "Skipped: the rollout was aborted after an earlier node failed"@
}

/// The outcomes recorded for the nodes from index `from` on when a
/// rollout is aborted.
pub open spec fn skipped_outcomes(nodes: Seq<RollingNodeView>, from: int) -> Seq<NodeOutcomeView> {
    Seq::new(
        (nodes.len() - from) as nat,
        |k: int|
            NodeOutcomeView {
                hostname: nodes[from + k].hostname,
                status: NodeOutcomeStatus::Skipped,
                explanation: skipped_explanation(),
            },
    )
}

/// The first state of a rollout over `nodes`, which are in the order of
/// their visit.
pub open spec fn rollout_start(nodes: Seq<RollingNodeView>, policy: FailurePolicy) -> RolloutView {
    RolloutView {
        nodes,
        outcomes: Seq::empty(),
        status: if nodes.len() == 0 {
            RolloutStatus::Completed
        } else {
            RolloutStatus::InProgress
        },
        policy,
    }
}

/// The state after the node in turn has ended, in success or not. A
/// failure aborts the rollout where the policy says so; otherwise the
/// rollout goes on and is completed with the last node.
pub open spec fn rollout_record(s: RolloutView, succeeded: bool, explanation: Seq<char>) -> RolloutView {
    if s.status != RolloutStatus::InProgress {
        s
    } else {
        let turn = s.outcomes.len() as int;
        let recorded = s.outcomes.push(
            NodeOutcomeView {
                hostname: s.nodes[turn].hostname,
                status: if succeeded {
                    NodeOutcomeStatus::Succeeded
                } else {
                    NodeOutcomeStatus::Failed
                },
                explanation,
            },
        );
        if !succeeded && s.policy == FailurePolicy::Abort {
            RolloutView {
                outcomes: recorded + skipped_outcomes(s.nodes, turn + 1),
                status: RolloutStatus::AbortedOnFailure,
                ..s
            }
        } else if turn + 1 == s.nodes.len() {
            RolloutView { outcomes: recorded, status: RolloutStatus::Completed, ..s }
        } else {
            RolloutView { outcomes: recorded, ..s }
        }
    }
}

/// What holds of every state that a rollout reaches.
pub open spec fn rollout_wf(s: RolloutView) -> bool {
    &&& s.outcomes.len() <= s.nodes.len()
    &&& s.status == RolloutStatus::InProgress <==> s.outcomes.len() < s.nodes.len()
    &&& forall|i: int|
        0 <= i < s.outcomes.len() ==> (#[trigger] s.outcomes[i]).hostname == s.nodes[i].hostname
    &&& s.status != RolloutStatus::AbortedOnFailure ==> forall|i: int|
        0 <= i < s.outcomes.len() ==> (#[trigger] s.outcomes[i]).status
            != NodeOutcomeStatus::Skipped
    &&& s.status == RolloutStatus::AbortedOnFailure ==> s.policy == FailurePolicy::Abort
}

/// A rollout over a fleet in progress.
pub struct RolloutRun {
    nodes: Vec<RollingNodeInfo>,
    outcomes: Vec<NodeOutcome>,
    status: RolloutStatus,
    policy: FailurePolicy,
}

impl View for RolloutRun {
    type V = RolloutView;

    closed spec fn view(&self) -> RolloutView {
        RolloutView {
            nodes: self.nodes.deep_view(),
            outcomes: self.outcomes.deep_view(),
            status: self.status,
            policy: self.policy,
        }
    }
}

fn clone_node(node: &RollingNodeInfo) -> (copy: RollingNodeInfo)
    ensures
        copy@ == node@,
{
    RollingNodeInfo {
        hostname: node.hostname.clone(),
        address: node.address.clone(),
        is_controlplane: node.is_controlplane,
        selection_order: node.selection_order,
    }
}

fn clone_outcome(outcome: &NodeOutcome) -> (copy: NodeOutcome)
    ensures
        copy@ == outcome@,
{
    NodeOutcome {
        hostname: outcome.hostname.clone(),
        status: outcome.status,
        explanation: outcome.explanation.clone(),
    }
}

fn push_node(nodes: &mut Vec<RollingNodeInfo>, node: RollingNodeInfo)
    ensures
        final(nodes).deep_view() == old(nodes).deep_view().push(node@),
{
    nodes.push(node);
    assert(nodes.deep_view() =~= old(nodes).deep_view().push(node@));
}

fn push_outcome(outcomes: &mut Vec<NodeOutcome>, outcome: NodeOutcome)
    ensures
        final(outcomes).deep_view() == old(outcomes).deep_view().push(outcome@),
{
    outcomes.push(outcome);
    assert(outcomes.deep_view() =~= old(outcomes).deep_view().push(outcome@));
}

impl RolloutRun {
    /// Plans a rollout over `nodes`: they are put in the order of their
    /// visit, and none has an outcome yet.
    pub fn new(nodes: &Vec<RollingNodeInfo>, policy: FailurePolicy) -> (run: RolloutRun)
        ensures
            exists|order: Seq<usize>|
                is_execution_order(nodes.deep_view(), order) && run@ == rollout_start(
                    nodes_in_order(nodes.deep_view(), order),
                    policy,
                ),
            rollout_wf(run@),
    {
        let order = execution_order(nodes);
        let mut ordered: Vec<RollingNodeInfo> = Vec::new();
        let mut i: usize = 0;
        while i < order.len()
            invariant
                i <= order.len(),
                is_execution_order(nodes.deep_view(), order@),
                ordered.deep_view() =~= nodes_in_order(nodes.deep_view(), order@.take(i as int)),
            decreases order.len() - i,
        {
            let index = order[i];
            assert(order@[i as int] < nodes.len());
            let node = clone_node(&nodes[index]);
            let ghost before = ordered.deep_view();
            push_node(&mut ordered, node);
            proof {
                let prefix = order@.take(i + 1);
                assert forall|j: int| 0 <= j < prefix.len() implies ordered.deep_view()[j]
                    == nodes.deep_view()[prefix[j] as int] by {
                    if j < i {
                        assert(ordered.deep_view()[j] == before[j]);
                        assert(prefix[j] == order@.take(i as int)[j]);
                    }
                }
            }
            i += 1;
        }
        assert(order@.take(order.len() as int) =~= order@);
        let status = if ordered.len() == 0 {
            RolloutStatus::Completed
        } else {
            RolloutStatus::InProgress
        };
        let run = RolloutRun { nodes: ordered, outcomes: Vec::new(), status, policy };
        assert(run.outcomes.deep_view() =~= Seq::empty());
        assert(run@ == rollout_start(nodes_in_order(nodes.deep_view(), order@), policy));
        run
    }

    /// The node whose turn it is, while the rollout is in progress: the
    /// first without an outcome. Exactly one node is in turn at a time.
    pub fn next_node(&self) -> (node: Option<RollingNodeInfo>)
        requires
            rollout_wf(self@),
        ensures
            node.is_some() == (self@.status == RolloutStatus::InProgress),
            node matches Some(n) ==> n@ == self@.nodes[self@.outcomes.len() as int],
    {
        match self.status {
            RolloutStatus::InProgress => {
                let turn = self.outcomes.len();
                assert(self.outcomes.deep_view().len() == turn);
                let node = clone_node(&self.nodes[turn]);
                Some(node)
            },
            _ => None,
        }
    }

    /// Records how the node in turn ended. Where the rollout is not in
    /// progress, nothing is recorded.
    pub fn record(&mut self, succeeded: bool, explanation: String)
        requires
            rollout_wf(old(self)@),
        ensures
            final(self)@ == rollout_record(old(self)@, succeeded, explanation@),
            rollout_wf(final(self)@),
    {
        match self.status {
            RolloutStatus::InProgress => {},
            _ => {
                return ;
            },
        }
        let turn = self.outcomes.len();
        assert(self.outcomes.deep_view().len() == turn);
        assert(self.nodes.deep_view().len() == self.nodes.len());
        let status = if succeeded {
            NodeOutcomeStatus::Succeeded
        } else {
            NodeOutcomeStatus::Failed
        };
        let abort = !succeeded && match self.policy {
            FailurePolicy::Abort => true,
            FailurePolicy::Continue => false,
        };
        push_outcome(
            &mut self.outcomes,
            NodeOutcome { hostname: self.nodes[turn].hostname.clone(), status, explanation },
        );
        let ghost recorded = self.outcomes.deep_view();
        if abort {
            let mut k: usize = turn + 1;
            while k < self.nodes.len()
                invariant
                    turn + 1 <= k <= self.nodes.len(),
                    self.nodes == old(self).nodes,
                    self.policy == old(self).policy,
                    self.outcomes.deep_view() =~= recorded + skipped_outcomes(
                        self.nodes.deep_view().take(k as int),
                        turn + 1,
                    ),
                decreases self.nodes.len() - k,
            {
                push_outcome(
                    &mut self.outcomes,
                    NodeOutcome {
                        hostname: self.nodes[k].hostname.clone(),
                        status: NodeOutcomeStatus::Skipped,
                        explanation: "Skipped: the rollout was aborted after an earlier node failed".to_string(),
                    },
                );
                k += 1;
            }
            assert(self.nodes.deep_view().take(self.nodes.len() as int) =~= self.nodes.deep_view());
            self.status = RolloutStatus::AbortedOnFailure;
        } else if turn + 1 == self.nodes.len() {
            self.status = RolloutStatus::Completed;
        }
        proof {
            rollout_record_preserves_wf(old(self)@, succeeded, explanation@);
        }
    }

    /// Records how the operation on the node in turn ended: as succeeded
    /// or failed, with the operation's explanation.
    pub fn record_operation(&mut self, operation: &NodeOperation)
        requires
            rollout_wf(old(self)@),
            is_terminal(operation@.phase),
        ensures
            final(self)@ == rollout_record(
                old(self)@,
                operation@.phase is Done,
                operation@.explanation,
            ),
            rollout_wf(final(self)@),
    {
        self.record(operation.succeeded(), operation.explanation());
    }

    /// The status of the rollout.
    pub fn status(&self) -> (status: RolloutStatus)
        ensures
            status == self@.status,
    {
        self.status
    }

    /// The nodes, in the order of their visit.
    pub fn nodes(&self) -> (nodes: Vec<RollingNodeInfo>)
        ensures
            nodes.deep_view() == self@.nodes,
    {
        let mut nodes: Vec<RollingNodeInfo> = Vec::new();
        let mut i: usize = 0;
        while i < self.nodes.len()
            invariant
                i <= self.nodes.len(),
                nodes.deep_view() =~= self.nodes.deep_view().take(i as int),
            decreases self.nodes.len() - i,
        {
            let node = clone_node(&self.nodes[i]);
            push_node(&mut nodes, node);
            i += 1;
        }
        assert(self.nodes.deep_view().take(self.nodes.len() as int) =~= self.nodes.deep_view());
        nodes
    }

    /// The outcomes recorded so far, in the order of the visit.
    pub fn outcomes(&self) -> (outcomes: Vec<NodeOutcome>)
        ensures
            outcomes.deep_view() == self@.outcomes,
    {
        let mut outcomes: Vec<NodeOutcome> = Vec::new();
        let mut i: usize = 0;
        while i < self.outcomes.len()
            invariant
                i <= self.outcomes.len(),
                outcomes.deep_view() =~= self.outcomes.deep_view().take(i as int),
            decreases self.outcomes.len() - i,
        {
            let outcome = clone_outcome(&self.outcomes[i]);
            push_outcome(&mut outcomes, outcome);
            i += 1;
        }
        assert(self.outcomes.deep_view().take(self.outcomes.len() as int)
            =~= self.outcomes.deep_view());
        outcomes
    }
}

/// Recording an outcome keeps a well-formed rollout well-formed, and
/// never changes the nodes, their order or the policy.
pub proof fn rollout_record_preserves_wf(s: RolloutView, succeeded: bool, explanation: Seq<char>)
    requires
        rollout_wf(s),
    ensures
        rollout_wf(rollout_record(s, succeeded, explanation)),
        rollout_record(s, succeeded, explanation).nodes == s.nodes,
        rollout_record(s, succeeded, explanation).policy == s.policy,
{
    let next = rollout_record(s, succeeded, explanation);
    if s.status == RolloutStatus::InProgress {
        let turn = s.outcomes.len() as int;
        assert forall|i: int| 0 <= i < next.outcomes.len() implies (
        #[trigger] next.outcomes[i]).hostname == next.nodes[i].hostname by {
            if i < turn {
                assert(next.outcomes[i] == s.outcomes[i]);
            }
        }
        if next.status != RolloutStatus::AbortedOnFailure {
            assert forall|i: int| 0 <= i < next.outcomes.len() implies (
            #[trigger] next.outcomes[i]).status != NodeOutcomeStatus::Skipped by {
                if i < turn {
                    assert(next.outcomes[i] == s.outcomes[i]);
                }
            }
        }
    }
}

/// With the policy to continue, a rollout is never aborted: a failed node
/// is recorded as failed and the next node is in turn.
pub proof fn continue_policy_never_aborts(s: RolloutView, succeeded: bool, explanation: Seq<char>)
    requires
        rollout_wf(s),
        s.policy == FailurePolicy::Continue,
    ensures
        rollout_record(s, succeeded, explanation).status != RolloutStatus::AbortedOnFailure,
        s.status == RolloutStatus::InProgress ==> rollout_record(
            s,
            succeeded,
            explanation,
        ).outcomes.len() == s.outcomes.len() + 1,
{
}

/// A rollout that has ended holds one outcome for every node, in the
/// order of the visit; after an abort, the nodes behind the failed one
/// are recorded as skipped, not as failed.
pub proof fn ended_rollout_accounts_for_every_node(
    s: RolloutView,
    succeeded: bool,
    explanation: Seq<char>,
)
    requires
        rollout_wf(s),
        s.status == RolloutStatus::InProgress,
        rollout_record(s, succeeded, explanation).status != RolloutStatus::InProgress,
    ensures
        rollout_record(s, succeeded, explanation).outcomes.len() == s.nodes.len(),
        rollout_record(s, succeeded, explanation).status == RolloutStatus::AbortedOnFailure
            ==> !succeeded && forall|i: int|
            s.outcomes.len() < i < s.nodes.len() ==> (#[trigger] rollout_record(
                s,
                succeeded,
                explanation,
            ).outcomes[i]).status == NodeOutcomeStatus::Skipped,
{
    rollout_record_preserves_wf(s, succeeded, explanation);
}

} // verus!
