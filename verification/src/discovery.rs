//! Fetching the discovery members with retries: three tries through the
//! context's endpoint, with a growing pause between them, then one try
//! at each fallback node, in shuffled order.
//!
//! The fetch is a state machine. The caller runs the queries and feeds
//! their outcome back as a `FetchEvent`.

use crate::talosctl::{DiscoveryMember, DiscoveryMemberView, TalosError, TalosErrorView};
use vstd::prelude::*;
use vstd::string::*;

verus! {

/// Retries through the context's endpoint after the first try.
pub const VIP_MAX_RETRIES: u32 = 2;

/// Pause before the first retry, in milliseconds; it doubles with every
/// retry.
pub const BASE_DELAY_MS: u64 = 100;

/// `fastrand::shuffle` swaps items of the slice among one another: the
/// slice holds the same items after it as before, each as often; in
/// what order is left to chance.
pub assume_specification<T>[ fastrand::shuffle::<T> ](slice: &mut [T])
    ensures
        final(slice)@.to_multiset() == old(slice)@.to_multiset(),
;

/// The indices `0..count`, in ascending order.
pub open spec fn ascending_indices(count: nat) -> Seq<usize> {
    Seq::new(count, |i: int| i as usize)
}

/// Whether `order` holds each index below `count` once.
pub open spec fn is_index_order(order: Seq<usize>, count: nat) -> bool {
    order.to_multiset() == ascending_indices(count).to_multiset()
}

/// The items of `items` in the order that `order` gives.
pub open spec fn texts_in_order(items: Seq<Seq<char>>, order: Seq<usize>) -> Seq<Seq<char>> {
    Seq::new(order.len(), |i: int| items[order[i] as int])
}

/// An order that holds each index below `count` once has `count`
/// entries, all below `count`, and no index twice.
pub proof fn index_order_is_a_permutation(order: Seq<usize>, count: nat)
    requires
        is_index_order(order, count),
        count <= usize::MAX,
    ensures
        order.len() == count,
        forall|i: int| 0 <= i < order.len() ==> (#[trigger] order[i]) < count,
        forall|i: int, j: int|
            0 <= i < j < order.len() ==> (#[trigger] order[i]) != (#[trigger] order[j]),
        forall|k: int| 0 <= k < count ==> order.contains(#[trigger] (k as usize)),
{
    broadcast use vstd::seq_lib::group_to_multiset_ensures;

    let identity = ascending_indices(count);
    assert(order.len() == order.to_multiset().len());
    assert(identity.len() == identity.to_multiset().len());
    assert forall|i: int| 0 <= i < order.len() implies (#[trigger] order[i]) < count by {
        assert(order.contains(order[i]));
        assert(order.to_multiset().count(order[i]) > 0);
        assert(identity.contains(order[i]));
    }
    assert forall|i: int, j: int|
        0 <= i < identity.len() && 0 <= j < identity.len() && i != j implies identity[i]
        != identity[j] by {
        assert(identity[i] == i as usize && identity[j] == j as usize);
    }
    assert(identity.no_duplicates());
    identity.lemma_multiset_has_no_duplicates();
    assert forall|x: usize| order.to_multiset().count(x) <= 1 by {}
    order.lemma_multiset_has_no_duplicates_conv();
    assert forall|k: int| 0 <= k < count implies order.contains(#[trigger] (k as usize)) by {
        assert(identity[k] == k as usize);
        assert(identity.contains(k as usize));
        assert(identity.to_multiset().count(k as usize) > 0);
    }
}

/// The indices below `count` in an order left to chance.
pub fn shuffled_indices(count: usize) -> (order: Vec<usize>)
    ensures
        is_index_order(order@, count as nat),
{
    let mut order: Vec<usize> = Vec::new();
    let mut i: usize = 0;
    while i < count
        invariant
            i <= count,
            order@ =~= ascending_indices(i as nat),
        decreases count - i,
    {
        order.push(i);
        i += 1;
    }
    fastrand::shuffle(order.as_mut_slice());
    order
}

fn push_text(list: &mut Vec<String>, item: String)
    ensures
        final(list).deep_view() == old(list).deep_view().push(item@),
{
    list.push(item);
    assert(list.deep_view() =~= old(list).deep_view().push(item@));
}

/// The fallback nodes in an order left to chance: the same nodes, each
/// as often as it was given.
pub fn shuffle_fallback_ips(ips: &Vec<String>) -> (shuffled: Vec<String>)
    ensures
        exists|order: Seq<usize>|
            is_index_order(order, ips.len() as nat) && shuffled.deep_view() == texts_in_order(
                ips.deep_view(),
                order,
            ),
{
    let order = shuffled_indices(ips.len());
    proof {
        index_order_is_a_permutation(order@, ips.len() as nat);
    }
    let mut shuffled: Vec<String> = Vec::new();
    let mut i: usize = 0;
    while i < order.len()
        invariant
            i <= order.len(),
            forall|k: int| 0 <= k < order.len() ==> (#[trigger] order[k]) < ips.len(),
            shuffled.deep_view() =~= texts_in_order(ips.deep_view(), order@.take(i as int)),
        decreases order.len() - i,
    {
        let ghost before = shuffled.deep_view();
        let index = order[i];
        assert(ips.deep_view()[index as int] == ips[index as int]@);
        push_text(&mut shuffled, ips[index].clone());
        proof {
            let prefix = order@.take(i + 1);
            assert forall|j: int| 0 <= j < prefix.len() implies shuffled.deep_view()[j]
                == ips.deep_view()[prefix[j] as int] by {
                if j < i {
                    assert(shuffled.deep_view()[j] == before[j]);
                    assert(prefix[j] == order@.take(i as int)[j]);
                }
            }
        }
        i += 1;
    }
    assert(order@.take(order.len() as int) =~= order@);
    shuffled
}

/// The pause before retry number `attempt + 1` through the context's
/// endpoint, in milliseconds: 100, then 200.
pub open spec fn retry_delay_ms(attempt: u32) -> u64 {
    if attempt == 0 {
        BASE_DELAY_MS
    } else {
        (2 * BASE_DELAY_MS) as u64
    }
}

/// What the caller of a fetch learned.
#[derive(Debug)]
pub enum FetchEvent {
    /// The query gave the members.
    Fetched(Vec<DiscoveryMember>),
    /// The query failed.
    Failed(TalosError),
}

/// What a `FetchEvent` holds, every text taken as its characters.
pub enum FetchEventView {
    Fetched(Seq<DiscoveryMemberView>),
    Failed(TalosErrorView),
}

impl View for FetchEvent {
    type V = FetchEventView;

    open spec fn view(&self) -> FetchEventView {
        match self {
            FetchEvent::Fetched(members) => FetchEventView::Fetched(members.deep_view()),
            FetchEvent::Failed(error) => FetchEventView::Failed(error@),
        }
    }
}

/// One thing for the caller of a fetch to do; a query comes last, and
/// its outcome is the next event.
#[derive(Debug, Clone)]
pub enum FetchEffect {
    /// Sleep for this many milliseconds.
    Pause(u64),
    /// Query the members through the context's endpoint.
    QueryContext,
    /// Query the members at this node.
    QueryNode(String),
}

/// What a `FetchEffect` holds, every text taken as its characters.
pub enum FetchEffectView {
    Pause(u64),
    QueryContext,
    QueryNode(Seq<char>),
}

impl View for FetchEffect {
    type V = FetchEffectView;

    open spec fn view(&self) -> FetchEffectView {
        match self {
            FetchEffect::Pause(millis) => FetchEffectView::Pause(*millis),
            FetchEffect::QueryContext => FetchEffectView::QueryContext,
            FetchEffect::QueryNode(node) => FetchEffectView::QueryNode(node@),
        }
    }
}

impl DeepView for FetchEffect {
    type V = FetchEffectView;

    open spec fn deep_view(&self) -> FetchEffectView {
        self@
    }
}

/// Where a fetch stands.
pub enum FetchPhase {
    /// A query through the context's endpoint is out; `attempt` queries
    /// have failed before it.
    Context { attempt: u32 },
    /// A query at the fallback node with index `cursor` is out.
    Fallback { cursor: nat },
    /// The fetch has ended with this result.
    Done { result: Result<Seq<DiscoveryMemberView>, TalosErrorView> },
}

/// The state of a fetch.
pub struct FetchStateView {
    pub context: Seq<char>,
    /// The fallback nodes, in the order in which they are tried.
    pub fallback: Seq<Seq<char>>,
    pub phase: FetchPhase,
    /// The error of the last query that failed.
    pub last_error: Option<TalosErrorView>,
}

/// The fallback node with index `cursor` is queried; where none is
/// left, the fetch ends with the last error, or with the error that the
/// context has no endpoints where no query failed.
pub open spec fn enter_fallback(s: FetchStateView, cursor: nat) -> (
    FetchStateView,
    Seq<FetchEffectView>,
) {
    if cursor < s.fallback.len() {
        (
            FetchStateView { phase: FetchPhase::Fallback { cursor }, ..s },
            seq![FetchEffectView::QueryNode(s.fallback[cursor as int])],
        )
    } else {
        (
            FetchStateView {
                phase: FetchPhase::Done {
                    result: Err(
                        match s.last_error {
                            Some(error) => error,
                            None => TalosErrorView::NoEndpoints(s.context),
                        },
                    ),
                },
                ..s
            },
            Seq::empty(),
        )
    }
}

/// The first state of a fetch and what to do first.
pub open spec fn fetch_start(context: Seq<char>, fallback: Seq<Seq<char>>) -> (
    FetchStateView,
    Seq<FetchEffectView>,
) {
    (
        FetchStateView {
            context,
            fallback,
            phase: FetchPhase::Context { attempt: 0 },
            last_error: None,
        },
        seq![FetchEffectView::QueryContext],
    )
}

/// The state after `event` and what to do next. A fetch that has ended
/// stays as it is.
pub open spec fn fetch_step(s: FetchStateView, event: FetchEventView) -> (
    FetchStateView,
    Seq<FetchEffectView>,
) {
    match s.phase {
        FetchPhase::Done { .. } => (s, Seq::empty()),
        _ => match event {
            FetchEventView::Fetched(members) => (
                FetchStateView { phase: FetchPhase::Done { result: Ok(members) }, ..s },
                Seq::empty(),
            ),
            FetchEventView::Failed(error) => {
                let failed = FetchStateView { last_error: Some(error), ..s };
                match s.phase {
                    FetchPhase::Context { attempt } => if attempt < VIP_MAX_RETRIES {
                        (
                            FetchStateView {
                                phase: FetchPhase::Context { attempt: (attempt + 1) as u32 },
                                ..failed
                            },
                            seq![
                                FetchEffectView::Pause(retry_delay_ms(attempt)),
                                FetchEffectView::QueryContext,
                            ],
                        )
                    } else {
                        enter_fallback(failed, 0)
                    },
                    FetchPhase::Fallback { cursor } => enter_fallback(failed, cursor + 1),
                    FetchPhase::Done { .. } => (s, Seq::empty()),
                }
            },
        },
    }
}

/// What holds of every state that a fetch reaches.
pub open spec fn fetch_state_wf(s: FetchStateView) -> bool {
    match s.phase {
        FetchPhase::Context { attempt } => attempt <= VIP_MAX_RETRIES,
        FetchPhase::Fallback { cursor } => cursor < s.fallback.len() && s.last_error is Some,
        FetchPhase::Done { result } => result is Err ==> s.last_error is Some
            && result->Err_0 == s.last_error->0,
    }
}

enum Progress {
    Context { attempt: u32 },
    Fallback { cursor: usize },
    Done,
}

/// A fetch of the discovery members in progress.
pub struct DiscoveryFetch {
    context: String,
    fallback: Vec<String>,
    progress: Progress,
    last_error: Option<TalosError>,
    members: Option<Vec<DiscoveryMember>>,
}

impl View for DiscoveryFetch {
    type V = FetchStateView;

    closed spec fn view(&self) -> FetchStateView {
        FetchStateView {
            context: self.context@,
            fallback: self.fallback.deep_view(),
            phase: match self.progress {
                Progress::Context { attempt } => FetchPhase::Context { attempt },
                Progress::Fallback { cursor } => FetchPhase::Fallback { cursor: cursor as nat },
                Progress::Done => FetchPhase::Done {
                    result: match self.members {
                        Some(members) => Ok(members.deep_view()),
                        None => Err(
                            match self.last_error {
                                Some(error) => error@,
                                None => TalosErrorView::NoEndpoints(self.context@),
                            },
                        ),
                    },
                },
            },
            last_error: match self.last_error {
                Some(error) => Some(error@),
                None => None,
            },
        }
    }
}

fn push_effect(effects: &mut Vec<FetchEffect>, effect: FetchEffect)
    ensures
        final(effects).deep_view() == old(effects).deep_view().push(effect@),
{
    effects.push(effect);
    assert(effects.deep_view() =~= old(effects).deep_view().push(effect@));
}

impl DiscoveryFetch {
    /// Begins a fetch under `context`; the fallback nodes are tried in
    /// the order given.
    pub fn with_order(context: &str, fallback: Vec<String>) -> (started: (
        DiscoveryFetch,
        Vec<FetchEffect>,
    ))
        ensures
            (started.0@, started.1.deep_view()) == fetch_start(context@, fallback.deep_view()),
            fetch_state_wf(started.0@),
    {
        let mut effects: Vec<FetchEffect> = Vec::new();
        assert(effects.deep_view() =~= Seq::empty());
        push_effect(&mut effects, FetchEffect::QueryContext);
        assert(effects.deep_view() =~= seq![FetchEffectView::QueryContext]);
        (
            DiscoveryFetch {
                context: context.to_string(),
                fallback,
                progress: Progress::Context { attempt: 0 },
                last_error: None,
                members: None,
            },
            effects,
        )
    }

    /// Begins a fetch under `context`; the fallback nodes are tried in an
    /// order left to chance, each as often as it was given.
    pub fn start(context: &str, fallback_node_ips: &Vec<String>) -> (started: (
        DiscoveryFetch,
        Vec<FetchEffect>,
    ))
        ensures
            exists|order: Seq<usize>|
                is_index_order(order, fallback_node_ips.len() as nat) && (
                started.0@,
                started.1.deep_view(),
            ) == fetch_start(context@, texts_in_order(fallback_node_ips.deep_view(), order)),
            fetch_state_wf(started.0@),
    {
        let shuffled = shuffle_fallback_ips(fallback_node_ips);
        DiscoveryFetch::with_order(context, shuffled)
    }

    fn enter_fallback(&mut self, cursor: usize, effects: &mut Vec<FetchEffect>)
        requires
            cursor <= old(self).fallback.len(),
            !(old(self).progress is Done),
        ensures
            final(self)@ == enter_fallback(old(self)@, cursor as nat).0,
            final(effects).deep_view() == old(effects).deep_view() + enter_fallback(
                old(self)@,
                cursor as nat,
            ).1,
    {
        if cursor < self.fallback.len() {
            assert(self.fallback.deep_view()[cursor as int] == self.fallback[cursor as int]@);
            push_effect(effects, FetchEffect::QueryNode(self.fallback[cursor].clone()));
            self.progress = Progress::Fallback { cursor };
            assert(effects.deep_view() =~= old(effects).deep_view() + enter_fallback(
                old(self)@,
                cursor as nat,
            ).1);
        } else {
            self.progress = Progress::Done;
            self.members = None;
            assert(effects.deep_view() =~= old(effects).deep_view() + enter_fallback(
                old(self)@,
                cursor as nat,
            ).1);
        }
    }

    /// Takes the outcome of the last query and hands out what to do
    /// next.
    pub fn step(&mut self, event: FetchEvent) -> (effects: Vec<FetchEffect>)
        requires
            fetch_state_wf(old(self)@),
        ensures
            (final(self)@, effects.deep_view()) == fetch_step(old(self)@, event@),
            fetch_state_wf(final(self)@),
    {
        let mut effects: Vec<FetchEffect> = Vec::new();
        assert(effects.deep_view() =~= Seq::empty());
        match self.progress {
            Progress::Done => {
                return effects;
            },
            _ => {},
        }
        match event {
            FetchEvent::Fetched(members) => {
                self.members = Some(members);
                self.progress = Progress::Done;
            },
            FetchEvent::Failed(error) => {
                self.last_error = Some(error);
                match self.progress {
                    Progress::Context { attempt } => {
                        if attempt < VIP_MAX_RETRIES {
                            let delay: u64 = if attempt == 0 {
                                BASE_DELAY_MS
                            } else {
                                2 * BASE_DELAY_MS
                            };
                            push_effect(&mut effects, FetchEffect::Pause(delay));
                            push_effect(&mut effects, FetchEffect::QueryContext);
                            self.progress = Progress::Context { attempt: attempt + 1 };
                        } else {
                            self.enter_fallback(0, &mut effects);
                        }
                    },
                    Progress::Fallback { cursor } => {
                        assert(old(self)@.phase == (FetchPhase::Fallback { cursor: cursor as nat }));
                        assert(self.fallback.deep_view().len() == self.fallback.len());
                        self.enter_fallback(cursor + 1, &mut effects);
                    },
                    Progress::Done => {},
                }
            },
        }
        assert(effects.deep_view() =~= fetch_step(old(self)@, event@).1);
        effects
    }

    /// Whether the fetch has ended.
    pub fn is_finished(&self) -> (finished: bool)
        ensures
            finished == (self@.phase is Done),
    {
        match self.progress {
            Progress::Done => true,
            _ => false,
        }
    }

    /// The result of the fetch, once it has ended.
    pub fn into_result(self) -> (result: Option<Result<Vec<DiscoveryMember>, TalosError>>)
        ensures
            result.is_some() == (self@.phase is Done),
            result matches Some(Ok(members)) ==> self@.phase->result == Ok::<
                Seq<DiscoveryMemberView>,
                TalosErrorView,
            >(members.deep_view()),
            result matches Some(Err(error)) ==> self@.phase->result == Err::<
                Seq<DiscoveryMemberView>,
                TalosErrorView,
            >(error@),
    {
        match self.progress {
            Progress::Done => {},
            _ => {
                return None;
            },
        }
        match self.members {
            Some(members) => Some(Ok(members)),
            None => match self.last_error {
                Some(error) => Some(Err(error)),
                None => Some(Err(TalosError::NoEndpoints(self.context))),
            },
        }
    }
}

/// A step keeps a well-formed state well-formed, and never changes the
/// context or the order of the fallback nodes.
pub proof fn fetch_step_preserves_wf(s: FetchStateView, event: FetchEventView)
    requires
        fetch_state_wf(s),
    ensures
        fetch_state_wf(fetch_step(s, event).0),
        fetch_step(s, event).0.context == s.context,
        fetch_step(s, event).0.fallback == s.fallback,
{
}

/// The first answer with members ends the fetch with them.
pub proof fn first_success_ends_the_fetch(s: FetchStateView, members: Seq<DiscoveryMemberView>)
    requires
        !(s.phase is Done),
    ensures
        fetch_step(s, FetchEventView::Fetched(members)).0.phase == (FetchPhase::Done {
            result: Ok(members),
        }),
{
}

/// A fetch fails only when the last fallback node has failed, or the
/// last try through the context's endpoint where there is no fallback
/// node; it then ends with the error of that query.
pub proof fn fetch_fails_with_the_last_error(s: FetchStateView, event: FetchEventView)
    requires
        fetch_state_wf(s),
        !(s.phase is Done),
        fetch_step(s, event).0.phase is Done,
        fetch_step(s, event).0.phase->result is Err,
    ensures
        event is Failed,
        fetch_step(s, event).0.phase->result->Err_0 == event->Failed_0,
        s.phase matches FetchPhase::Context { attempt } ==> attempt == VIP_MAX_RETRIES
            && s.fallback.len() == 0,
        s.phase matches FetchPhase::Fallback { cursor } ==> cursor + 1 == s.fallback.len(),
{
}

} // verus!
