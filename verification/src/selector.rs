//! The node selector: liveness probes in random order, first live node wins.
//!
//! Probing is the caller's work. The selector says which node to probe next
//! and, from each answer, whether the choice is made.

use rand::seq::SliceRandom;
use vstd::prelude::*;
use vstd::seq_lib::*;

verus! {

/// Why no node was chosen.
#[derive(Debug, Clone, Copy, PartialEq, Eq, Structural)]
pub enum SelectError {
    /// The pool holds no node; nothing was probed.
    EmptyPool,
    /// Every node of the pool was probed and none answered.
    NoReachableNode,
}

impl SelectError {
    pub open spec fn spec_message(&self) -> Seq<char> {
        match self {
            SelectError::EmptyPool => "No available node sockets"@,
            SelectError::NoReachableNode => "No reachable nodes"@,
        }
    }

    /// The error in words.
    pub fn message(&self) -> (r: String)
        ensures
            r@ == self.spec_message(),
    {
        match self {
            SelectError::EmptyPool => "No available node sockets".to_owned(),
            SelectError::NoReachableNode => "No reachable nodes".to_owned(),
        }
    }
}

/// What the selector asks of its caller, or what it has settled on.
#[derive(Debug, Clone, Copy, PartialEq, Eq, Structural)]
pub enum SelectStep {
    /// Probe the node at this index of the pool and report the answer.
    Probe(usize),
    /// The node at this index answered its probe: it is the choice.
    Selected(usize),
    /// No node is chosen.
    Failed(SelectError),
}

/// The indices of a pool of `pool_len` nodes, in pool order.
pub open spec fn pool_indices(pool_len: nat) -> Seq<usize> {
    Seq::new(pool_len, |i: int| i as usize)
}

/// A probe order for a pool: every index of the pool, each exactly once.
pub open spec fn is_probe_order(order: Seq<usize>, pool_len: nat) -> bool {
    order.to_multiset() == pool_indices(pool_len).to_multiset()
}

/// The first position of `order`, from `from` on, whose node is live; the
/// length of `order` where there is none.
pub open spec fn first_live(order: Seq<usize>, alive: Seq<bool>, from: int) -> int
    decreases order.len() - from,
{
    if from < 0 || from >= order.len() {
        order.len() as int
    } else if alive[order[from] as int] {
        from
    } else {
        first_live(order, alive, from + 1)
    }
}

/// The choice owed for a probe order and the liveness of each node.
pub open spec fn selection(order: Seq<usize>, alive: Seq<bool>) -> Result<usize, SelectError> {
    if order.len() == 0 {
        Err(SelectError::EmptyPool)
    } else if first_live(order, alive, 0) < order.len() {
        Ok(order[first_live(order, alive, 0)])
    } else {
        Err(SelectError::NoReachableNode)
    }
}

/// The number of probes that lead to that choice.
pub open spec fn probes_issued(order: Seq<usize>, alive: Seq<bool>) -> nat {
    if first_live(order, alive, 0) < order.len() {
        (first_live(order, alive, 0) + 1) as nat
    } else {
        order.len()
    }
}

/// Between `from` and the first live position every node is dead, and the
/// node at that position, where there is one, is live.
pub proof fn lemma_first_live(order: Seq<usize>, alive: Seq<bool>, from: int)
    requires
        0 <= from <= order.len(),
    ensures
        from <= first_live(order, alive, from) <= order.len(),
        first_live(order, alive, from) < order.len() ==> alive[order[first_live(
            order,
            alive,
            from,
        )] as int],
        forall|j: int|
            from <= j < first_live(order, alive, from) ==> !alive[#[trigger] order[j] as int],
    decreases order.len() - from,
{
    if from < order.len() && !alive[order[from] as int] {
        lemma_first_live(order, alive, from + 1);
    }
}

/// A probe order has the pool's length, holds only indices of the pool, and
/// holds each of them.
pub proof fn lemma_probe_order(order: Seq<usize>, pool_len: nat)
    requires
        is_probe_order(order, pool_len),
        pool_len <= usize::MAX,
    ensures
        order.len() == pool_len,
        forall|k: int| 0 <= k < order.len() ==> #[trigger] order[k] < pool_len,
        forall|i: usize| i < pool_len ==> #[trigger] order.contains(i),
        order.no_duplicates(),
{
    broadcast use group_to_multiset_ensures;

    let ids = pool_indices(pool_len);
    assert(order.len() == order.to_multiset().len());
    assert(ids.len() == ids.to_multiset().len());
    assert forall|k: int| 0 <= k < order.len() implies #[trigger] order[k] < pool_len by {
        assert(order.contains(order[k]));
        assert(order.to_multiset().count(order[k]) > 0);
        assert(ids.contains(order[k]));
    }
    assert forall|i: usize| i < pool_len implies #[trigger] order.contains(i) by {
        assert(ids[i as int] == i);
        assert(ids.contains(i));
        assert(ids.to_multiset().count(i) > 0);
    }
    assert(ids.no_duplicates());
    ids.lemma_multiset_has_no_duplicates();
    order.lemma_multiset_has_no_duplicates_conv();
}

/// Where the pool is not empty and some node is live, the choice is a live
/// node of the pool, made within as many probes as the pool has nodes.
pub proof fn lemma_live_node_is_selected(order: Seq<usize>, alive: Seq<bool>)
    requires
        alive.len() > 0,
        alive.len() <= usize::MAX,
        is_probe_order(order, alive.len()),
        exists|i: int| 0 <= i < alive.len() && alive[i],
    ensures
        selection(order, alive) is Ok,
        selection(order, alive)->Ok_0 < alive.len(),
        alive[selection(order, alive)->Ok_0 as int],
        1 <= probes_issued(order, alive) <= alive.len(),
{
    lemma_probe_order(order, alive.len());
    lemma_first_live(order, alive, 0);
    let i = choose|i: int| 0 <= i < alive.len() && alive[i];
    assert(order.contains(i as usize));
    let k = choose|k: int| 0 <= k < order.len() && order[k] == i as usize;
    if first_live(order, alive, 0) >= order.len() {
        assert(!alive[order[k] as int]);
    }
}

/// An empty pool is refused at once: no node is chosen and nothing is probed.
pub proof fn lemma_empty_pool(order: Seq<usize>, alive: Seq<bool>)
    requires
        order.len() == 0,
    ensures
        selection(order, alive) == Err::<usize, SelectError>(SelectError::EmptyPool),
        probes_issued(order, alive) == 0,
{
}

/// Where no node of a pool is live, selection fails after probing each node
/// exactly once.
pub proof fn lemma_dead_pool(order: Seq<usize>, alive: Seq<bool>)
    requires
        alive.len() > 0,
        alive.len() <= usize::MAX,
        is_probe_order(order, alive.len()),
        forall|i: int| 0 <= i < alive.len() ==> !alive[i],
    ensures
        selection(order, alive) == Err::<usize, SelectError>(SelectError::NoReachableNode),
        probes_issued(order, alive) == alive.len(),
{
    lemma_probe_order(order, alive.len());
    lemma_first_live(order, alive, 0);
    let p = first_live(order, alive, 0);
    if p < order.len() {
        assert(order[p] < alive.len());
    }
}

/// Permutes the indices in place by `rand::seq::SliceRandom::shuffle`, with
/// the thread's generator from `rand::rng`. Claimed of it: the vector holds the same
/// indices as before, each as often as before. Nothing is claimed of their
/// order.
#[verifier::external_body]
fn shuffle_indices(indices: &mut Vec<usize>)
    ensures
        final(indices)@.to_multiset() == old(indices)@.to_multiset(),
{
    indices.shuffle(&mut rand::rng());
}

/// A random order in which to probe a pool of `pool_len` nodes.
pub fn probe_order(pool_len: usize) -> (order: Vec<usize>)
    ensures
        is_probe_order(order@, pool_len as nat),
{
    let mut order: Vec<usize> = Vec::new();
    let mut i: usize = 0;
    while i < pool_len
        invariant
            i <= pool_len,
            order@ == pool_indices(i as nat),
        decreases pool_len - i,
    {
        order.push(i);
        assert(order@ =~= pool_indices((i + 1) as nat));
        i = i + 1;
    }
    shuffle_indices(&mut order);
    order
}

/// A selection in progress over one probe order.
pub struct NodeSelector {
    order: Vec<usize>,
    issued: usize,
    finished: bool,
}

impl NodeSelector {
    /// The probe order that this selection follows.
    pub closed spec fn order(&self) -> Seq<usize> {
        self.order@
    }

    /// The number of probes asked for so far.
    pub closed spec fn issued(&self) -> nat {
        self.issued as nat
    }

    /// Whether the selection has ended, in a choice or in a failure.
    pub closed spec fn finished(&self) -> bool {
        self.finished
    }

    /// While a selection runs, one probe is outstanding: the last one asked
    /// for, which is within the order.
    pub closed spec fn wf(&self) -> bool {
        &&& self.issued <= self.order@.len()
        &&& !self.finished ==> self.issued >= 1
    }

    /// Starts a selection. An empty order fails at once, with no probe; any
    /// other asks for a probe of its first node.
    pub fn start(order: Vec<usize>) -> (r: (NodeSelector, SelectStep))
        ensures
            r.0.wf(),
            r.0.order() == order@,
            order@.len() == 0 ==> r.1 == SelectStep::Failed(SelectError::EmptyPool)
                && r.0.finished() && r.0.issued() == 0,
            order@.len() > 0 ==> r.1 == SelectStep::Probe(order@[0]) && !r.0.finished()
                && r.0.issued() == 1,
    {
        if order.len() == 0 {
            (NodeSelector { order, issued: 0, finished: true }, SelectStep::Failed(SelectError::EmptyPool))
        } else {
            let first: usize = order[0];
            (NodeSelector { order, issued: 1, finished: false }, SelectStep::Probe(first))
        }
    }

    /// Whether a probe is outstanding.
    pub fn is_finished(&self) -> (r: bool)
        ensures
            r == self.finished(),
    {
        self.finished
    }

    /// The number of probes asked for so far.
    pub fn probes(&self) -> (r: usize)
        ensures
            r == self.issued(),
    {
        self.issued
    }

    /// Takes the answer to the outstanding probe. A live node is the choice.
    /// After a dead one the next node of the order is probed, and where none
    /// is left the selection fails.
    pub fn on_probe(&mut self, reachable: bool) -> (step: SelectStep)
        requires
            old(self).wf(),
            !old(self).finished(),
        ensures
            final(self).wf(),
            final(self).order() == old(self).order(),
            1 <= old(self).issued() <= old(self).order().len(),
            reachable ==> step == SelectStep::Selected(
                old(self).order()[old(self).issued() - 1],
            ) && final(self).finished() && final(self).issued() == old(self).issued(),
            !reachable && old(self).issued() < old(self).order().len() ==> step
                == SelectStep::Probe(old(self).order()[old(self).issued() as int])
                && !final(self).finished() && final(self).issued() == old(self).issued() + 1,
            !reachable && old(self).issued() == old(self).order().len() ==> step
                == SelectStep::Failed(SelectError::NoReachableNode) && final(self).finished()
                && final(self).issued() == old(self).issued(),
    {
        if reachable {
            self.finished = true;
            SelectStep::Selected(self.order[self.issued - 1])
        } else if self.issued < self.order.len() {
            let next: usize = self.order[self.issued];
            self.issued = self.issued + 1;
            SelectStep::Probe(next)
        } else {
            self.finished = true;
            SelectStep::Failed(SelectError::NoReachableNode)
        }
    }
}

/// Runs a whole selection against a table that holds, for each node of the
/// pool, whether its probe succeeds. Returns the choice and the number of
/// probes it took.
pub fn select_node(order: Vec<usize>, alive: &Vec<bool>) -> (r: (Result<usize, SelectError>, usize))
    requires
        forall|k: int| 0 <= k < order@.len() ==> #[trigger] order@[k] < alive@.len(),
    ensures
        r.0 == selection(order@, alive@),
        r.1 == probes_issued(order@, alive@),
{
    let ghost seq = order@;
    let (mut selector, first) = NodeSelector::start(order);
    let mut step = first;
    loop
        invariant
            selector.wf(),
            selector.order() == seq,
            seq == order@,
            forall|k: int| 0 <= k < seq.len() ==> #[trigger] seq[k] < alive@.len(),
            match step {
                SelectStep::Probe(node) => {
                    &&& !selector.finished()
                    &&& 1 <= selector.issued() <= seq.len()
                    &&& node == seq[selector.issued() - 1]
                    &&& first_live(seq, alive@, 0) == first_live(
                        seq,
                        alive@,
                        selector.issued() - 1,
                    )
                },
                SelectStep::Selected(node) => {
                    &&& selection(seq, alive@) == Ok::<usize, SelectError>(node)
                    &&& selector.issued() == probes_issued(seq, alive@)
                },
                SelectStep::Failed(e) => {
                    &&& selection(seq, alive@) == Err::<usize, SelectError>(e)
                    &&& selector.issued() == probes_issued(seq, alive@)
                },
            },
        decreases
            (if step is Probe { 1 + seq.len() - selector.issued() } else { 0 }),
    {
        match step {
            SelectStep::Probe(node) => {
                let answer: bool = alive[node];
                proof {
                    lemma_first_live(seq, alive@, selector.issued() - 1);
                }
                step = selector.on_probe(answer);
            },
            SelectStep::Selected(node) => {
                return (Ok(node), selector.probes());
            },
            SelectStep::Failed(e) => {
                return (Err(e), selector.probes());
            },
        }
    }
}

/// Chooses a node in a fresh random order, against a table that holds, for
/// each node of the pool, whether its probe succeeds. Returns the choice and
/// the number of probes it took.
///
/// Whatever the order: an empty pool fails at once with no probe; where some
/// node is live, a live node is chosen within as many probes as there are
/// nodes; where none is, every node is probed once and the choice fails.
pub fn choose_random_node(alive: &Vec<bool>) -> (r: (Result<usize, SelectError>, usize))
    ensures
        exists|order: Seq<usize>| #[trigger]
            is_probe_order(order, alive@.len()) && r.0 == selection(order, alive@) && r.1
                == probes_issued(order, alive@),
        alive@.len() == 0 ==> r.0 == Err::<usize, SelectError>(SelectError::EmptyPool) && r.1 == 0,
        (exists|i: int| 0 <= i < alive@.len() && alive@[i]) ==> r.0 is Ok && r.0->Ok_0
            < alive@.len() && alive@[r.0->Ok_0 as int] && 1 <= r.1 <= alive@.len(),
        alive@.len() > 0 && (forall|i: int| 0 <= i < alive@.len() ==> !alive@[i]) ==> r.0 == Err::<
            usize,
            SelectError,
        >(SelectError::NoReachableNode) && r.1 == alive@.len(),
{
    let order = probe_order(alive.len());
    proof {
        lemma_probe_order(order@, alive@.len());
        if alive@.len() == 0 {
            lemma_empty_pool(order@, alive@);
        } else if exists|i: int| 0 <= i < alive@.len() && alive@[i] {
            lemma_live_node_is_selected(order@, alive@);
        } else {
            lemma_dead_pool(order@, alive@);
        }
    }
    select_node(order, alive)
}

} // verus!
