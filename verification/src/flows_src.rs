//! The source side of a relocation: nodes accumulate work units, one at a time
//! starts relocating, and CheckRelocate sends ExpectCandidate for the node that
//! should go first, again after a while when no answer came.
use vstd::prelude::*;
use crate::actions::{inc, saturating_inc, InnerAction};
use crate::flows_dst::opt_index;
use crate::seq_tools::{
    best_index, first_index, lemma_best_index_found, lemma_best_index_none, lemma_first_index_found,
    lemma_first_index_none,
};
use crate::state::{MemberState, MemberView, RELOCATE_RESEND_CHECKS, WORK_UNITS_TO_RELOCATE};
use crate::utilities::{
    ActionTriggered, Candidate, Event, Name, NodeChange, NodeState, ParsecVote, RelocatedInfo, Rpc, State,
};

verus! {

/// A state in which the node waits to be relocated.
pub open spec fn is_relocating(st: State) -> bool {
    match st {
        State::RelocatingAgeIncrease => true,
        State::RelocatingHop => true,
        State::RelocatingBackOnline => true,
        _ => false,
    }
}

/// A node that CheckRelocate may relocate: one waiting to be relocated that is not an elder.
pub open spec fn to_relocate(ns: NodeState) -> bool {
    is_relocating(ns.state) && !ns.is_elder
}

/// Nodes relocated because of their work go first, then those hopping on, then those
/// back online.
pub open spec fn relocation_rank(st: State) -> int {
    match st {
        State::RelocatingAgeIncrease => 2,
        State::RelocatingHop => 1,
        _ => 0,
    }
}

/// The order in which nodes are relocated: by rank, then age, then name.
pub open spec fn relocation_key(ns: NodeState) -> int {
    relocation_rank(ns.state) * 0x1_0000_0000_0000_0000_0000_0000_0000_0000 + ns.node.0.age
        * 0x1_0000_0000_0000_0000 + ns.node.0.name
}

/// One more CheckRelocate since the node's ExpectCandidate was sent.
pub open spec fn bump_wait(ns: NodeState) -> NodeState {
    if to_relocate(ns) && ns.relocation_wait is Some {
        NodeState { relocation_wait: Some(saturating_inc(ns.relocation_wait->0)), ..ns }
    } else {
        ns
    }
}

/// ExpectCandidate may be sent for this node: never sent, refused, or unanswered for a while.
pub open spec fn ready_to_send(ns: NodeState) -> bool {
    to_relocate(ns) && match ns.relocation_wait {
        None => true,
        Some(w) => w >= RELOCATE_RESEND_CHECKS,
    }
}

pub open spec fn ready_pred() -> spec_fn(NodeState) -> bool {
    |ns: NodeState| ready_to_send(ns)
}

pub open spec fn relocation_key_fn() -> spec_fn(NodeState) -> int {
    |ns: NodeState| relocation_key(ns)
}

/// One more work unit done.
pub open spec fn bump_work(ns: NodeState) -> NodeState {
    NodeState { work_units_done: saturating_inc(ns.work_units_done), ..ns }
}

/// The node queries that the relocation routines make.
#[derive(Clone, Copy)]
pub enum NodeQuery {
    /// A node relocating because of its work.
    AgeIncreaseStarted,
    /// An online node that did enough work to be relocated.
    ReadyForAgeIncrease,
    /// A node waiting to be relocated, as this candidate.
    RelocatingAs(Candidate),
    /// A node whose relocation was agreed with this information.
    RelocatedWith(RelocatedInfo),
}

pub open spec fn query(q: NodeQuery) -> spec_fn(NodeState) -> bool {
    match q {
        NodeQuery::AgeIncreaseStarted => |ns: NodeState| ns.state == State::RelocatingAgeIncrease,
        NodeQuery::ReadyForAgeIncrease => |ns: NodeState|
            ns.state == State::Online && ns.work_units_done >= WORK_UNITS_TO_RELOCATE,
        NodeQuery::RelocatingAs(c) => |ns: NodeState| is_relocating(ns.state) && Candidate(ns.node.0) == c,
        NodeQuery::RelocatedWith(info) => |ns: NodeState| ns.state == State::Relocated(info),
    }
}

fn query_holds(q: NodeQuery, ns: &NodeState) -> (r: bool)
    ensures
        r == query(q)(*ns),
{
    match q {
        NodeQuery::AgeIncreaseStarted => ns.state == State::RelocatingAgeIncrease,
        NodeQuery::ReadyForAgeIncrease => ns.state == State::Online && ns.work_units_done >= WORK_UNITS_TO_RELOCATE,
        NodeQuery::RelocatingAs(c) => is_relocating_exec(ns.state) && Candidate(ns.node.0) == c,
        NodeQuery::RelocatedWith(info) => ns.state == State::Relocated(info),
    }
}

fn is_relocating_exec(st: State) -> (r: bool)
    ensures
        r == is_relocating(st),
{
    match st {
        State::RelocatingAgeIncrease => true,
        State::RelocatingHop => true,
        State::RelocatingBackOnline => true,
        _ => false,
    }
}

fn relocation_rank_exec(st: State) -> (r: u8)
    ensures
        r == relocation_rank(st),
{
    match st {
        State::RelocatingAgeIncrease => 2,
        State::RelocatingHop => 1,
        _ => 0,
    }
}

/// `x` goes before `y`.
fn relocation_before(x: &NodeState, y: &NodeState) -> (r: bool)
    ensures
        r == (relocation_key(*x) > relocation_key(*y)),
{
    let rx = relocation_rank_exec(x.state);
    let ry = relocation_rank_exec(y.state);
    rx > ry || (rx == ry && (x.node.0.age > y.node.0.age || (x.node.0.age == y.node.0.age && x.node.0.name
        > y.node.0.name)))
}

fn ready_to_send_exec(ns: &NodeState) -> (r: bool)
    ensures
        r == ready_to_send(*ns),
{
    is_relocating_exec(ns.state) && !ns.is_elder && match ns.relocation_wait {
        None => true,
        Some(w) => w >= RELOCATE_RESEND_CHECKS,
    }
}

/// Consensus on WorkUnitIncrement: every node did one more unit of work; where no node
/// is relocating for its work, the first online node that did enough starts to.
pub open spec fn on_work_unit_increment(s: MemberView) -> MemberView {
    let a = s.action.emit(Event::ActionTriggered(ActionTriggered::WorkUnitIncremented));
    let nodes = a.our_current_nodes.map_values(|ns: NodeState| bump_work(ns));
    let started = first_index(nodes, query(NodeQuery::AgeIncreaseStarted));
    let ready = first_index(nodes, query(NodeQuery::ReadyForAgeIncrease));
    if started is None && ready is Some {
        let i = ready->0;
        let node = nodes[i].node;
        s.with_action(
            a.with_nodes(
                nodes.update(i, NodeState { state: State::RelocatingAgeIncrease, relocation_wait: None, ..nodes[i] }),
            ).emit(Event::NodeChange(NodeChange::State(node, State::RelocatingAgeIncrease))),
        )
    } else {
        s.with_action(a.with_nodes(nodes))
    }
}

/// Consensus on CheckRelocate: one more check for each sent ExpectCandidate; then
/// ExpectCandidate goes out for the first node in relocation order that may be sent.
pub open spec fn on_check_relocate(s: MemberView) -> MemberView {
    let a = s.action;
    let nodes = a.our_current_nodes.map_values(|ns: NodeState| bump_wait(ns));
    match best_index(nodes, ready_pred(), relocation_key_fn()) {
        Some(i) => s.with_action(
            a.with_nodes(nodes.update(i, NodeState { relocation_wait: Some(0), ..nodes[i] })).emit(
                Event::Rpc(Rpc::ExpectCandidate(Candidate(nodes[i].node.0))),
            ),
        ),
        None => s.with_action(a.with_nodes(nodes)),
    }
}

/// Consensus on RefuseCandidate for a node we relocate: send again on the next check.
pub open spec fn on_refuse_candidate(s: MemberView, c: Candidate) -> MemberView {
    let nodes = s.action.our_current_nodes;
    match first_index(nodes, query(NodeQuery::RelocatingAs(c))) {
        Some(i) => s.with_action(s.action.with_nodes(nodes.update(i, NodeState { relocation_wait: None, ..nodes[i] }))),
        None => s,
    }
}

/// Consensus on RelocateResponse for a node we relocate: it is relocated with this
/// information, which we vote for.
pub open spec fn on_relocate_response(s: MemberView, info: RelocatedInfo) -> MemberView {
    let nodes = s.action.our_current_nodes;
    match first_index(nodes, query(NodeQuery::RelocatingAs(info.candidate))) {
        Some(i) => s.with_action(
            s.action.with_nodes(
                nodes.update(i, NodeState { state: State::Relocated(info), relocation_wait: None, ..nodes[i] }),
            ).emit(Event::NodeChange(NodeChange::State(nodes[i].node, State::Relocated(info)))).emit(
                Event::ParsecConsensus(ParsecVote::RelocatedInfo(info)),
            ),
        ),
        None => s,
    }
}

/// Consensus on RelocatedInfo: the node relocated with it is told so and leaves.
pub open spec fn on_relocated_info(s: MemberView, info: RelocatedInfo) -> MemberView {
    let nodes = s.action.our_current_nodes;
    match first_index(nodes, query(NodeQuery::RelocatedWith(info))) {
        Some(i) => s.with_action(
            s.action.emit(Event::Rpc(Rpc::RelocatedInfo(info))).with_nodes(nodes.remove(i)).emit(
                Event::NodeChange(NodeChange::Remove(Name(nodes[i].node.0.name))),
            ),
        ),
        None => s,
    }
}

impl InnerAction {
    /// The first node that answers `q`.
    pub fn first_node(&self, q: NodeQuery) -> (r: Option<usize>)
        ensures
            opt_index(r) == first_index(self@.our_current_nodes, query(q)),
            r is Some ==> r->0 < self@.our_current_nodes.len(),
    {
        let mut i: usize = 0;
        while i < self.our_current_nodes.len()
            invariant
                i <= self.our_current_nodes@.len(),
                forall|j: int| 0 <= j < i ==> !query(q)(self.our_current_nodes@[j]),
            decreases self.our_current_nodes@.len() - i,
        {
            if query_holds(q, &self.our_current_nodes[i]) {
                proof {
                    lemma_first_index_found(self.our_current_nodes@, query(q), i as int);
                }
                return Some(i);
            }
            i = i + 1;
        }
        proof {
            lemma_first_index_none(self.our_current_nodes@, query(q));
        }
        None
    }

    fn bump_work_all(&mut self)
        ensures
            final(self)@ == old(self)@.with_nodes(old(self)@.our_current_nodes.map_values(|ns: NodeState| bump_work(ns))),
    {
        let mut i: usize = 0;
        while i < self.our_current_nodes.len()
            invariant
                i <= self.our_current_nodes@.len(),
                self.our_current_nodes@.len() == old(self)@.our_current_nodes.len(),
                self@ == old(self)@.with_nodes(self@.our_current_nodes),
                forall|j: int| 0 <= j < i ==> self.our_current_nodes@[j] == bump_work(old(self)@.our_current_nodes[j]),
                forall|j: int| i <= j < self.our_current_nodes@.len() ==> self.our_current_nodes@[j] == old(self)@.our_current_nodes[j],
            decreases self.our_current_nodes@.len() - i,
        {
            let ns = self.our_current_nodes[i];
            self.our_current_nodes.set(i, NodeState { work_units_done: inc(ns.work_units_done), ..ns });
            i = i + 1;
        }
        assert(self.our_current_nodes@ =~= old(self)@.our_current_nodes.map_values(|ns: NodeState| bump_work(ns)));
    }

    fn bump_wait_all(&mut self)
        ensures
            final(self)@ == old(self)@.with_nodes(old(self)@.our_current_nodes.map_values(|ns: NodeState| bump_wait(ns))),
    {
        let mut i: usize = 0;
        while i < self.our_current_nodes.len()
            invariant
                i <= self.our_current_nodes@.len(),
                self.our_current_nodes@.len() == old(self)@.our_current_nodes.len(),
                self@ == old(self)@.with_nodes(self@.our_current_nodes),
                forall|j: int| 0 <= j < i ==> self.our_current_nodes@[j] == bump_wait(old(self)@.our_current_nodes[j]),
                forall|j: int| i <= j < self.our_current_nodes@.len() ==> self.our_current_nodes@[j] == old(self)@.our_current_nodes[j],
            decreases self.our_current_nodes@.len() - i,
        {
            let ns = self.our_current_nodes[i];
            if is_relocating_exec(ns.state) && !ns.is_elder {
                match ns.relocation_wait {
                    Some(w) => {
                        self.our_current_nodes.set(i, NodeState { relocation_wait: Some(inc(w)), ..ns });
                    },
                    None => {},
                }
            }
            i = i + 1;
        }
        assert(self.our_current_nodes@ =~= old(self)@.our_current_nodes.map_values(|ns: NodeState| bump_wait(ns)));
    }

    /// The node to relocate first, among those that may be sent.
    fn best_to_relocate(&self) -> (r: Option<usize>)
        ensures
            opt_index(r) == best_index(self@.our_current_nodes, ready_pred(), relocation_key_fn()),
            r is Some ==> r->0 < self@.our_current_nodes.len(),
    {
        let ghost s = self@.our_current_nodes;
        let ghost p = ready_pred();
        let ghost key = relocation_key_fn();
        let mut best: Option<usize> = None;
        let mut i: usize = 0;
        while i < self.our_current_nodes.len()
            invariant
                s == self@.our_current_nodes,
                p == ready_pred(),
                key == relocation_key_fn(),
                i <= s.len(),
                best is None ==> forall|j: int| 0 <= j < i ==> !p(s[j]),
                best is Some ==> {
                    let b = best->0 as int;
                    &&& b < i
                    &&& p(s[b])
                    &&& forall|j: int| 0 <= j < i && p(s[j]) ==> key(s[j]) <= key(s[b])
                    &&& forall|j: int| 0 <= j < b && p(s[j]) ==> key(s[j]) < key(s[b])
                },
            decreases s.len() - i,
        {
            let ns = &self.our_current_nodes[i];
            if ready_to_send_exec(ns) {
                match best {
                    None => {
                        best = Some(i);
                    },
                    Some(b) => {
                        if relocation_before(ns, &self.our_current_nodes[b]) {
                            best = Some(i);
                        }
                    },
                }
            }
            i = i + 1;
        }
        proof {
            match best {
                Some(b) => lemma_best_index_found(s, p, key, b as int),
                None => lemma_best_index_none(s, p, key),
            }
        }
        best
    }
}

impl MemberState {
    pub fn handle_work_unit_increment(&mut self)
        ensures
            final(self)@ == on_work_unit_increment(old(self)@),
    {
        self.action.inner.action_triggered(ActionTriggered::WorkUnitIncremented);
        self.action.inner.bump_work_all();
        if self.action.inner.first_node(NodeQuery::AgeIncreaseStarted).is_none() {
            match self.action.inner.first_node(NodeQuery::ReadyForAgeIncrease) {
                Some(i) => {
                    let ns = self.action.inner.our_current_nodes[i];
                    self.action.inner.our_current_nodes.set(
                        i,
                        NodeState { state: State::RelocatingAgeIncrease, relocation_wait: None, ..ns },
                    );
                    self.action.inner.node_change(NodeChange::State(ns.node, State::RelocatingAgeIncrease));
                },
                None => {},
            }
        }
    }

    pub fn handle_check_relocate(&mut self)
        ensures
            final(self)@ == on_check_relocate(old(self)@),
    {
        self.action.inner.bump_wait_all();
        match self.action.inner.best_to_relocate() {
            Some(i) => {
                let ns = self.action.inner.our_current_nodes[i];
                self.action.inner.our_current_nodes.set(i, NodeState { relocation_wait: Some(0), ..ns });
                self.action.inner.send_rpc(Rpc::ExpectCandidate(Candidate(ns.node.0)));
            },
            None => {},
        }
    }

    pub fn handle_refuse_candidate(&mut self, c: Candidate)
        ensures
            final(self)@ == on_refuse_candidate(old(self)@, c),
    {
        match self.action.inner.first_node(NodeQuery::RelocatingAs(c)) {
            Some(i) => {
                let ns = self.action.inner.our_current_nodes[i];
                self.action.inner.our_current_nodes.set(i, NodeState { relocation_wait: None, ..ns });
            },
            None => {},
        }
    }

    pub fn handle_relocate_response(&mut self, info: RelocatedInfo)
        ensures
            final(self)@ == on_relocate_response(old(self)@, info),
    {
        match self.action.inner.first_node(NodeQuery::RelocatingAs(info.candidate)) {
            Some(i) => {
                let ns = self.action.inner.our_current_nodes[i];
                self.action.inner.our_current_nodes.set(
                    i,
                    NodeState { state: State::Relocated(info), relocation_wait: None, ..ns },
                );
                self.action.inner.node_change(NodeChange::State(ns.node, State::Relocated(info)));
                self.action.inner.vote_parsec(ParsecVote::RelocatedInfo(info));
            },
            None => {},
        }
    }

    pub fn handle_relocated_info(&mut self, info: RelocatedInfo)
        ensures
            final(self)@ == on_relocated_info(old(self)@, info),
    {
        match self.action.inner.first_node(NodeQuery::RelocatedWith(info)) {
            Some(i) => {
                let ns = self.action.inner.our_current_nodes[i];
                self.action.inner.send_rpc(Rpc::RelocatedInfo(info));
                self.action.inner.our_current_nodes.remove(i);
                self.action.inner.node_change(NodeChange::Remove(Name(ns.node.0.name)));
            },
            None => {},
        }
    }
}

} // verus!
