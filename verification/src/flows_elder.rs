//! Keeping the elders of our section: merge or split when needed, else make the
//! oldest online nodes the elders through a change that the section votes for;
//! nodes going offline and coming back.
use vstd::prelude::*;
use crate::actions::{find_node, inc, saturating_inc, set_node_elder, set_node_state, InnerAction, InnerActionView};
use crate::flows_dst::opt_index;
use crate::seq_tools::{
    best_index, first_index, lemma_best_index_found, lemma_best_index_none, lemma_first_index_found,
    lemma_first_index_none,
};
use crate::state::{MemberState, MemberView, ELDER_SIZE};
use crate::utilities::{
    ActionTriggered, Event, LocalEvent, MergeInfo, Node, NodeChange, NodeState, ParsecVote, Rpc, SectionInfo,
    State,
};

verus! {

/// The order in which nodes become elders: by age, then name.
pub open spec fn elder_key(ns: NodeState) -> int {
    ns.node.0.age * 0x1_0000_0000_0000_0000 + ns.node.0.name
}

pub open spec fn elder_key_fn() -> spec_fn(NodeState) -> int {
    |ns: NodeState| elder_key(ns)
}

/// An online node not chosen yet.
pub open spec fn elder_candidate_pred(chosen: Seq<u64>) -> spec_fn(NodeState) -> bool {
    |ns: NodeState| ns.state == State::Online && !chosen.contains(ns.node.0.name)
}

/// The names of the `k` first online nodes in elder order (fewer where there are fewer).
pub open spec fn elder_choice(nodes: Seq<NodeState>, k: nat) -> Seq<u64>
    decreases k,
{
    if k == 0 {
        Seq::empty()
    } else {
        let prev = elder_choice(nodes, (k - 1) as nat);
        match best_index(nodes, elder_candidate_pred(prev), elder_key_fn()) {
            Some(i) => prev.push(nodes[i].node.0.name),
            None => prev,
        }
    }
}

/// The names of the nodes that should be the elders.
pub open spec fn new_elders(nodes: Seq<NodeState>) -> Seq<u64> {
    elder_choice(nodes, ELDER_SIZE as nat)
}

/// Votes to make elders the chosen nodes that are not, in node order.
pub open spec fn elder_adds(nodes: Seq<NodeState>, chosen: Seq<u64>) -> Seq<ParsecVote>
    decreases nodes.len(),
{
    if nodes.len() == 0 {
        Seq::empty()
    } else {
        let prev = elder_adds(nodes.drop_last(), chosen);
        let ns = nodes.last();
        if chosen.contains(ns.node.0.name) && !ns.is_elder {
            prev.push(ParsecVote::AddElderNode(ns.node))
        } else {
            prev
        }
    }
}

/// Votes to remove the elders that are not chosen, in node order.
pub open spec fn elder_removes(nodes: Seq<NodeState>, chosen: Seq<u64>) -> Seq<ParsecVote>
    decreases nodes.len(),
{
    if nodes.len() == 0 {
        Seq::empty()
    } else {
        let prev = elder_removes(nodes.drop_last(), chosen);
        let ns = nodes.last();
        if ns.is_elder && !chosen.contains(ns.node.0.name) {
            prev.push(ParsecVote::RemoveElderNode(ns.node))
        } else {
            prev
        }
    }
}

/// The votes recorded in order.
pub open spec fn emit_votes(a: InnerActionView, votes: Seq<ParsecVote>) -> InnerActionView
    decreases votes.len(),
{
    if votes.len() == 0 {
        a
    } else {
        emit_votes(a, votes.drop_last()).emit(Event::ParsecConsensus(votes.last()))
    }
}

/// What an agreed vote of an elder change does.
pub open spec fn apply_elder_vote(a: InnerActionView, v: ParsecVote) -> InnerActionView {
    match v {
        ParsecVote::AddElderNode(n) => a.with_nodes(set_node_elder(a.our_current_nodes, n.0.name, true)).emit(
            Event::NodeChange(NodeChange::Elder(n, true)),
        ),
        ParsecVote::RemoveElderNode(n) => a.with_nodes(set_node_elder(a.our_current_nodes, n.0.name, false)).emit(
            Event::NodeChange(NodeChange::Elder(n, false)),
        ),
        ParsecVote::NewSectionInfo(info) => InnerActionView { our_section: info, ..a }.emit(
            Event::ActionTriggered(ActionTriggered::OurSectionChanged(info)),
        ),
        _ => a,
    }
}

/// The votes of a completed elder change applied in order.
pub open spec fn apply_elder_votes(a: InnerActionView, votes: Seq<ParsecVote>) -> InnerActionView
    decreases votes.len(),
{
    if votes.len() == 0 {
        a
    } else {
        apply_elder_vote(apply_elder_votes(a, votes.drop_last()), votes.last())
    }
}

/// The next version of our section.
pub open spec fn next_section_info(a: InnerActionView) -> SectionInfo {
    SectionInfo(a.our_section.0, saturating_inc(a.our_section.1))
}

/// Consensus on CheckElder: ask to merge, or to split, or vote for the elder change that
/// makes the oldest online nodes the elders, or look again later.
pub open spec fn on_check_elder(s: MemberView) -> MemberView {
    let a = s.action;
    if a.merge_needed || a.merge_info is Some {
        s.with_action(a.emit(Event::Rpc(Rpc::Merge)))
    } else if a.split_needed {
        s.with_action(a.emit(Event::Rpc(Rpc::Split)))
    } else if s.elder_votes.len() > 0 {
        s
    } else {
        let chosen = new_elders(a.our_current_nodes);
        let changes = elder_adds(a.our_current_nodes, chosen) + elder_removes(a.our_current_nodes, chosen);
        if changes.len() == 0 {
            s.with_action(a.emit(Event::ActionTriggered(ActionTriggered::Scheduled(LocalEvent::TimeoutCheckElder))))
        } else {
            let votes = changes.push(ParsecVote::NewSectionInfo(next_section_info(a)));
            MemberView { action: emit_votes(a, votes), elder_votes: votes, elder_pending: votes, ..s }
        }
    }
}

pub open spec fn vote_is(v: ParsecVote) -> spec_fn(ParsecVote) -> bool {
    |x: ParsecVote| x == v
}

/// Consensus on a vote of an elder change: once all the votes that we cast are agreed,
/// the change is applied; a vote that we did not cast is an error.
pub open spec fn on_elder_vote(s: MemberView, v: ParsecVote) -> MemberView {
    let idx = first_index(s.elder_pending, vote_is(v));
    if s.elder_votes.len() > 0 && idx is Some {
        let pending = s.elder_pending.remove(idx->0);
        if pending.len() == 0 {
            MemberView {
                action: apply_elder_votes(s.action, s.elder_votes).emit(
                    Event::ActionTriggered(ActionTriggered::Scheduled(LocalEvent::TimeoutCheckElder)),
                ),
                elder_votes: Seq::empty(),
                elder_pending: Seq::empty(),
                ..s
            }
        } else {
            MemberView { elder_pending: pending, ..s }
        }
    } else {
        s.with_action(s.action.emit(Event::ActionTriggered(ActionTriggered::UnexpectedEventErrorTriggered)))
    }
}

/// Consensus on Offline: the node is offline.
pub open spec fn on_offline(s: MemberView, n: Node) -> MemberView {
    let a = s.action;
    if find_node(a.our_current_nodes, n.0.name) is Some {
        s.with_action(
            a.with_nodes(set_node_state(a.our_current_nodes, n.0.name, State::Offline)).emit(
                Event::NodeChange(NodeChange::State(n, State::Offline)),
            ),
        )
    } else {
        s
    }
}

/// Consensus on BackOnline for an offline node: it is to be relocated.
pub open spec fn on_back_online(s: MemberView, n: Node) -> MemberView {
    let a = s.action;
    let nodes = a.our_current_nodes;
    match find_node(nodes, n.0.name) {
        Some(i) => if nodes[i].state == State::Offline {
            s.with_action(
                a.with_nodes(
                    nodes.update(i, NodeState { state: State::RelocatingBackOnline, relocation_wait: None, ..nodes[i] }),
                ).emit(Event::NodeChange(NodeChange::State(n, State::RelocatingBackOnline))),
            )
        } else {
            s
        },
        None => s,
    }
}

/// Consensus on a neighbour's merge request: keep it for the next CheckElder.
pub open spec fn on_neighbour_merge(s: MemberView, mi: MergeInfo) -> MemberView {
    s.with_action(
        InnerActionView { merge_info: Some(mi), ..s.action }.emit(
            Event::ActionTriggered(ActionTriggered::MergeInfoStored(mi)),
        ),
    )
}

pub fn contains_name(v: &Vec<u64>, x: u64) -> (r: bool)
    ensures
        r == v@.contains(x),
{
    let mut i: usize = 0;
    while i < v.len()
        invariant
            i <= v@.len(),
            forall|j: int| 0 <= j < i ==> v@[j] != x,
        decreases v@.len() - i,
    {
        if v[i] == x {
            assert(v@[i as int] == x);
            return true;
        }
        i = i + 1;
    }
    false
}

fn find_vote(v: &Vec<ParsecVote>, x: ParsecVote) -> (r: Option<usize>)
    ensures
        opt_index(r) == first_index(v@, vote_is(x)),
        r is Some ==> r->0 < v@.len(),
{
    let mut i: usize = 0;
    while i < v.len()
        invariant
            i <= v@.len(),
            forall|j: int| 0 <= j < i ==> !vote_is(x)(v@[j]),
        decreases v@.len() - i,
    {
        if v[i] == x {
            proof {
                lemma_first_index_found(v@, vote_is(x), i as int);
            }
            return Some(i);
        }
        i = i + 1;
    }
    proof {
        lemma_first_index_none(v@, vote_is(x));
    }
    None
}

/// `x` goes before `y` in elder order.
fn elder_before(x: &NodeState, y: &NodeState) -> (r: bool)
    ensures
        r == (elder_key(*x) > elder_key(*y)),
{
    x.node.0.age > y.node.0.age || (x.node.0.age == y.node.0.age && x.node.0.name > y.node.0.name)
}

impl InnerAction {
    /// The first online node in elder order that is not among `chosen`.
    fn best_elder_candidate(&self, chosen: &Vec<u64>) -> (r: Option<usize>)
        ensures
            opt_index(r) == best_index(self@.our_current_nodes, elder_candidate_pred(chosen@), elder_key_fn()),
            r is Some ==> r->0 < self@.our_current_nodes.len(),
    {
        let ghost s = self@.our_current_nodes;
        let ghost p = elder_candidate_pred(chosen@);
        let ghost key = elder_key_fn();
        let mut best: Option<usize> = None;
        let mut i: usize = 0;
        while i < self.our_current_nodes.len()
            invariant
                s == self@.our_current_nodes,
                p == elder_candidate_pred(chosen@),
                key == elder_key_fn(),
                i <= s.len(),
                best is None ==> forall|j: int| 0 <= j < i ==> !p(s[j]),
                best is Some ==> {
                    let b = best->0 as int;
                    &&& b < i
                    &&& p(s[b])
                    &&& forall|j: int| 0 <= j < i && p(s[j]) ==> key(s[j]) <= key(s[b])
                    &&& forall|j: int| 0 <= j < b && p(s[j]) ==> key(s[j]) < key(s[b])
                },
            decreases s.len() - i,
        {
            let ns = &self.our_current_nodes[i];
            if ns.state == State::Online && !contains_name(chosen, ns.node.0.name) {
                match best {
                    None => {
                        best = Some(i);
                    },
                    Some(b) => {
                        if elder_before(ns, &self.our_current_nodes[b]) {
                            best = Some(i);
                        }
                    },
                }
            }
            i = i + 1;
        }
        proof {
            match best {
                Some(b) => lemma_best_index_found(s, p, key, b as int),
                None => lemma_best_index_none(s, p, key),
            }
        }
        best
    }

    /// The names of the nodes that should be the elders.
    pub fn choose_elders(&self) -> (r: Vec<u64>)
        ensures
            r@ == new_elders(self@.our_current_nodes),
    {
        let mut chosen: Vec<u64> = Vec::new();
        let mut k: usize = 0;
        while k < ELDER_SIZE
            invariant
                k <= ELDER_SIZE,
                chosen@ == elder_choice(self@.our_current_nodes, k as nat),
            decreases ELDER_SIZE - k,
        {
            match self.best_elder_candidate(&chosen) {
                Some(i) => {
                    chosen.push(self.our_current_nodes[i].node.0.name);
                },
                None => {},
            }
            k = k + 1;
        }
        chosen
    }

    /// The votes of the change from the current elders to `chosen`.
    fn elder_changes(&self, chosen: &Vec<u64>) -> (r: Vec<ParsecVote>)
        ensures
            r@ == elder_adds(self@.our_current_nodes, chosen@) + elder_removes(self@.our_current_nodes, chosen@),
    {
        let ghost s = self@.our_current_nodes;
        let mut adds: Vec<ParsecVote> = Vec::new();
        let mut removes: Vec<ParsecVote> = Vec::new();
        let mut i: usize = 0;
        while i < self.our_current_nodes.len()
            invariant
                s == self@.our_current_nodes,
                i <= s.len(),
                adds@ == elder_adds(s.take(i as int), chosen@),
                removes@ == elder_removes(s.take(i as int), chosen@),
            decreases s.len() - i,
        {
            let ns = self.our_current_nodes[i];
            let is_chosen = contains_name(chosen, ns.node.0.name);
            if is_chosen && !ns.is_elder {
                adds.push(ParsecVote::AddElderNode(ns.node));
            }
            if ns.is_elder && !is_chosen {
                removes.push(ParsecVote::RemoveElderNode(ns.node));
            }
            proof {
                assert(s.take(i + 1).drop_last() =~= s.take(i as int));
                assert(s.take(i + 1).last() == s[i as int]);
            }
            i = i + 1;
        }
        assert(s.take(s.len() as int) =~= s);
        adds.append(&mut removes);
        adds
    }

    fn emit_votes(&mut self, votes: &Vec<ParsecVote>)
        ensures
            final(self)@ == emit_votes(old(self)@, votes@),
    {
        let mut i: usize = 0;
        while i < votes.len()
            invariant
                i <= votes@.len(),
                self@ == emit_votes(old(self)@, votes@.take(i as int)),
            decreases votes@.len() - i,
        {
            self.vote_parsec(votes[i]);
            proof {
                assert(votes@.take(i + 1).drop_last() =~= votes@.take(i as int));
                assert(votes@.take(i + 1).last() == votes@[i as int]);
            }
            i = i + 1;
        }
        assert(votes@.take(votes@.len() as int) =~= votes@);
    }

    fn apply_elder_vote(&mut self, v: ParsecVote)
        ensures
            final(self)@ == apply_elder_vote(old(self)@, v),
    {
        match v {
            ParsecVote::AddElderNode(n) => {
                self.set_node_elder(n.0.name, true);
                self.node_change(NodeChange::Elder(n, true));
            },
            ParsecVote::RemoveElderNode(n) => {
                self.set_node_elder(n.0.name, false);
                self.node_change(NodeChange::Elder(n, false));
            },
            ParsecVote::NewSectionInfo(info) => {
                self.our_section = info;
                self.action_triggered(ActionTriggered::OurSectionChanged(info));
            },
            _ => {},
        }
    }

    fn apply_elder_votes(&mut self, votes: &Vec<ParsecVote>)
        ensures
            final(self)@ == apply_elder_votes(old(self)@, votes@),
    {
        let mut i: usize = 0;
        while i < votes.len()
            invariant
                i <= votes@.len(),
                self@ == apply_elder_votes(old(self)@, votes@.take(i as int)),
            decreases votes@.len() - i,
        {
            self.apply_elder_vote(votes[i]);
            proof {
                assert(votes@.take(i + 1).drop_last() =~= votes@.take(i as int));
                assert(votes@.take(i + 1).last() == votes@[i as int]);
            }
            i = i + 1;
        }
        assert(votes@.take(votes@.len() as int) =~= votes@);
    }
}

impl MemberState {
    pub fn handle_check_elder(&mut self)
        ensures
            final(self)@ == on_check_elder(old(self)@),
    {
        if self.action.inner.merge_needed || self.action.inner.merge_info.is_some() {
            self.action.inner.send_rpc(Rpc::Merge);
        } else if self.action.inner.split_needed {
            self.action.inner.send_rpc(Rpc::Split);
        } else if self.elder_change.votes.len() > 0 {
        } else {
            let chosen = self.action.inner.choose_elders();
            let mut votes = self.action.inner.elder_changes(&chosen);
            if votes.len() == 0 {
                self.action.inner.schedule_event(LocalEvent::TimeoutCheckElder);
            } else {
                let section = self.action.inner.our_section;
                votes.push(ParsecVote::NewSectionInfo(SectionInfo(section.0, inc(section.1))));
                self.action.inner.emit_votes(&votes);
                let pending = crate::seq_tools::copy_vec(&votes);
                self.elder_change.votes = votes;
                self.elder_change.pending = pending;
            }
        }
    }

    pub fn handle_elder_vote(&mut self, v: ParsecVote)
        ensures
            final(self)@ == on_elder_vote(old(self)@, v),
    {
        if self.elder_change.votes.len() > 0 {
            match find_vote(&self.elder_change.pending, v) {
                Some(i) => {
                    self.elder_change.pending.remove(i);
                    if self.elder_change.pending.len() == 0 {
                        assert(self.elder_change.pending@ =~= Seq::<ParsecVote>::empty());
                        self.action.inner.apply_elder_votes(&self.elder_change.votes);
                        self.action.inner.schedule_event(LocalEvent::TimeoutCheckElder);
                        self.elder_change.votes = Vec::new();
                    }
                    return ;
                },
                None => {},
            }
        }
        self.action.inner.action_triggered(ActionTriggered::UnexpectedEventErrorTriggered);
    }

    pub fn handle_offline(&mut self, n: Node)
        ensures
            final(self)@ == on_offline(old(self)@, n),
    {
        if self.action.inner.find_node(n.0.name).is_some() {
            self.action.inner.set_node_state(n.0.name, State::Offline);
            self.action.inner.node_change(NodeChange::State(n, State::Offline));
        }
    }

    pub fn handle_back_online(&mut self, n: Node)
        ensures
            final(self)@ == on_back_online(old(self)@, n),
    {
        match self.action.inner.find_node(n.0.name) {
            Some(i) => {
                proof {
                    crate::seq_tools::lemma_first_index_some(
                        self@.action.our_current_nodes,
                        crate::actions::has_name(n.0.name),
                    );
                }
                let ns = self.action.inner.our_current_nodes[i];
                if ns.state == State::Offline {
                    self.action.inner.our_current_nodes.set(
                        i,
                        NodeState { state: State::RelocatingBackOnline, relocation_wait: None, ..ns },
                    );
                    self.action.inner.node_change(NodeChange::State(n, State::RelocatingBackOnline));
                }
            },
            None => {},
        }
    }

    pub fn handle_neighbour_merge(&mut self, mi: MergeInfo)
        ensures
            final(self)@ == on_neighbour_merge(old(self)@, mi),
    {
        self.action.inner.merge_info = Some(mi);
        self.action.inner.action_triggered(ActionTriggered::MergeInfoStored(mi));
    }
}

} // verus!
