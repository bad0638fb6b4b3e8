//! What a node knows of itself and its section, and the log of what it has done
//! (`our_events`): the state that the routines of `state` read and change.
use vstd::prelude::*;
use crate::seq_tools::{copy_vec, first_index, lemma_first_index_found, lemma_first_index_none};
use crate::utilities::{
    default_node_state, ActionTriggered, Attributes, Event, LocalEvent, MergeInfo, Name, Node, NodeChange,
    NodeState, ParsecVote, ProofSource, Rpc, Section, SectionInfo, State, GenesisPfxInfo,
};

verus! {

/// One more, staying at the largest value.
pub open spec fn saturating_inc(x: u64) -> u64 {
    if x == u64::MAX {
        x
    } else {
        (x + 1) as u64
    }
}

pub fn inc(x: u64) -> (r: u64)
    ensures
        r == saturating_inc(x),
{
    if x < u64::MAX {
        x + 1
    } else {
        x
    }
}

pub open spec fn has_name(name: u64) -> spec_fn(NodeState) -> bool {
    |ns: NodeState| ns.node.0.name == name
}

/// No two nodes have the same name.
pub open spec fn names_unique(nodes: Seq<NodeState>) -> bool {
    forall|i: int, j: int|
        0 <= i < j < nodes.len() ==> #[trigger] nodes[i].node.0.name != #[trigger] nodes[j].node.0.name
}

/// The position of the node called `name`.
pub open spec fn find_node(nodes: Seq<NodeState>, name: u64) -> Option<int> {
    first_index(nodes, has_name(name))
}

/// `ns` in place of the node of the same name, or added after the others.
pub open spec fn upsert_node(nodes: Seq<NodeState>, ns: NodeState) -> Seq<NodeState> {
    match find_node(nodes, ns.node.0.name) {
        Some(i) => nodes.update(i, ns),
        None => nodes.push(ns),
    }
}

/// The nodes without the one called `name`.
pub open spec fn remove_node(nodes: Seq<NodeState>, name: u64) -> Seq<NodeState> {
    match find_node(nodes, name) {
        Some(i) => nodes.remove(i),
        None => nodes,
    }
}

/// The node called `name`, now in `state`.
pub open spec fn set_node_state(nodes: Seq<NodeState>, name: u64, state: State) -> Seq<NodeState> {
    match find_node(nodes, name) {
        Some(i) => nodes.update(i, NodeState { state, ..nodes[i] }),
        None => nodes,
    }
}

/// The node called `name`, now elder or not.
pub open spec fn set_node_elder(nodes: Seq<NodeState>, name: u64, is_elder: bool) -> Seq<NodeState> {
    match find_node(nodes, name) {
        Some(i) => nodes.update(i, NodeState { is_elder, ..nodes[i] }),
        None => nodes,
    }
}

/// The node called `name`, now with this relocation wait.
pub open spec fn set_node_wait(nodes: Seq<NodeState>, name: u64, wait: Option<u64>) -> Seq<NodeState> {
    match find_node(nodes, name) {
        Some(i) => nodes.update(i, NodeState { relocation_wait: wait, ..nodes[i] }),
        None => nodes,
    }
}

/// The node called `name`, now with this many work units.
pub open spec fn set_node_work(nodes: Seq<NodeState>, name: u64, work: u64) -> Seq<NodeState> {
    match find_node(nodes, name) {
        Some(i) => nodes.update(i, NodeState { work_units_done: work, ..nodes[i] }),
        None => nodes,
    }
}

/// The resource proof computed for `elder`, if any.
pub open spec fn find_proof(proofs: Seq<(Name, ProofSource)>, elder: Name) -> Option<int> {
    first_index(proofs, |p: (Name, ProofSource)| p.0 == elder)
}

/// The proofs with this one in place of the one for the same elder.
pub open spec fn upsert_proof(proofs: Seq<(Name, ProofSource)>, elder: Name, source: ProofSource) -> Seq<(Name, ProofSource)> {
    match find_proof(proofs, elder) {
        Some(i) => proofs.update(i, (elder, source)),
        None => proofs.push((elder, source)),
    }
}

/// The mathematical value of an `InnerAction`.
pub struct InnerActionView {
    pub our_attributes: Attributes,
    pub our_section: SectionInfo,
    pub our_current_nodes: Seq<NodeState>,
    pub our_events: Seq<Event>,
    pub shortest_prefix: Option<Section>,
    pub next_target_interval: Name,
    pub merge_info: Option<MergeInfo>,
    pub merge_needed: bool,
    pub split_needed: bool,
    pub resource_proofs_for_elder: Seq<(Name, ProofSource)>,
}

impl InnerActionView {
    /// This view with `e` recorded last.
    pub open spec fn emit(self, e: Event) -> InnerActionView {
        InnerActionView { our_events: self.our_events.push(e), ..self }
    }

    pub open spec fn with_nodes(self, nodes: Seq<NodeState>) -> InnerActionView {
        InnerActionView { our_current_nodes: nodes, ..self }
    }

    pub open spec fn our_name(self) -> Name {
        Name(self.our_attributes.name)
    }

    /// The section information handed to the nodes that we accept.
    pub open spec fn genesis(self) -> GenesisPfxInfo {
        GenesisPfxInfo(self.our_section)
    }

    /// Node names are unique.
    pub open spec fn wf(self) -> bool {
        names_unique(self.our_current_nodes)
    }
}

/// What a node knows of itself and its section, and what it has done so far.
#[derive(Clone, Debug)]
pub struct InnerAction {
    pub our_attributes: Attributes,
    pub our_section: SectionInfo,
    /// The nodes of our section, each name at most once.
    pub our_current_nodes: Vec<NodeState>,
    /// Everything done so far: votes, RPCs sent, node changes, triggered actions.
    pub our_events: Vec<Event>,
    /// A section with a shorter prefix than ours, if one is known.
    pub shortest_prefix: Option<Section>,
    /// Where the next accepted candidate will be placed.
    pub next_target_interval: Name,
    /// A neighbour's merge request that reached consensus.
    pub merge_info: Option<MergeInfo>,
    pub merge_needed: bool,
    pub split_needed: bool,
    /// Resource proofs computed for the elders of the section we join.
    pub resource_proofs_for_elder: Vec<(Name, ProofSource)>,
}

impl View for InnerAction {
    type V = InnerActionView;

    open spec fn view(&self) -> InnerActionView {
        InnerActionView {
            our_attributes: self.our_attributes,
            our_section: self.our_section,
            our_current_nodes: self.our_current_nodes@,
            our_events: self.our_events@,
            shortest_prefix: self.shortest_prefix,
            next_target_interval: self.next_target_interval,
            merge_info: self.merge_info,
            merge_needed: self.merge_needed,
            split_needed: self.split_needed,
            resource_proofs_for_elder: self.resource_proofs_for_elder@,
        }
    }
}

/// A node of section `Section(0)` at its first version, knowing nothing else.
pub open spec fn new_inner_action_view(our_attributes: Attributes) -> InnerActionView {
    InnerActionView {
        our_attributes,
        our_section: SectionInfo(Section(0), 0),
        our_current_nodes: Seq::empty(),
        our_events: Seq::empty(),
        shortest_prefix: None,
        next_target_interval: Name(0),
        merge_info: None,
        merge_needed: false,
        split_needed: false,
        resource_proofs_for_elder: Seq::empty(),
    }
}

/// `nodes` added to (or put in place in) `current`, each with the fields of `template`.
pub open spec fn extend_nodes(current: Seq<NodeState>, template: NodeState, nodes: Seq<Node>) -> Seq<NodeState>
    decreases nodes.len(),
{
    if nodes.len() == 0 {
        current
    } else {
        upsert_node(
            extend_nodes(current, template, nodes.drop_last()),
            NodeState { node: nodes.last(), ..template },
        )
    }
}

impl InnerAction {
    pub fn new_with_our_attributes(our_attributes: Attributes) -> (r: InnerAction)
        ensures
            r@ == new_inner_action_view(our_attributes),
    {
        InnerAction {
            our_attributes,
            our_section: SectionInfo(Section(0), 0),
            our_current_nodes: Vec::new(),
            our_events: Vec::new(),
            shortest_prefix: None,
            next_target_interval: Name(0),
            merge_info: None,
            merge_needed: false,
            split_needed: false,
            resource_proofs_for_elder: Vec::new(),
        }
    }

    pub fn with_next_target_interval(self, name: Name) -> (r: InnerAction)
        ensures
            r@ == (InnerActionView { next_target_interval: name, ..self@ }),
    {
        InnerAction { next_target_interval: name, ..self }
    }

    /// Adds each of `nodes` to our section, with the other fields of `state`.
    pub fn extend_current_nodes_with(self, state: &NodeState, nodes: &[Node]) -> (r: InnerAction)
        ensures
            r@ == self@.with_nodes(extend_nodes(self@.our_current_nodes, *state, nodes@)),
    {
        let mut r = self;
        let ghost start = r@;
        let mut i: usize = 0;
        while i < nodes.len()
            invariant
                i <= nodes@.len(),
                r@ == start.with_nodes(extend_nodes(start.our_current_nodes, *state, nodes@.subrange(0, i as int))),
            decreases nodes@.len() - i,
        {
            let ns = NodeState { node: nodes[i], ..*state };
            r.upsert_node(ns);
            proof {
                let next = nodes@.subrange(0, i + 1);
                assert(next.drop_last() =~= nodes@.subrange(0, i as int));
                assert(next.last() == nodes@[i as int]);
            }
            i = i + 1;
        }
        assert(nodes@.subrange(0, nodes@.len() as int) =~= nodes@);
        r
    }

    /// Makes `section_info` our section, with `nodes` as its elders.
    pub fn with_section_members(self, section_info: SectionInfo, nodes: &[Node]) -> (r: InnerAction)
        ensures
            r@ == (InnerActionView {
                our_section: section_info,
                our_current_nodes: extend_nodes(
                    self@.our_current_nodes,
                    NodeState { is_elder: true, ..default_node_state() },
                    nodes@,
                ),
                ..self@
            }),
    {
        let elder = NodeState { is_elder: true, ..NodeState::default() };
        let r = InnerAction { our_section: section_info, ..self };
        r.extend_current_nodes_with(&elder, nodes)
    }

    /// Forgets what was done so far.
    pub fn remove_processed_state(&mut self)
        ensures
            final(self)@ == (InnerActionView { our_events: Seq::empty(), ..old(self)@ }),
    {
        self.our_events = Vec::new();
    }

    /// A copy of this value.
    pub fn duplicate(&self) -> (r: InnerAction)
        ensures
            r@ == self@,
    {
        InnerAction {
            our_attributes: self.our_attributes,
            our_section: self.our_section,
            our_current_nodes: copy_vec(&self.our_current_nodes),
            our_events: copy_vec(&self.our_events),
            shortest_prefix: self.shortest_prefix,
            next_target_interval: self.next_target_interval,
            merge_info: self.merge_info,
            merge_needed: self.merge_needed,
            split_needed: self.split_needed,
            resource_proofs_for_elder: copy_vec(&self.resource_proofs_for_elder),
        }
    }

    pub fn our_name(&self) -> (n: Name)
        ensures
            n == self@.our_name(),
    {
        Name(self.our_attributes.name)
    }

    /// Records `e` as done.
    pub fn emit(&mut self, e: Event)
        ensures
            final(self)@ == old(self)@.emit(e),
    {
        self.our_events.push(e);
    }

    pub fn send_rpc(&mut self, rpc: Rpc)
        ensures
            final(self)@ == old(self)@.emit(Event::Rpc(rpc)),
    {
        self.emit(Event::Rpc(rpc));
    }

    pub fn vote_parsec(&mut self, vote: ParsecVote)
        ensures
            final(self)@ == old(self)@.emit(Event::ParsecConsensus(vote)),
    {
        self.emit(Event::ParsecConsensus(vote));
    }

    pub fn action_triggered(&mut self, a: ActionTriggered)
        ensures
            final(self)@ == old(self)@.emit(Event::ActionTriggered(a)),
    {
        self.emit(Event::ActionTriggered(a));
    }

    pub fn schedule_event(&mut self, l: LocalEvent)
        ensures
            final(self)@ == old(self)@.emit(Event::ActionTriggered(ActionTriggered::Scheduled(l))),
    {
        self.emit(Event::ActionTriggered(ActionTriggered::Scheduled(l)));
    }

    pub fn node_change(&mut self, c: NodeChange)
        ensures
            final(self)@ == old(self)@.emit(Event::NodeChange(c)),
    {
        self.emit(Event::NodeChange(c));
    }

    /// The position of the node called `name`.
    pub fn find_node(&self, name: u64) -> (r: Option<usize>)
        ensures
            match r {
                Some(i) => find_node(self@.our_current_nodes, name) == Some(i as int),
                None => find_node(self@.our_current_nodes, name) is None,
            },
    {
        let mut i: usize = 0;
        while i < self.our_current_nodes.len()
            invariant
                i <= self.our_current_nodes@.len(),
                forall|j: int| 0 <= j < i ==> !has_name(name)(self.our_current_nodes@[j]),
            decreases self.our_current_nodes@.len() - i,
        {
            if self.our_current_nodes[i].node.0.name == name {
                proof {
                    lemma_first_index_found(self.our_current_nodes@, has_name(name), i as int);
                }
                return Some(i);
            }
            i = i + 1;
        }
        proof {
            lemma_first_index_none(self.our_current_nodes@, has_name(name));
        }
        None
    }

    /// Puts `ns` in place of the node of the same name, or adds it.
    pub fn upsert_node(&mut self, ns: NodeState)
        ensures
            final(self)@ == old(self)@.with_nodes(upsert_node(old(self)@.our_current_nodes, ns)),
    {
        match self.find_node(ns.node.0.name) {
            Some(i) => {
                self.our_current_nodes.set(i, ns);
            },
            None => {
                self.our_current_nodes.push(ns);
            },
        }
    }

    /// Removes the node called `name`.
    pub fn remove_node(&mut self, name: u64)
        ensures
            final(self)@ == old(self)@.with_nodes(remove_node(old(self)@.our_current_nodes, name)),
    {
        match self.find_node(name) {
            Some(i) => {
                self.our_current_nodes.remove(i);
            },
            None => {},
        }
    }

    pub fn set_node_state(&mut self, name: u64, state: State)
        ensures
            final(self)@ == old(self)@.with_nodes(set_node_state(old(self)@.our_current_nodes, name, state)),
    {
        match self.find_node(name) {
            Some(i) => {
                let ns = NodeState { state, ..self.our_current_nodes[i] };
                self.our_current_nodes.set(i, ns);
            },
            None => {},
        }
    }

    pub fn set_node_elder(&mut self, name: u64, is_elder: bool)
        ensures
            final(self)@ == old(self)@.with_nodes(set_node_elder(old(self)@.our_current_nodes, name, is_elder)),
    {
        match self.find_node(name) {
            Some(i) => {
                let ns = NodeState { is_elder, ..self.our_current_nodes[i] };
                self.our_current_nodes.set(i, ns);
            },
            None => {},
        }
    }

    pub fn set_node_wait(&mut self, name: u64, wait: Option<u64>)
        ensures
            final(self)@ == old(self)@.with_nodes(set_node_wait(old(self)@.our_current_nodes, name, wait)),
    {
        match self.find_node(name) {
            Some(i) => {
                let ns = NodeState { relocation_wait: wait, ..self.our_current_nodes[i] };
                self.our_current_nodes.set(i, ns);
            },
            None => {},
        }
    }

    pub fn set_node_work(&mut self, name: u64, work: u64)
        ensures
            final(self)@ == old(self)@.with_nodes(set_node_work(old(self)@.our_current_nodes, name, work)),
    {
        match self.find_node(name) {
            Some(i) => {
                let ns = NodeState { work_units_done: work, ..self.our_current_nodes[i] };
                self.our_current_nodes.set(i, ns);
            },
            None => {},
        }
    }

    /// The proof computed for `elder`, if any.
    pub fn find_proof(&self, elder: Name) -> (r: Option<usize>)
        ensures
            match r {
                Some(i) => find_proof(self@.resource_proofs_for_elder, elder) == Some(i as int),
                None => find_proof(self@.resource_proofs_for_elder, elder) is None,
            },
    {
        let ghost p = |q: (Name, ProofSource)| q.0 == elder;
        let mut i: usize = 0;
        while i < self.resource_proofs_for_elder.len()
            invariant
                i <= self.resource_proofs_for_elder@.len(),
                p == (|q: (Name, ProofSource)| q.0 == elder),
                forall|j: int| 0 <= j < i ==> !p(self.resource_proofs_for_elder@[j]),
            decreases self.resource_proofs_for_elder@.len() - i,
        {
            if self.resource_proofs_for_elder[i].0 == elder {
                proof {
                    lemma_first_index_found(self.resource_proofs_for_elder@, p, i as int);
                }
                return Some(i);
            }
            i = i + 1;
        }
        proof {
            lemma_first_index_none(self.resource_proofs_for_elder@, p);
        }
        None
    }

    /// Keeps `source` as the proof computed for `elder`.
    pub fn set_resource_proof(&mut self, elder: Name, source: ProofSource)
        ensures
            final(self)@ == (InnerActionView {
                resource_proofs_for_elder: upsert_proof(old(self)@.resource_proofs_for_elder, elder, source),
                ..old(self)@
            }),
    {
        match self.find_proof(elder) {
            Some(i) => {
                self.resource_proofs_for_elder.set(i, (elder, source));
            },
            None => {
                self.resource_proofs_for_elder.push((elder, source));
            },
        }
    }
}

/// The mathematical value of an `Action`: that of the `InnerAction` it holds.
pub type ActionView = InnerActionView;

/// The handle through which the routines act on the node's state. It holds its
/// `InnerAction` by value: a copy of a state has an action of its own.
#[derive(Clone, Debug)]
pub struct Action {
    pub inner: InnerAction,
}

impl View for Action {
    type V = InnerActionView;

    open spec fn view(&self) -> InnerActionView {
        self.inner@
    }
}

impl Action {
    pub fn new(inner: InnerAction) -> (a: Action)
        ensures
            a@ == inner@,
    {
        Action { inner }
    }

    /// A copy of the state held.
    pub fn inner(&self) -> (r: InnerAction)
        ensures
            r@ == self@,
    {
        self.inner.duplicate()
    }

    pub fn remove_processed_state(&mut self)
        ensures
            final(self)@ == (InnerActionView { our_events: Seq::empty(), ..old(self)@ }),
    {
        self.inner.remove_processed_state();
    }

    pub fn duplicate(&self) -> (r: Action)
        ensures
            r@ == self@,
    {
        Action { inner: self.inner.duplicate() }
    }
}

} // verus!
