//! The destination side of a relocation: our section accepts one relocated
//! candidate at a time, waits for it to connect, checks its resource proof, and
//! approves or purges it.
use vstd::prelude::*;
use crate::actions::{find_node, inc, remove_node, saturating_inc, set_node_state, upsert_node, InnerActionView};
use crate::state::{idle_dst, DstState, MemberState, MemberView};
use crate::utilities::{
    ActionTriggered, Age, Attributes, Candidate, CandidateInfo, Event, LocalEvent, Name, Node, NodeChange,
    NodeState, ParsecVote, Proof, ProofRequest, RelocatedInfo, Rpc, State,
};

verus! {

pub open spec fn opt_index(o: Option<usize>) -> Option<int> {
    match o {
        Some(i) => Some(i as int),
        None => None,
    }
}

/// Where the current candidate stands among our nodes.
pub open spec fn candidate_index(s: MemberView) -> Option<int> {
    match s.dst.current {
        Some(n) => find_node(s.action.our_current_nodes, n.0),
        None => None,
    }
}

/// The information we sent to the current candidate, while we wait for its CandidateInfo.
pub open spec fn waiting_info(s: MemberView) -> Option<RelocatedInfo> {
    match candidate_index(s) {
        Some(i) => match s.action.our_current_nodes[i].state {
            State::WaitingCandidateInfo(info) => Some(info),
            _ => None,
        },
        None => None,
    }
}

/// Where the current candidate stands, while it waits for its resource proof.
pub open spec fn proofing_index(s: MemberView) -> Option<int> {
    match candidate_index(s) {
        Some(i) => if s.action.our_current_nodes[i].state == State::WaitingProofing {
            Some(i)
        } else {
            None
        },
        None => None,
    }
}

/// A candidate is accepted and its processing is not complete.
pub open spec fn candidate_in_progress(s: MemberView) -> bool {
    match candidate_index(s) {
        Some(i) => match s.action.our_current_nodes[i].state {
            State::WaitingCandidateInfo(_) => true,
            State::WaitingProofing => true,
            State::RelocatingHop => true,
            _ => false,
        },
        None => false,
    }
}

/// What we tell a candidate that we accept.
pub open spec fn accepted_info(a: InnerActionView, c: Candidate) -> RelocatedInfo {
    RelocatedInfo {
        candidate: c,
        expected_age: Age(saturating_inc(c.0.age)),
        target_interval_centre: a.next_target_interval,
        section_info: a.our_section,
    }
}

/// The node that stands for an accepted candidate until it connects.
pub open spec fn accepted_node(a: InnerActionView, c: Candidate) -> Node {
    Node(Attributes { name: a.next_target_interval.0, age: saturating_inc(c.0.age) })
}

/// Consensus on ExpectCandidate: answer again the candidate we wait for, refuse one
/// while another is processed, else accept it at the next target interval.
pub open spec fn on_expect_candidate(s: MemberView, c: Candidate) -> MemberView {
    let a = s.action;
    if waiting_info(s) is Some && waiting_info(s)->0.candidate == c {
        s.with_action(a.emit(Event::Rpc(Rpc::RelocateResponse(waiting_info(s)->0))))
    } else if candidate_in_progress(s) {
        s.with_action(a.emit(Event::Rpc(Rpc::RefuseCandidate(c))))
    } else {
        let info = accepted_info(a, c);
        let node = accepted_node(a, c);
        let state = State::WaitingCandidateInfo(info);
        let ns = NodeState { node, work_units_done: 0, is_elder: false, state, relocation_wait: None };
        let a1 = InnerActionView {
            our_current_nodes: upsert_node(a.our_current_nodes, ns),
            next_target_interval: Name(saturating_inc(a.next_target_interval.0)),
            ..a
        };
        MemberView {
            action: a1.emit(Event::NodeChange(NodeChange::AddWithState(node, state))).emit(
                Event::Rpc(Rpc::RelocateResponse(info)),
            ),
            dst: DstState { current: Some(a.next_target_interval), ..idle_dst() },
            ..s
        }
    }
}

/// The CandidateInfo that the current candidate must send.
pub open spec fn expected_candidate_info(info: RelocatedInfo, ci: CandidateInfo) -> bool {
    ci.valid && ci.old_public_id == info.candidate && ci.destination == info.target_interval_centre
}

/// RPC CandidateInfo: ask the expected candidate for its connection information.
pub open spec fn on_candidate_info(s: MemberView, ci: CandidateInfo) -> MemberView {
    match waiting_info(s) {
        Some(info) => if expected_candidate_info(info, ci) {
            MemberView {
                action: s.action.emit(
                    Event::Rpc(
                        Rpc::ConnectionInfoRequest {
                            source: s.action.our_name(),
                            destination: Name(ci.new_public_id.0.name),
                            connection_info: s.action.our_attributes.name,
                        },
                    ),
                ),
                dst: DstState { candidate_info: Some(ci), ..s.dst },
                ..s
            }
        } else {
            s
        },
        None => s,
    }
}

/// RPC ConnectionInfoResponse: the first one from the expected candidate is a vote that it
/// is connected; any other is left to a handler that does not exist yet.
pub open spec fn on_connection_info_response(s: MemberView, source: Name) -> MemberView {
    if waiting_info(s) is Some && s.dst.candidate_info is Some && !s.dst.voted_connected && Name(
        s.dst.candidate_info->0.new_public_id.0.name,
    ) == source {
        MemberView {
            action: s.action.emit(
                Event::ParsecConsensus(ParsecVote::CandidateConnected(s.dst.candidate_info->0)),
            ),
            dst: DstState { voted_connected: true, ..s.dst },
            ..s
        }
    } else {
        s.with_action(s.action.emit(Event::ActionTriggered(ActionTriggered::NotYetImplementedErrorTriggered)))
    }
}

/// Consensus on CandidateConnected for the expected candidate: it replaces the node that
/// stood for it, waits for its proof (or is relocated on where a shorter section
/// exists), and is told it is connected.
pub open spec fn on_candidate_connected(s: MemberView, ci: CandidateInfo) -> MemberView {
    let a = s.action;
    match waiting_info(s) {
        Some(info) => if expected_candidate_info(info, ci) {
            let old_name = s.dst.current->0;
            let node = Node(ci.new_public_id.0);
            let state = if a.shortest_prefix is Some {
                State::RelocatingHop
            } else {
                State::WaitingProofing
            };
            let ns = NodeState { node, work_units_done: 0, is_elder: false, state, relocation_wait: None };
            let nodes = upsert_node(remove_node(a.our_current_nodes, old_name.0), ns);
            MemberView {
                action: a.with_nodes(nodes).emit(
                    Event::NodeChange(NodeChange::ReplaceWith(old_name, node, state)),
                ).emit(Event::Rpc(Rpc::NodeConnected(ci.new_public_id, a.genesis()))),
                dst: DstState { current: Some(Name(node.0.name)), ..idle_dst() },
                ..s
            }
        } else {
            s
        },
        None => s,
    }
}

/// Consensus on CheckResourceProof: start the proof of a connected candidate, or look
/// again later.
pub open spec fn on_check_resource_proof(s: MemberView) -> MemberView {
    let a = s.action;
    match proofing_index(s) {
        Some(i) => if s.dst.proofing {
            s
        } else {
            MemberView {
                action: a.emit(
                    Event::Rpc(
                        Rpc::ResourceProof {
                            candidate: Candidate(a.our_current_nodes[i].node.0),
                            source: a.our_name(),
                            proof: ProofRequest { value: a.our_attributes.name },
                        },
                    ),
                ).emit(Event::ActionTriggered(ActionTriggered::Scheduled(LocalEvent::TimeoutAccept))),
                dst: DstState { proofing: true, ..s.dst },
                ..s
            }
        },
        None => s.with_action(
            a.emit(Event::ActionTriggered(ActionTriggered::Scheduled(LocalEvent::CheckResourceProofTimeout))),
        ),
    }
}

/// The candidate whose proof is awaited is `c`.
pub open spec fn is_proofing_candidate(s: MemberView, c: Candidate) -> bool {
    proofing_index(s) is Some && Candidate(s.action.our_current_nodes[proofing_index(s)->0].node.0) == c
}

/// RPC ResourceProofResponse from the candidate being proofed: receipt for each valid
/// part, and a vote that it is online on the last one.
pub open spec fn on_proof_response(s: MemberView, candidate: Candidate, destination: Name, part: Proof) -> MemberView {
    let a = s.action;
    let receipt = Event::Rpc(Rpc::ResourceProofReceipt { candidate, source: a.our_name() });
    if is_proofing_candidate(s, candidate) && s.dst.proofing && !s.dst.voted_online && destination
        == a.our_name() {
        match part {
            Proof::ValidPart => s.with_action(a.emit(receipt)),
            Proof::ValidEnd => MemberView {
                action: a.emit(Event::ParsecConsensus(ParsecVote::Online(candidate))).emit(receipt),
                dst: DstState { voted_online: true, ..s.dst },
                ..s
            },
            Proof::Invalid => s,
        }
    } else {
        s
    }
}

/// Consensus on Online for the candidate being proofed: it is approved.
pub open spec fn on_online(s: MemberView, c: Candidate) -> MemberView {
    let a = s.action;
    if is_proofing_candidate(s, c) {
        let node = a.our_current_nodes[proofing_index(s)->0].node;
        MemberView {
            action: a.with_nodes(set_node_state(a.our_current_nodes, node.0.name, State::Online)).emit(
                Event::NodeChange(NodeChange::State(node, State::Online)),
            ).emit(Event::Rpc(Rpc::NodeApproval(c, a.genesis()))).emit(
                Event::ActionTriggered(ActionTriggered::Scheduled(LocalEvent::CheckResourceProofTimeout)),
            ),
            dst: idle_dst(),
            ..s
        }
    } else {
        s
    }
}

/// Consensus on PurgeCandidate for the candidate being proofed: it is removed.
pub open spec fn on_purge(s: MemberView, c: Candidate) -> MemberView {
    let a = s.action;
    if is_proofing_candidate(s, c) {
        let node = a.our_current_nodes[proofing_index(s)->0].node;
        MemberView {
            action: a.with_nodes(remove_node(a.our_current_nodes, node.0.name)).emit(
                Event::NodeChange(NodeChange::Remove(Name(node.0.name))),
            ).emit(Event::ActionTriggered(ActionTriggered::Scheduled(LocalEvent::CheckResourceProofTimeout))),
            dst: idle_dst(),
            ..s
        }
    } else {
        s
    }
}

/// Consensus on CheckRelocatedNodeConnection: a candidate still not connected at the
/// second check is dropped; the check is scheduled again.
pub open spec fn on_check_connection(s: MemberView) -> MemberView {
    let s1 = if waiting_info(s) is Some {
        if s.dst.connection_checked {
            let n = s.dst.current->0;
            MemberView {
                action: s.action.with_nodes(remove_node(s.action.our_current_nodes, n.0)).emit(
                    Event::NodeChange(NodeChange::Remove(n)),
                ),
                dst: idle_dst(),
                ..s
            }
        } else {
            s.with_dst(DstState { connection_checked: true, ..s.dst })
        }
    } else {
        s
    };
    s1.with_action(
        s1.action.emit(
            Event::ActionTriggered(ActionTriggered::Scheduled(LocalEvent::CheckRelocatedNodeConnectionTimeout)),
        ),
    )
}

/// The resource proof timed out: vote to purge the candidate not yet voted online.
pub open spec fn on_timeout_accept(s: MemberView) -> MemberView {
    match proofing_index(s) {
        Some(i) => if s.dst.proofing && !s.dst.voted_online {
            s.with_action(
                s.action.emit(
                    Event::ParsecConsensus(
                        ParsecVote::PurgeCandidate(Candidate(s.action.our_current_nodes[i].node.0)),
                    ),
                ),
            )
        } else {
            s
        },
        None => s,
    }
}

impl MemberState {
    pub fn candidate_index(&self) -> (r: Option<usize>)
        ensures
            opt_index(r) == candidate_index(self@),
            r is Some ==> r->0 < self@.action.our_current_nodes.len(),
    {
        match self.dst.current {
            Some(n) => {
                let r = self.action.inner.find_node(n.0);
                proof {
                    if r is Some {
                        crate::seq_tools::lemma_first_index_some(
                            self@.action.our_current_nodes,
                            crate::actions::has_name(n.0),
                        );
                    }
                }
                r
            },
            None => None,
        }
    }

    pub fn waiting_info(&self) -> (r: Option<RelocatedInfo>)
        ensures
            r == waiting_info(self@),
    {
        match self.candidate_index() {
            Some(i) => match self.action.inner.our_current_nodes[i].state {
                State::WaitingCandidateInfo(info) => Some(info),
                _ => None,
            },
            None => None,
        }
    }

    pub fn proofing_index(&self) -> (r: Option<usize>)
        ensures
            opt_index(r) == proofing_index(self@),
            r is Some ==> r->0 < self@.action.our_current_nodes.len(),
    {
        match self.candidate_index() {
            Some(i) => if self.action.inner.our_current_nodes[i].state == State::WaitingProofing {
                Some(i)
            } else {
                None
            },
            None => None,
        }
    }

    pub fn candidate_in_progress(&self) -> (r: bool)
        ensures
            r == candidate_in_progress(self@),
    {
        match self.candidate_index() {
            Some(i) => match self.action.inner.our_current_nodes[i].state {
                State::WaitingCandidateInfo(_) => true,
                State::WaitingProofing => true,
                State::RelocatingHop => true,
                _ => false,
            },
            None => false,
        }
    }

    pub fn handle_expect_candidate(&mut self, c: Candidate)
        ensures
            final(self)@ == on_expect_candidate(old(self)@, c),
    {
        let w = self.waiting_info();
        if w.is_some() && w.unwrap().candidate == c {
            self.action.inner.send_rpc(Rpc::RelocateResponse(w.unwrap()));
        } else if self.candidate_in_progress() {
            self.action.inner.send_rpc(Rpc::RefuseCandidate(c));
        } else {
            let age = inc(c.0.age);
            let target = self.action.inner.next_target_interval;
            let info = RelocatedInfo {
                candidate: c,
                expected_age: Age(age),
                target_interval_centre: target,
                section_info: self.action.inner.our_section,
            };
            let node = Node(Attributes { name: target.0, age });
            let state = State::WaitingCandidateInfo(info);
            let ns = NodeState { node, work_units_done: 0, is_elder: false, state, relocation_wait: None };
            self.action.inner.upsert_node(ns);
            self.action.inner.next_target_interval = Name(inc(target.0));
            self.action.inner.node_change(NodeChange::AddWithState(node, state));
            self.action.inner.send_rpc(Rpc::RelocateResponse(info));
            self.dst = DstState { current: Some(target), ..DstState::default() };
        }
    }

    pub fn handle_candidate_info(&mut self, ci: CandidateInfo)
        ensures
            final(self)@ == on_candidate_info(old(self)@, ci),
    {
        match self.waiting_info() {
            Some(info) => {
                if ci.valid && ci.old_public_id == info.candidate && ci.destination == info.target_interval_centre {
                    let our = self.action.inner.our_name();
                    self.action.inner.send_rpc(
                        Rpc::ConnectionInfoRequest {
                            source: our,
                            destination: Name(ci.new_public_id.0.name),
                            connection_info: our.0,
                        },
                    );
                    self.dst = DstState { candidate_info: Some(ci), ..self.dst };
                }
            },
            None => {},
        }
    }

    pub fn handle_connection_info_response(&mut self, source: Name)
        ensures
            final(self)@ == on_connection_info_response(old(self)@, source),
    {
        let waiting = self.waiting_info().is_some();
        match self.dst.candidate_info {
            Some(ci) => {
                if waiting && !self.dst.voted_connected && Name(ci.new_public_id.0.name) == source {
                    self.action.inner.vote_parsec(ParsecVote::CandidateConnected(ci));
                    self.dst = DstState { voted_connected: true, ..self.dst };
                    return ;
                }
            },
            None => {},
        }
        self.action.inner.action_triggered(ActionTriggered::NotYetImplementedErrorTriggered);
    }

    pub fn handle_candidate_connected(&mut self, ci: CandidateInfo)
        ensures
            final(self)@ == on_candidate_connected(old(self)@, ci),
    {
        match self.waiting_info() {
            Some(info) => {
                if ci.valid && ci.old_public_id == info.candidate && ci.destination == info.target_interval_centre {
                    let old_name = self.dst.current.unwrap();
                    let node = Node(ci.new_public_id.0);
                    let state = if self.action.inner.shortest_prefix.is_some() {
                        State::RelocatingHop
                    } else {
                        State::WaitingProofing
                    };
                    let ns = NodeState { node, work_units_done: 0, is_elder: false, state, relocation_wait: None };
                    self.action.inner.remove_node(old_name.0);
                    self.action.inner.upsert_node(ns);
                    self.action.inner.node_change(NodeChange::ReplaceWith(old_name, node, state));
                    let genesis = crate::utilities::GenesisPfxInfo(self.action.inner.our_section);
                    self.action.inner.send_rpc(Rpc::NodeConnected(ci.new_public_id, genesis));
                    self.dst = DstState { current: Some(Name(node.0.name)), ..DstState::default() };
                }
            },
            None => {},
        }
    }

    pub fn handle_check_resource_proof(&mut self)
        ensures
            final(self)@ == on_check_resource_proof(old(self)@),
    {
        match self.proofing_index() {
            Some(i) => {
                if !self.dst.proofing {
                    let candidate = Candidate(self.action.inner.our_current_nodes[i].node.0);
                    let our = self.action.inner.our_name();
                    self.action.inner.send_rpc(
                        Rpc::ResourceProof { candidate, source: our, proof: ProofRequest { value: our.0 } },
                    );
                    self.action.inner.schedule_event(LocalEvent::TimeoutAccept);
                    self.dst = DstState { proofing: true, ..self.dst };
                }
            },
            None => {
                self.action.inner.schedule_event(LocalEvent::CheckResourceProofTimeout);
            },
        }
    }

    fn is_proofing_candidate(&self, c: Candidate) -> (r: bool)
        ensures
            r == is_proofing_candidate(self@, c),
    {
        match self.proofing_index() {
            Some(i) => Candidate(self.action.inner.our_current_nodes[i].node.0) == c,
            None => false,
        }
    }

    pub fn handle_proof_response(&mut self, candidate: Candidate, destination: Name, part: Proof)
        ensures
            final(self)@ == on_proof_response(old(self)@, candidate, destination, part),
    {
        let our = self.action.inner.our_name();
        if self.is_proofing_candidate(candidate) && self.dst.proofing && !self.dst.voted_online && destination
            == our {
            match part {
                Proof::ValidPart => {
                    self.action.inner.send_rpc(Rpc::ResourceProofReceipt { candidate, source: our });
                },
                Proof::ValidEnd => {
                    self.action.inner.vote_parsec(ParsecVote::Online(candidate));
                    self.action.inner.send_rpc(Rpc::ResourceProofReceipt { candidate, source: our });
                    self.dst = DstState { voted_online: true, ..self.dst };
                },
                Proof::Invalid => {},
            }
        }
    }

    pub fn handle_online(&mut self, c: Candidate)
        ensures
            final(self)@ == on_online(old(self)@, c),
    {
        if self.is_proofing_candidate(c) {
            let i = self.proofing_index().unwrap();
            let node = self.action.inner.our_current_nodes[i].node;
            self.action.inner.set_node_state(node.0.name, State::Online);
            self.action.inner.node_change(NodeChange::State(node, State::Online));
            let genesis = crate::utilities::GenesisPfxInfo(self.action.inner.our_section);
            self.action.inner.send_rpc(Rpc::NodeApproval(c, genesis));
            self.action.inner.schedule_event(LocalEvent::CheckResourceProofTimeout);
            self.dst = DstState::default();
        }
    }

    pub fn handle_purge(&mut self, c: Candidate)
        ensures
            final(self)@ == on_purge(old(self)@, c),
    {
        if self.is_proofing_candidate(c) {
            let i = self.proofing_index().unwrap();
            let node = self.action.inner.our_current_nodes[i].node;
            self.action.inner.remove_node(node.0.name);
            self.action.inner.node_change(NodeChange::Remove(Name(node.0.name)));
            self.action.inner.schedule_event(LocalEvent::CheckResourceProofTimeout);
            self.dst = DstState::default();
        }
    }

    pub fn handle_check_connection(&mut self)
        ensures
            final(self)@ == on_check_connection(old(self)@),
    {
        if self.waiting_info().is_some() {
            if self.dst.connection_checked {
                let n = self.dst.current.unwrap();
                self.action.inner.remove_node(n.0);
                self.action.inner.node_change(NodeChange::Remove(n));
                self.dst = DstState::default();
            } else {
                self.dst = DstState { connection_checked: true, ..self.dst };
            }
        }
        self.action.inner.schedule_event(LocalEvent::CheckRelocatedNodeConnectionTimeout);
    }

    pub fn handle_timeout_accept(&mut self)
        ensures
            final(self)@ == on_timeout_accept(old(self)@),
    {
        match self.proofing_index() {
            Some(i) => {
                if self.dst.proofing && !self.dst.voted_online {
                    let candidate = Candidate(self.action.inner.our_current_nodes[i].node.0);
                    self.action.inner.vote_parsec(ParsecVote::PurgeCandidate(candidate));
                }
            },
            None => {},
        }
    }
}

} // verus!
