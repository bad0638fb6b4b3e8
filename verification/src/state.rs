//! The two state machines: a member of a section (`MemberState`) and a relocated
//! node that joins its new section (`JoiningState`). Each takes one event at a
//! time; `member_step` and `joining_step` say what an event does.
use vstd::prelude::*;
use crate::actions::{new_inner_action_view, set_node_work, upsert_proof, Action, InnerAction, InnerActionView};
use crate::flows_dst::{
    on_candidate_connected, on_candidate_info, on_check_connection, on_check_resource_proof,
    on_connection_info_response, on_expect_candidate, on_online, on_proof_response, on_purge,
    on_timeout_accept,
};
use crate::flows_elder::{on_back_online, on_check_elder, on_elder_vote, on_neighbour_merge, on_offline};
use crate::flows_node::joining_step;
use crate::flows_src::{on_check_relocate, on_refuse_candidate, on_relocate_response, on_relocated_info, on_work_unit_increment};
use crate::seq_tools::copy_vec;
use crate::utilities::{
    ActionTriggered, Attributes, CandidateInfo, Event, GenesisPfxInfo, LocalEvent, MergeInfo, Name, ParsecVote, Proof,
    RelocatedInfo, Rpc, TestEvent, TryResult,
};

verus! {

/// How many elders a section has.
pub const ELDER_SIZE: usize = 3;

/// The work units after which a node is relocated.
pub const WORK_UNITS_TO_RELOCATE: u64 = 100;

/// The CheckRelocate consensuses after which an unanswered ExpectCandidate is sent again.
pub const RELOCATE_RESEND_CHECKS: u64 = 3;

/// Where the destination routine stands with the candidate it is processing.
#[derive(Clone, Copy, Debug)]
pub struct DstState {
    /// The name under which the current candidate is in our section.
    pub current: Option<Name>,
    /// The valid CandidateInfo received from it.
    pub candidate_info: Option<CandidateInfo>,
    /// We voted that it is connected.
    pub voted_connected: bool,
    /// Its resource proof was started.
    pub proofing: bool,
    /// We voted it online.
    pub voted_online: bool,
    /// A CheckRelocatedNodeConnection consensus already found it not connected.
    pub connection_checked: bool,
}

pub open spec fn idle_dst() -> DstState {
    DstState {
        current: None,
        candidate_info: None,
        voted_connected: false,
        proofing: false,
        voted_online: false,
        connection_checked: false,
    }
}

impl Default for DstState {
    fn default() -> (d: Self)
        ensures
            d == idle_dst(),
    {
        DstState {
            current: None,
            candidate_info: None,
            voted_connected: false,
            proofing: false,
            voted_online: false,
            connection_checked: false,
        }
    }
}

/// The elder change that we voted for and whose votes are not all agreed yet.
#[derive(Clone, Debug)]
pub struct ElderChangeState {
    /// All the votes of the change, in the order they are applied.
    pub votes: Vec<ParsecVote>,
    /// Those not agreed yet.
    pub pending: Vec<ParsecVote>,
}

/// The mathematical value of a `MemberState`.
pub struct MemberView {
    pub action: InnerActionView,
    pub failure: Option<Event>,
    pub dst: DstState,
    pub elder_votes: Seq<ParsecVote>,
    pub elder_pending: Seq<ParsecVote>,
}

impl MemberView {
    pub open spec fn with_action(self, action: InnerActionView) -> MemberView {
        MemberView { action, ..self }
    }

    pub open spec fn with_dst(self, dst: DstState) -> MemberView {
        MemberView { dst, ..self }
    }
}

/// A member of a section.
#[derive(Clone, Debug)]
pub struct MemberState {
    pub action: Action,
    /// The first event that no routine handled.
    pub failure: Option<Event>,
    pub dst: DstState,
    pub elder_change: ElderChangeState,
}

impl View for MemberState {
    type V = MemberView;

    open spec fn view(&self) -> MemberView {
        MemberView {
            action: self.action@,
            failure: self.failure,
            dst: self.dst,
            elder_votes: self.elder_change.votes@,
            elder_pending: self.elder_change.pending@,
        }
    }
}

/// What a test event sets.
pub open spec fn apply_test_event(a: InnerActionView, t: TestEvent) -> InnerActionView {
    match t {
        TestEvent::SetMergeNeeded(b) => InnerActionView { merge_needed: b, ..a },
        TestEvent::SetSplitNeeded(b) => InnerActionView { split_needed: b, ..a },
        TestEvent::SetShortestPrefix(p) => InnerActionView { shortest_prefix: p, ..a },
        TestEvent::SetWorkUnitEnoughToRelocate(n) => a.with_nodes(
            set_node_work(a.our_current_nodes, n.0.name, WORK_UNITS_TO_RELOCATE),
        ),
        TestEvent::SetResourceProof(elder, source) => InnerActionView {
            resource_proofs_for_elder: upsert_proof(a.resource_proofs_for_elder, elder, source),
            ..a
        },
    }
}

/// What a member does with an RPC.
pub open spec fn member_rpc(s: MemberView, rpc: Rpc) -> (MemberView, TryResult) {
    match rpc {
        Rpc::ExpectCandidate(c) => (
            s.with_action(s.action.emit(Event::ParsecConsensus(ParsecVote::ExpectCandidate(c)))),
            TryResult::Handled,
        ),
        Rpc::RefuseCandidate(c) => (
            s.with_action(s.action.emit(Event::ParsecConsensus(ParsecVote::RefuseCandidate(c)))),
            TryResult::Handled,
        ),
        Rpc::RelocateResponse(info) => (
            s.with_action(s.action.emit(Event::ParsecConsensus(ParsecVote::RelocateResponse(info)))),
            TryResult::Handled,
        ),
        Rpc::Merge => (
            s.with_action(s.action.emit(Event::ParsecConsensus(ParsecVote::NeighbourMerge(MergeInfo)))),
            TryResult::Handled,
        ),
        Rpc::CandidateInfo(ci) => (on_candidate_info(s, ci), TryResult::Handled),
        Rpc::ConnectionInfoResponse { source, .. } => (on_connection_info_response(s, source), TryResult::Handled),
        Rpc::ResourceProofResponse { candidate, destination, proof: part } => (
            on_proof_response(s, candidate, destination, part),
            TryResult::Handled,
        ),
        _ => (s, TryResult::Unhandled),
    }
}

/// What a member does when its section agrees on `vote`.
pub open spec fn member_consensus(s: MemberView, vote: ParsecVote) -> MemberView {
    match vote {
        ParsecVote::ExpectCandidate(c) => on_expect_candidate(s, c),
        ParsecVote::CandidateConnected(ci) => on_candidate_connected(s, ci),
        ParsecVote::CheckResourceProof => on_check_resource_proof(s),
        ParsecVote::Online(c) => on_online(s, c),
        ParsecVote::PurgeCandidate(c) => on_purge(s, c),
        ParsecVote::CheckRelocatedNodeConnection => on_check_connection(s),
        ParsecVote::AddElderNode(_) => on_elder_vote(s, vote),
        ParsecVote::RemoveElderNode(_) => on_elder_vote(s, vote),
        ParsecVote::NewSectionInfo(_) => on_elder_vote(s, vote),
        ParsecVote::CheckElder => on_check_elder(s),
        ParsecVote::WorkUnitIncrement => on_work_unit_increment(s),
        ParsecVote::CheckRelocate => on_check_relocate(s),
        ParsecVote::RefuseCandidate(c) => on_refuse_candidate(s, c),
        ParsecVote::RelocateResponse(info) => on_relocate_response(s, info),
        ParsecVote::RelocatedInfo(info) => on_relocated_info(s, info),
        ParsecVote::Offline(n) => on_offline(s, n),
        ParsecVote::BackOnline(n) => on_back_online(s, n),
        ParsecVote::NeighbourMerge(mi) => on_neighbour_merge(s, mi),
    }
}

/// What a member does on a timer or a local detection.
pub open spec fn member_local(s: MemberView, l: LocalEvent) -> (MemberView, TryResult) {
    let vote = |v: ParsecVote| s.with_action(s.action.emit(Event::ParsecConsensus(v)));
    match l {
        LocalEvent::TimeoutAccept => (on_timeout_accept(s), TryResult::Handled),
        LocalEvent::CheckResourceProofTimeout => (vote(ParsecVote::CheckResourceProof), TryResult::Handled),
        LocalEvent::TimeoutWorkUnit => (
            s.with_action(
                s.action.emit(Event::ParsecConsensus(ParsecVote::WorkUnitIncrement)).emit(
                    Event::ActionTriggered(ActionTriggered::Scheduled(LocalEvent::TimeoutWorkUnit)),
                ),
            ),
            TryResult::Handled,
        ),
        LocalEvent::TimeoutCheckElder => (vote(ParsecVote::CheckElder), TryResult::Handled),
        LocalEvent::CheckRelocatedNodeConnectionTimeout => (
            vote(ParsecVote::CheckRelocatedNodeConnection),
            TryResult::Handled,
        ),
        LocalEvent::NodeDetectedOffline(n) => (vote(ParsecVote::Offline(n)), TryResult::Handled),
        LocalEvent::NodeDetectedBackOnline(n) => (vote(ParsecVote::BackOnline(n)), TryResult::Handled),
        _ => (s, TryResult::Unhandled),
    }
}

/// What one event does to a member, and whether a routine handled it. RPCs meant for
/// joining nodes, joining timers, node changes and triggered actions are not handled:
/// the driver records such an event as the failure.
#[verifier::opaque]
pub open spec fn member_step(s: MemberView, e: Event) -> (MemberView, TryResult) {
    match e {
        Event::Rpc(rpc) => member_rpc(s, rpc),
        Event::ParsecConsensus(vote) => (member_consensus(s, vote), TryResult::Handled),
        Event::LocalEvent(l) => member_local(s, l),
        Event::TestEvent(t) => (s.with_action(apply_test_event(s.action, t)), TryResult::Handled),
        _ => (s, TryResult::Unhandled),
    }
}

impl Default for MemberState {
    fn default() -> (s: Self)
        ensures
            s@ == (MemberView {
                action: new_inner_action_view(Attributes { name: 0, age: 0 }),
                failure: None,
                dst: idle_dst(),
                elder_votes: Seq::empty(),
                elder_pending: Seq::empty(),
            }),
    {
        MemberState {
            action: Action::new(
                InnerAction::new_with_our_attributes(Attributes { name: 0, age: 0 }),
            ),
            failure: None,
            dst: DstState::default(),
            elder_change: ElderChangeState { votes: Vec::new(), pending: Vec::new() },
        }
    }
}

impl MemberState {
    /// Hands `e` to the routines.
    pub fn try_next(&mut self, e: Event) -> (r: TryResult)
        ensures
            (final(self)@, r) == member_step(old(self)@, e),
    {
        reveal(member_step);
        match e {
            Event::Rpc(rpc) => self.try_rpc(rpc),
            Event::ParsecConsensus(vote) => {
                self.on_consensus(vote);
                TryResult::Handled
            },
            Event::LocalEvent(l) => self.try_local(l),
            Event::TestEvent(t) => {
                self.action.apply_test_event(t);
                TryResult::Handled
            },
            _ => TryResult::Unhandled,
        }
    }

    /// Records `e` as the event that no routine handled.
    pub fn failure_event(&mut self, e: Event)
        ensures
            final(self)@ == (MemberView { failure: Some(e), ..old(self)@ }),
    {
        self.failure = Some(e);
    }

    /// A copy of this state.
    pub fn duplicate(&self) -> (r: MemberState)
        ensures
            r@ == self@,
    {
        MemberState {
            action: self.action.duplicate(),
            failure: self.failure,
            dst: self.dst,
            elder_change: ElderChangeState {
                votes: copy_vec(&self.elder_change.votes),
                pending: copy_vec(&self.elder_change.pending),
            },
        }
    }

    fn try_rpc(&mut self, rpc: Rpc) -> (r: TryResult)
        ensures
            (final(self)@, r) == member_rpc(old(self)@, rpc),
    {
        match rpc {
            Rpc::ExpectCandidate(c) => {
                self.action.inner.vote_parsec(ParsecVote::ExpectCandidate(c));
                TryResult::Handled
            },
            Rpc::RefuseCandidate(c) => {
                self.action.inner.vote_parsec(ParsecVote::RefuseCandidate(c));
                TryResult::Handled
            },
            Rpc::RelocateResponse(info) => {
                self.action.inner.vote_parsec(ParsecVote::RelocateResponse(info));
                TryResult::Handled
            },
            Rpc::Merge => {
                self.action.inner.vote_parsec(ParsecVote::NeighbourMerge(MergeInfo));
                TryResult::Handled
            },
            Rpc::CandidateInfo(ci) => {
                self.handle_candidate_info(ci);
                TryResult::Handled
            },
            Rpc::ConnectionInfoResponse { source, .. } => {
                self.handle_connection_info_response(source);
                TryResult::Handled
            },
            Rpc::ResourceProofResponse { candidate, destination, proof: part } => {
                self.handle_proof_response(candidate, destination, part);
                TryResult::Handled
            },
            _ => TryResult::Unhandled,
        }
    }

    fn on_consensus(&mut self, vote: ParsecVote)
        ensures
            final(self)@ == member_consensus(old(self)@, vote),
    {
        match vote {
            ParsecVote::ExpectCandidate(c) => self.handle_expect_candidate(c),
            ParsecVote::CandidateConnected(ci) => self.handle_candidate_connected(ci),
            ParsecVote::CheckResourceProof => self.handle_check_resource_proof(),
            ParsecVote::Online(c) => self.handle_online(c),
            ParsecVote::PurgeCandidate(c) => self.handle_purge(c),
            ParsecVote::CheckRelocatedNodeConnection => self.handle_check_connection(),
            ParsecVote::AddElderNode(_) => self.handle_elder_vote(vote),
            ParsecVote::RemoveElderNode(_) => self.handle_elder_vote(vote),
            ParsecVote::NewSectionInfo(_) => self.handle_elder_vote(vote),
            ParsecVote::CheckElder => self.handle_check_elder(),
            ParsecVote::WorkUnitIncrement => self.handle_work_unit_increment(),
            ParsecVote::CheckRelocate => self.handle_check_relocate(),
            ParsecVote::RefuseCandidate(c) => self.handle_refuse_candidate(c),
            ParsecVote::RelocateResponse(info) => self.handle_relocate_response(info),
            ParsecVote::RelocatedInfo(info) => self.handle_relocated_info(info),
            ParsecVote::Offline(n) => self.handle_offline(n),
            ParsecVote::BackOnline(n) => self.handle_back_online(n),
            ParsecVote::NeighbourMerge(mi) => self.handle_neighbour_merge(mi),
        }
    }

    fn try_local(&mut self, l: LocalEvent) -> (r: TryResult)
        ensures
            (final(self)@, r) == member_local(old(self)@, l),
    {
        match l {
            LocalEvent::TimeoutAccept => {
                self.handle_timeout_accept();
                TryResult::Handled
            },
            LocalEvent::CheckResourceProofTimeout => {
                self.action.inner.vote_parsec(ParsecVote::CheckResourceProof);
                TryResult::Handled
            },
            LocalEvent::TimeoutWorkUnit => {
                self.action.inner.vote_parsec(ParsecVote::WorkUnitIncrement);
                self.action.inner.schedule_event(LocalEvent::TimeoutWorkUnit);
                TryResult::Handled
            },
            LocalEvent::TimeoutCheckElder => {
                self.action.inner.vote_parsec(ParsecVote::CheckElder);
                TryResult::Handled
            },
            LocalEvent::CheckRelocatedNodeConnectionTimeout => {
                self.action.inner.vote_parsec(ParsecVote::CheckRelocatedNodeConnection);
                TryResult::Handled
            },
            LocalEvent::NodeDetectedOffline(n) => {
                self.action.inner.vote_parsec(ParsecVote::Offline(n));
                TryResult::Handled
            },
            LocalEvent::NodeDetectedBackOnline(n) => {
                self.action.inner.vote_parsec(ParsecVote::BackOnline(n));
                TryResult::Handled
            },
            _ => TryResult::Unhandled,
        }
    }
}

impl Action {
    /// Sets what a test event sets.
    pub fn apply_test_event(&mut self, t: TestEvent)
        ensures
            final(self)@ == apply_test_event(old(self)@, t),
    {
        match t {
            TestEvent::SetMergeNeeded(b) => {
                self.inner.merge_needed = b;
            },
            TestEvent::SetSplitNeeded(b) => {
                self.inner.split_needed = b;
            },
            TestEvent::SetShortestPrefix(p) => {
                self.inner.shortest_prefix = p;
            },
            TestEvent::SetWorkUnitEnoughToRelocate(n) => {
                self.inner.set_node_work(n.0.name, WORK_UNITS_TO_RELOCATE);
            },
            TestEvent::SetResourceProof(elder, source) => {
                self.inner.set_resource_proof(elder, source);
            },
        }
    }
}

/// The progress of a resource proof that we send to one elder.
#[derive(Clone, Copy, Debug)]
pub struct ElderProof {
    pub elder: Name,
    /// Parts not sent yet.
    pub remaining: u64,
    /// The last part sent, while its receipt has not come.
    pub awaiting: Option<Proof>,
    /// It was sent since the last resend timeout.
    pub recently_sent: bool,
}

/// The routine of a relocated node that joins its destination section.
#[derive(Clone, Debug)]
pub struct JoiningRelocateCandidateState {
    pub relocated_info: Option<RelocatedInfo>,
    pub connected: bool,
    pub proofs: Vec<ElderProof>,
    /// Set when the section approved us: the routine's result.
    pub routine_complete_output: Option<GenesisPfxInfo>,
}

impl Default for JoiningRelocateCandidateState {
    fn default() -> (r: Self)
        ensures
            r.relocated_info is None,
            !r.connected,
            r.proofs@ == Seq::<ElderProof>::empty(),
            r.routine_complete_output is None,
    {
        JoiningRelocateCandidateState {
            relocated_info: None,
            connected: false,
            proofs: Vec::new(),
            routine_complete_output: None,
        }
    }
}

/// The mathematical value of a `JoiningState`.
pub struct JoiningView {
    pub action: InnerActionView,
    pub failure: Option<Event>,
    pub relocated_info: Option<RelocatedInfo>,
    pub connected: bool,
    pub proofs: Seq<ElderProof>,
    pub routine_complete_output: Option<GenesisPfxInfo>,
}

/// A relocated node joining its new section.
#[derive(Clone, Debug)]
pub struct JoiningState {
    pub action: Action,
    pub failure: Option<Event>,
    pub join_routine: JoiningRelocateCandidateState,
}

impl View for JoiningState {
    type V = JoiningView;

    open spec fn view(&self) -> JoiningView {
        JoiningView {
            action: self.action@,
            failure: self.failure,
            relocated_info: self.join_routine.relocated_info,
            connected: self.join_routine.connected,
            proofs: self.join_routine.proofs@,
            routine_complete_output: self.join_routine.routine_complete_output,
        }
    }
}

impl Default for JoiningState {
    fn default() -> (s: Self)
        ensures
            s@ == (JoiningView {
                action: new_inner_action_view(Attributes { name: 0, age: 0 }),
                failure: None,
                relocated_info: None,
                connected: false,
                proofs: Seq::empty(),
                routine_complete_output: None,
            }),
    {
        JoiningState {
            action: Action::new(
                InnerAction::new_with_our_attributes(Attributes { name: 0, age: 0 }),
            ),
            failure: None,
            join_routine: JoiningRelocateCandidateState::default(),
        }
    }
}

impl JoiningState {
    /// Records `e` as the event that the routine did not handle.
    pub fn failure_event(&mut self, e: Event)
        ensures
            final(self)@ == (JoiningView { failure: Some(e), ..old(self)@ }),
    {
        self.failure = Some(e);
    }

    /// A copy of this state.
    pub fn duplicate(&self) -> (r: JoiningState)
        ensures
            r@ == self@,
    {
        JoiningState {
            action: self.action.duplicate(),
            failure: self.failure,
            join_routine: JoiningRelocateCandidateState {
                relocated_info: self.join_routine.relocated_info,
                connected: self.join_routine.connected,
                proofs: copy_vec(&self.join_routine.proofs),
                routine_complete_output: self.join_routine.routine_complete_output,
            },
        }
    }
}

} // verus!
