//! The vocabulary of the routing model: node identities, section descriptions and
//! every event that a member or a joining node can receive or produce.
use vstd::prelude::*;

verus! {

/// The name of a node, or a point of the name space (a target interval centre).
#[derive(Clone, Copy, Debug, PartialEq, Eq, Structural)]
pub struct Name(pub u64);

/// The age of a node.
#[derive(Clone, Copy, Debug, PartialEq, Eq, Structural)]
pub struct Age(pub u64);

/// What identifies a node: its name and its age.
#[derive(Clone, Copy, Debug, PartialEq, Eq, Structural)]
pub struct Attributes {
    pub name: u64,
    pub age: u64,
}

impl Attributes {
    pub fn name(&self) -> (n: Name)
        ensures
            n == Name(self.name),
    {
        Name(self.name)
    }

    pub fn age(&self) -> (a: Age)
        ensures
            a == Age(self.age),
    {
        Age(self.age)
    }
}

/// A node that asks to join a section.
#[derive(Clone, Copy, Debug, PartialEq, Eq, Structural)]
pub struct Candidate(pub Attributes);

impl Candidate {
    pub fn name(&self) -> (n: Name)
        ensures
            n == Name(self.0.name),
    {
        Name(self.0.name)
    }
}

/// A node of a section.
#[derive(Clone, Copy, Debug, PartialEq, Eq, Structural)]
pub struct Node(pub Attributes);

impl Node {
    pub fn name(&self) -> (n: Name)
        ensures
            n == Name(self.0.name),
    {
        Name(self.0.name)
    }
}

/// A section, by its prefix.
#[derive(Clone, Copy, Debug, PartialEq, Eq, Structural)]
pub struct Section(pub u64);

/// A section and the version of its membership.
#[derive(Clone, Copy, Debug, PartialEq, Eq, Structural)]
pub struct SectionInfo(pub Section, pub u64);

/// The section information handed to a node that joins.
#[derive(Clone, Copy, Debug, PartialEq, Eq, Structural)]
pub struct GenesisPfxInfo(pub SectionInfo);

/// The challenge sent to a candidate for its resource proof.
#[derive(Clone, Copy, Debug, PartialEq, Eq, Structural)]
pub struct ProofRequest {
    pub value: u64,
}

/// A computed resource proof: the number of parts still to be sent.
#[derive(Clone, Copy, Debug, PartialEq, Eq, Structural)]
pub struct ProofSource(pub u64);

/// One part of a resource proof.
#[derive(Clone, Copy, Debug, PartialEq, Eq, Structural)]
pub enum Proof {
    ValidPart,
    ValidEnd,
    Invalid,
}

/// What a neighbour section tells us when it wants to merge.
#[derive(Clone, Copy, Debug, PartialEq, Eq, Structural)]
pub struct MergeInfo;

/// What a relocated node sends to its destination section.
#[derive(Clone, Copy, Debug, PartialEq, Eq, Structural)]
pub struct CandidateInfo {
    pub old_public_id: Candidate,
    pub new_public_id: Candidate,
    pub destination: Name,
    pub valid: bool,
}

/// What the destination section answers to accept a relocated node.
#[derive(Clone, Copy, Debug, PartialEq, Eq, Structural)]
pub struct RelocatedInfo {
    pub candidate: Candidate,
    pub expected_age: Age,
    pub target_interval_centre: Name,
    pub section_info: SectionInfo,
}

/// The state of a node of our section.
#[derive(Clone, Copy, Debug, PartialEq, Eq, Structural)]
pub enum State {
    /// A relocated candidate was accepted, its CandidateInfo is awaited.
    WaitingCandidateInfo(RelocatedInfo),
    /// A connected candidate waits for its resource proof.
    WaitingProofing,
    /// Being relocated because it did enough work.
    RelocatingAgeIncrease,
    /// Being relocated on to a section with a shorter prefix.
    RelocatingHop,
    /// Being relocated because it came back online.
    RelocatingBackOnline,
    /// Its relocation was agreed, with this information.
    Relocated(RelocatedInfo),
    Online,
    Offline,
}

impl Default for State {
    fn default() -> (s: Self)
        ensures
            s == State::Online,
    {
        State::Online
    }
}

/// What a member keeps about each node of its section.
#[derive(Clone, Copy, Debug, PartialEq, Eq, Structural)]
pub struct NodeState {
    pub node: Node,
    pub work_units_done: u64,
    pub is_elder: bool,
    pub state: State,
    /// `None` while no ExpectCandidate was sent for its relocation (or since it was
    /// refused); else the number of CheckRelocate consensuses since it was sent.
    pub relocation_wait: Option<u64>,
}

pub open spec fn default_node_state() -> NodeState {
    NodeState {
        node: Node(Attributes { name: 0, age: 0 }),
        work_units_done: 0,
        is_elder: false,
        state: State::Online,
        relocation_wait: None,
    }
}

impl Default for NodeState {
    fn default() -> (s: Self)
        ensures
            s == default_node_state(),
    {
        NodeState {
            node: Node(Attributes { name: 0, age: 0 }),
            work_units_done: 0,
            is_elder: false,
            state: State::Online,
            relocation_wait: None,
        }
    }
}

/// Messages between nodes.
#[derive(Clone, Copy, Debug, PartialEq, Eq, Structural)]
pub enum Rpc {
    ExpectCandidate(Candidate),
    RefuseCandidate(Candidate),
    RelocateResponse(RelocatedInfo),
    RelocatedInfo(RelocatedInfo),
    CandidateInfo(CandidateInfo),
    ConnectionInfoRequest { source: Name, destination: Name, connection_info: u64 },
    ConnectionInfoResponse { source: Name, destination: Name, connection_info: u64 },
    NodeConnected(Candidate, GenesisPfxInfo),
    NodeApproval(Candidate, GenesisPfxInfo),
    ResourceProof { candidate: Candidate, source: Name, proof: ProofRequest },
    ResourceProofResponse { candidate: Candidate, destination: Name, proof: Proof },
    ResourceProofReceipt { candidate: Candidate, source: Name },
    Merge,
    Split,
}

/// What the elders of a section vote for, and reach consensus on.
#[derive(Clone, Copy, Debug, PartialEq, Eq, Structural)]
pub enum ParsecVote {
    ExpectCandidate(Candidate),
    Online(Candidate),
    PurgeCandidate(Candidate),
    CandidateConnected(CandidateInfo),
    AddElderNode(Node),
    RemoveElderNode(Node),
    NewSectionInfo(SectionInfo),
    WorkUnitIncrement,
    CheckRelocate,
    RefuseCandidate(Candidate),
    RelocateResponse(RelocatedInfo),
    RelocatedInfo(RelocatedInfo),
    CheckResourceProof,
    CheckElder,
    Offline(Node),
    BackOnline(Node),
    NeighbourMerge(MergeInfo),
    CheckRelocatedNodeConnection,
}

/// Timers and local detections.
#[derive(Clone, Copy, Debug, PartialEq, Eq, Structural)]
pub enum LocalEvent {
    TimeoutAccept,
    CheckResourceProofTimeout,
    TimeoutWorkUnit,
    TimeoutCheckElder,
    JoiningTimeoutResendInfo,
    JoiningTimeoutConnectRefused,
    JoiningTimeoutProofRefused,
    ResourceProofForElderReady(Name),
    NodeDetectedOffline(Node),
    NodeDetectedBackOnline(Node),
    CheckRelocatedNodeConnectionTimeout,
}

/// Work that the node hands to its environment, besides RPCs and votes.
#[derive(Clone, Copy, Debug, PartialEq, Eq, Structural)]
pub enum ActionTriggered {
    WorkUnitIncremented,
    MergeInfoStored(MergeInfo),
    NotYetImplementedErrorTriggered,
    OurSectionChanged(SectionInfo),
    Scheduled(LocalEvent),
    Killed(LocalEvent),
    ComputeResourceProofForElder(Name),
    UnexpectedEventErrorTriggered,
}

/// A change made to the nodes of our section.
#[derive(Clone, Copy, Debug, PartialEq, Eq, Structural)]
pub enum NodeChange {
    AddWithState(Node, State),
    ReplaceWith(Name, Node, State),
    State(Node, State),
    Remove(Name),
    Elder(Node, bool),
}

/// Events that set what the model otherwise learns from its environment.
#[derive(Clone, Copy, Debug, PartialEq, Eq, Structural)]
pub enum TestEvent {
    SetMergeNeeded(bool),
    SetSplitNeeded(bool),
    SetShortestPrefix(Option<Section>),
    SetWorkUnitEnoughToRelocate(Node),
    SetResourceProof(Name, ProofSource),
}

/// Everything a node receives, and everything it records as done.
#[derive(Clone, Copy, Debug, PartialEq, Eq, Structural)]
pub enum Event {
    Rpc(Rpc),
    ParsecConsensus(ParsecVote),
    LocalEvent(LocalEvent),
    ActionTriggered(ActionTriggered),
    NodeChange(NodeChange),
    TestEvent(TestEvent),
}

/// Whether a state machine knew what to do with an event.
#[derive(Clone, Copy, Debug, PartialEq, Eq, Structural)]
pub enum TryResult {
    Handled,
    Unhandled,
}

impl Rpc {
    pub fn to_event(self) -> (e: Event)
        ensures
            e == Event::Rpc(self),
    {
        Event::Rpc(self)
    }
}

impl ParsecVote {
    pub fn to_event(self) -> (e: Event)
        ensures
            e == Event::ParsecConsensus(self),
    {
        Event::ParsecConsensus(self)
    }
}

impl LocalEvent {
    pub fn to_event(self) -> (e: Event)
        ensures
            e == Event::LocalEvent(self),
    {
        Event::LocalEvent(self)
    }
}

impl ActionTriggered {
    pub fn to_event(self) -> (e: Event)
        ensures
            e == Event::ActionTriggered(self),
    {
        Event::ActionTriggered(self)
    }
}

impl NodeChange {
    pub fn to_event(self) -> (e: Event)
        ensures
            e == Event::NodeChange(self),
    {
        Event::NodeChange(self)
    }
}

impl TestEvent {
    pub fn to_event(self) -> (e: Event)
        ensures
            e == Event::TestEvent(self),
    {
        Event::TestEvent(self)
    }
}

} // verus!
