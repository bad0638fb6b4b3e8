//! The sections that the scenarios start from: our node 132 (age 32) in section 0,
//! placing its next candidate at 1234, with old elders (130, 131, 132) or young
//! elders (109, 110, 132) and the adult 205; or joining section 200 whose elders are
//! 109, 110 and 111.
use vstd::prelude::*;
use crate::actions::{
    extend_nodes, find_node, has_name, new_inner_action_view, upsert_node, Action, InnerAction, InnerActionView,
};
use crate::seq_tools::lemma_first_index_none;
use crate::state::{
    idle_dst, DstState, ElderChangeState, JoiningRelocateCandidateState, JoiningState, JoiningView, MemberState,
    MemberView,
};
use crate::utilities::{
    default_node_state, Age, Attributes, Candidate, Name, Node, NodeState, RelocatedInfo, Section, SectionInfo,
};

verus! {

/// Where the next relocated candidate is placed in the scenarios.
pub const TARGET_INTERVAL_1: u64 = 1234;

pub open spec fn node_of(name: u64, age: u64) -> Node {
    Node(Attributes { name, age })
}

pub open spec fn elder_state(n: Node) -> NodeState {
    NodeState { node: n, is_elder: true, ..default_node_state() }
}

pub open spec fn adult_state(n: Node) -> NodeState {
    NodeState { node: n, ..default_node_state() }
}

/// Our node, before any node is known.
pub open spec fn our_action_view() -> InnerActionView {
    InnerActionView {
        next_target_interval: Name(TARGET_INTERVAL_1),
        ..new_inner_action_view(Attributes { name: 132, age: 32 })
    }
}

pub open spec fn member_of(action: InnerActionView) -> MemberView {
    MemberView { action, failure: None, dst: idle_dst(), elder_votes: Seq::empty(), elder_pending: Seq::empty() }
}

/// Elders 109, 110 and 132, adult 205.
pub open spec fn young_elders_view() -> MemberView {
    member_of(
        our_action_view().with_nodes(
            seq![
                elder_state(node_of(109, 9)),
                elder_state(node_of(110, 10)),
                elder_state(node_of(132, 32)),
                adult_state(node_of(205, 5)),
            ],
        ),
    )
}

/// Elders 130, 131 and 132, adult 205.
pub open spec fn old_elders_view() -> MemberView {
    member_of(
        our_action_view().with_nodes(
            seq![
                elder_state(node_of(130, 30)),
                elder_state(node_of(131, 31)),
                elder_state(node_of(132, 32)),
                adult_state(node_of(205, 5)),
            ],
        ),
    )
}

/// Joining section 200, whose elders are 109, 110 and 111.
pub open spec fn joining_dst_200_view() -> JoiningView {
    JoiningView {
        action: InnerActionView {
            our_section: SectionInfo(Section(200), 0),
            our_current_nodes: seq![
                elder_state(node_of(109, 9)),
                elder_state(node_of(110, 10)),
                elder_state(node_of(111, 11)),
            ],
            ..our_action_view()
        },
        failure: None,
        relocated_info: None,
        connected: false,
        proofs: Seq::empty(),
        routine_complete_output: None,
    }
}

pub open spec fn from_template(t: NodeState) -> spec_fn(Node) -> NodeState {
    |n: Node| NodeState { node: n, ..t }
}

/// Adding nodes of new, distinct names puts them after the others, in order.
pub proof fn lemma_extend_fresh(cur: Seq<NodeState>, t: NodeState, ns: Seq<Node>)
    requires
        forall|i: int, j: int| 0 <= i < j < ns.len() ==> ns[i].0.name != ns[j].0.name,
        forall|i: int, k: int| 0 <= i < ns.len() && 0 <= k < cur.len() ==> cur[k].node.0.name != ns[i].0.name,
    ensures
        extend_nodes(cur, t, ns) =~= cur + ns.map_values(from_template(t)),
    decreases ns.len(),
{
    if ns.len() > 0 {
        let init = ns.drop_last();
        lemma_extend_fresh(cur, t, init);
        let prev = extend_nodes(cur, t, init);
        let last = ns.last();
        assert forall|k: int| 0 <= k < prev.len() implies !has_name(last.0.name)(prev[k]) by {
            if k >= cur.len() {
                assert(prev[k] == from_template(t)(init[k - cur.len()]));
                assert(init[k - cur.len()] == ns[k - cur.len()]);
            }
        }
        lemma_first_index_none(prev, has_name(last.0.name));
        assert(find_node(prev, last.0.name) is None);
        assert(upsert_node(prev, NodeState { node: last, ..t }) == prev.push(NodeState { node: last, ..t }));
    }
}

fn inner_action_132() -> (r: InnerAction)
    ensures
        r@ == our_action_view(),
{
    InnerAction::new_with_our_attributes(Attributes { name: 132, age: 32 }).with_next_target_interval(
        Name(TARGET_INTERVAL_1),
    )
}

/// Our node with `elders` as elders, then `adult`.
fn inner_action_with(elders: [Node; 3], adult: Node) -> (r: InnerAction)
    requires
        elders[0].0.name != elders[1].0.name,
        elders[0].0.name != elders[2].0.name,
        elders[1].0.name != elders[2].0.name,
        adult.0.name != elders[0].0.name,
        adult.0.name != elders[1].0.name,
        adult.0.name != elders[2].0.name,
    ensures
        r@ == our_action_view().with_nodes(
            seq![elder_state(elders[0]), elder_state(elders[1]), elder_state(elders[2]), adult_state(adult)],
        ),
{
    let elder = NodeState { is_elder: true, ..NodeState::default() };
    let adults = [adult];
    let a = inner_action_132();
    proof {
        lemma_extend_fresh(Seq::empty(), elder, elders@);
        let first = Seq::empty() + elders@.map_values(from_template(elder));
        lemma_extend_fresh(first, default_node_state(), adults@);
    }
    let r = a.extend_current_nodes_with(&elder, &elders).extend_current_nodes_with(&NodeState::default(), &adults);
    assert(r@.our_current_nodes =~= seq![
        elder_state(elders[0]),
        elder_state(elders[1]),
        elder_state(elders[2]),
        adult_state(adult),
    ]);
    r
}

fn member_with(action: InnerAction) -> (s: MemberState)
    ensures
        s@ == member_of(action@),
{
    MemberState {
        action: Action::new(action),
        failure: None,
        dst: DstState::default(),
        elder_change: ElderChangeState { votes: Vec::new(), pending: Vec::new() },
    }
}

/// The member 132 of a section with young elders (109, 110, 132) and the adult 205.
pub fn initial_state_young_elders() -> (s: MemberState)
    ensures
        s@ == young_elders_view(),
{
    let elders = [
        Node(Attributes { name: 109, age: 9 }),
        Node(Attributes { name: 110, age: 10 }),
        Node(Attributes { name: 132, age: 32 }),
    ];
    member_with(inner_action_with(elders, Node(Attributes { name: 205, age: 5 })))
}

/// The member 132 of a section with old elders (130, 131, 132) and the adult 205.
pub fn initial_state_old_elders() -> (s: MemberState)
    ensures
        s@ == old_elders_view(),
{
    let elders = [
        Node(Attributes { name: 130, age: 30 }),
        Node(Attributes { name: 131, age: 31 }),
        Node(Attributes { name: 132, age: 32 }),
    ];
    member_with(inner_action_with(elders, Node(Attributes { name: 205, age: 5 })))
}

/// Our node, relocated to section 200 whose elders are 109, 110 and 111, not started yet.
pub fn initial_joining_state_with_dst_200() -> (s: JoiningState)
    ensures
        s@ == joining_dst_200_view(),
{
    let members = [
        Node(Attributes { name: 109, age: 9 }),
        Node(Attributes { name: 110, age: 10 }),
        Node(Attributes { name: 111, age: 11 }),
    ];
    proof {
        lemma_extend_fresh(Seq::empty(), NodeState { is_elder: true, ..default_node_state() }, members@);
    }
    let action = inner_action_132().with_section_members(SectionInfo(Section(200), 0), &members);
    assert(action@.our_current_nodes =~= seq![
        elder_state(members[0]),
        elder_state(members[1]),
        elder_state(members[2]),
    ]);
    JoiningState {
        action: Action::new(action),
        failure: None,
        join_routine: JoiningRelocateCandidateState {
            relocated_info: None,
            connected: false,
            proofs: Vec::new(),
            routine_complete_output: None,
        },
    }
}

/// What a candidate relocated to `section_info` is told: it will be one year older and
/// placed at the first target interval.
pub fn get_relocated_info(candidate: Candidate, section_info: SectionInfo) -> (r: RelocatedInfo)
    requires
        candidate.0.age < u64::MAX,
    ensures
        r == (RelocatedInfo {
            candidate,
            expected_age: Age((candidate.0.age + 1) as u64),
            target_interval_centre: Name(TARGET_INTERVAL_1),
            section_info,
        }),
{
    RelocatedInfo {
        candidate,
        expected_age: Age(candidate.0.age + 1),
        target_interval_centre: Name(TARGET_INTERVAL_1),
        section_info,
    }
}

} // verus!
