//! What every step keeps: the record of what was done only grows at its end, and
//! no two nodes of the section share a name.
use vstd::prelude::*;
use crate::actions::{
    find_node, has_name, names_unique, remove_node, set_node_elder, set_node_state, set_node_work, upsert_node,
    InnerActionView,
};
use crate::flows_elder::{apply_elder_votes, emit_votes};
use crate::flows_node::{joining_step, resend_proofs};
use crate::scenarios::{joining_after, member_after, process_joining, process_member};
use crate::seq_tools::{lemma_first_index_exists, lemma_first_index_some};
use crate::state::{apply_test_event, member_step, JoiningView, MemberView};
use crate::utilities::{Event, NodeState, ParsecVote, TestEvent};

verus! {

/// `new` is `old` with events added at the end.
pub open spec fn record_grows(old: Seq<Event>, new: Seq<Event>) -> bool {
    old.len() <= new.len() && forall|i: int| 0 <= i < old.len() ==> new[i] == old[i]
}

/// Nodes with the same names, position by position.
pub open spec fn same_names(a: Seq<NodeState>, b: Seq<NodeState>) -> bool {
    a.len() == b.len() && forall|i: int| 0 <= i < a.len() ==> #[trigger] a[i].node.0.name == b[i].node.0.name
}

proof fn lemma_same_names_unique(a: Seq<NodeState>, b: Seq<NodeState>)
    requires
        same_names(a, b),
        names_unique(a),
    ensures
        names_unique(b),
{
    assert forall|i: int, j: int| 0 <= i < j < b.len() implies #[trigger] b[i].node.0.name
        != #[trigger] b[j].node.0.name by {
        assert(a[i].node.0.name == b[i].node.0.name);
        assert(a[j].node.0.name == b[j].node.0.name);
    }
}

/// No node is called `name` where `find_node` finds none.
proof fn lemma_find_none(nodes: Seq<NodeState>, name: u64)
    requires
        find_node(nodes, name) is None,
    ensures
        forall|j: int| 0 <= j < nodes.len() ==> nodes[j].node.0.name != name,
{
    assert forall|j: int| 0 <= j < nodes.len() implies nodes[j].node.0.name != name by {
        if nodes[j].node.0.name == name {
            assert(has_name(name)(nodes[j]));
            lemma_first_index_exists(nodes, has_name(name), j);
        }
    }
}

proof fn lemma_find_some(nodes: Seq<NodeState>, name: u64)
    requires
        find_node(nodes, name) is Some,
    ensures
        0 <= find_node(nodes, name)->0 < nodes.len(),
        nodes[find_node(nodes, name)->0].node.0.name == name,
{
    lemma_first_index_some(nodes, has_name(name));
}

proof fn lemma_upsert_unique(nodes: Seq<NodeState>, ns: NodeState)
    requires
        names_unique(nodes),
    ensures
        names_unique(upsert_node(nodes, ns)),
{
    match find_node(nodes, ns.node.0.name) {
        Some(i) => {
            lemma_find_some(nodes, ns.node.0.name);
            lemma_same_names_unique(nodes, nodes.update(i, ns));
        },
        None => {
            lemma_find_none(nodes, ns.node.0.name);
            let r = nodes.push(ns);
            assert forall|i: int, j: int| 0 <= i < j < r.len() implies #[trigger] r[i].node.0.name
                != #[trigger] r[j].node.0.name by {
                if j == nodes.len() {
                    assert(nodes[i].node.0.name != ns.node.0.name);
                } else {
                    assert(nodes[i].node.0.name != nodes[j].node.0.name);
                }
            }
        },
    }
}

proof fn lemma_remove_at_unique(nodes: Seq<NodeState>, k: int)
    requires
        names_unique(nodes),
        0 <= k < nodes.len(),
    ensures
        names_unique(nodes.remove(k)),
{
    let r = nodes.remove(k);
    assert forall|i: int, j: int| 0 <= i < j < r.len() implies #[trigger] r[i].node.0.name
        != #[trigger] r[j].node.0.name by {
        let i2 = if i < k { i } else { i + 1 };
        let j2 = if j < k { j } else { j + 1 };
        assert(r[i] == nodes[i2]);
        assert(r[j] == nodes[j2]);
        assert(nodes[i2].node.0.name != nodes[j2].node.0.name);
    }
}

proof fn lemma_remove_node_unique(nodes: Seq<NodeState>, name: u64)
    requires
        names_unique(nodes),
    ensures
        names_unique(remove_node(nodes, name)),
{
    if let Some(i) = find_node(nodes, name) {
        lemma_find_some(nodes, name);
        lemma_remove_at_unique(nodes, i);
    }
}

/// Setting a field other than the node keeps the names.
proof fn lemma_set_fields_keep_names(nodes: Seq<NodeState>, name: u64, st: crate::utilities::State, b: bool, w: u64)
    ensures
        same_names(nodes, set_node_state(nodes, name, st)),
        same_names(nodes, set_node_elder(nodes, name, b)),
        same_names(nodes, set_node_work(nodes, name, w)),
{
    if let Some(i) = find_node(nodes, name) {
        lemma_find_some(nodes, name);
    }
}

/// Setting an elder flag keeps the names unique.
pub proof fn lemma_member_names_after_flag(nodes: Seq<NodeState>, name: u64, b: bool)
    requires
        names_unique(nodes),
    ensures
        names_unique(set_node_elder(nodes, name, b)),
{
    lemma_set_fields_keep_names(nodes, name, crate::utilities::State::Online, b, 0);
    lemma_same_names_unique(nodes, set_node_elder(nodes, name, b));
}

proof fn lemma_emit_votes(a: InnerActionView, votes: Seq<ParsecVote>)
    ensures
        record_grows(a.our_events, emit_votes(a, votes).our_events),
        emit_votes(a, votes).our_current_nodes == a.our_current_nodes,
    decreases votes.len(),
{
    if votes.len() > 0 {
        lemma_emit_votes(a, votes.drop_last());
    }
}

pub proof fn lemma_apply_elder_votes(a: InnerActionView, votes: Seq<ParsecVote>)
    ensures
        record_grows(a.our_events, apply_elder_votes(a, votes).our_events),
        same_names(a.our_current_nodes, apply_elder_votes(a, votes).our_current_nodes),
    decreases votes.len(),
{
    if votes.len() > 0 {
        lemma_apply_elder_votes(a, votes.drop_last());
        let prev = apply_elder_votes(a, votes.drop_last());
        match votes.last() {
            ParsecVote::AddElderNode(n) => lemma_set_fields_keep_names(prev.our_current_nodes, n.0.name, crate::utilities::State::Online, true, 0),
            ParsecVote::RemoveElderNode(n) => lemma_set_fields_keep_names(prev.our_current_nodes, n.0.name, crate::utilities::State::Online, false, 0),
            _ => {},
        }
    }
}

proof fn lemma_resend_proofs(a: InnerActionView, ps: Seq<crate::state::ElderProof>)
    ensures
        record_grows(a.our_events, resend_proofs(a, ps).0.our_events),
        resend_proofs(a, ps).0.our_current_nodes == a.our_current_nodes,
    decreases ps.len(),
{
    if ps.len() > 0 {
        lemma_resend_proofs(a, ps.drop_last());
    }
}

proof fn lemma_test_event(a: InnerActionView, t: TestEvent)
    ensures
        apply_test_event(a, t).our_events == a.our_events,
        same_names(a.our_current_nodes, apply_test_event(a, t).our_current_nodes),
{
    match t {
        TestEvent::SetWorkUnitEnoughToRelocate(n) => lemma_set_fields_keep_names(
            a.our_current_nodes,
            n.0.name,
            crate::utilities::State::Online,
            false,
            crate::state::WORK_UNITS_TO_RELOCATE,
        ),
        _ => {},
    }
}

/// A step of a member only adds to the record of what it did.
pub proof fn lemma_member_step_keeps_record(s: MemberView, e: Event)
    ensures
        record_grows(s.action.our_events, member_step(s, e).0.action.our_events),
{
    reveal(member_step);
    match e {
        Event::ParsecConsensus(v) => {
            match v {
                ParsecVote::CheckElder => {
                    let a = s.action;
                    let chosen = crate::flows_elder::new_elders(a.our_current_nodes);
                    let changes = crate::flows_elder::elder_adds(a.our_current_nodes, chosen)
                        + crate::flows_elder::elder_removes(a.our_current_nodes, chosen);
                    let votes = changes.push(ParsecVote::NewSectionInfo(crate::flows_elder::next_section_info(a)));
                    lemma_emit_votes(a, votes);
                },
                ParsecVote::AddElderNode(_) | ParsecVote::RemoveElderNode(_) | ParsecVote::NewSectionInfo(_) => {
                    lemma_apply_elder_votes(s.action, s.elder_votes);
                },
                _ => {},
            }
        },
        Event::TestEvent(t) => lemma_test_event(s.action, t),
        _ => {},
    }
}

/// A step of a joining node only adds to the record of what it did.
pub proof fn lemma_joining_step_keeps_record(s: JoiningView, e: Event)
    ensures
        record_grows(s.action.our_events, joining_step(s, e).0.action.our_events),
{
    reveal(joining_step);
    lemma_resend_proofs(s.action, s.proofs);
    if let Event::TestEvent(t) = e {
        lemma_test_event(s.action, t);
    }
}

/// A step of a member keeps the names of the section's nodes unique.
pub proof fn lemma_member_step_keeps_names_unique(s: MemberView, e: Event)
    requires
        s.action.wf(),
    ensures
        member_step(s, e).0.action.wf(),
{
    reveal(member_step);
    let nodes = s.action.our_current_nodes;
    match e {
        Event::ParsecConsensus(v) => {
            match v {
                ParsecVote::ExpectCandidate(c) => {
                    let a = s.action;
                    let ns = NodeState {
                        node: crate::flows_dst::accepted_node(a, c),
                        work_units_done: 0,
                        is_elder: false,
                        state: crate::utilities::State::WaitingCandidateInfo(crate::flows_dst::accepted_info(a, c)),
                        relocation_wait: None,
                    };
                    lemma_upsert_unique(nodes, ns);
                },
                ParsecVote::CandidateConnected(ci) => {
                    if let Some(info) = crate::flows_dst::waiting_info(s) {
                        let old_name = s.dst.current->0;
                        let state = if s.action.shortest_prefix is Some {
                            crate::utilities::State::RelocatingHop
                        } else {
                            crate::utilities::State::WaitingProofing
                        };
                        let ns = NodeState {
                            node: crate::utilities::Node(ci.new_public_id.0),
                            work_units_done: 0,
                            is_elder: false,
                            state,
                            relocation_wait: None,
                        };
                        lemma_remove_node_unique(nodes, old_name.0);
                        lemma_upsert_unique(remove_node(nodes, old_name.0), ns);
                    }
                },
                ParsecVote::Online(c) => {
                    if crate::flows_dst::is_proofing_candidate(s, c) {
                        let node = nodes[crate::flows_dst::proofing_index(s)->0].node;
                        lemma_set_fields_keep_names(nodes, node.0.name, crate::utilities::State::Online, false, 0);
                        lemma_same_names_unique(nodes, set_node_state(nodes, node.0.name, crate::utilities::State::Online));
                    }
                },
                ParsecVote::PurgeCandidate(c) => {
                    if crate::flows_dst::is_proofing_candidate(s, c) {
                        let node = nodes[crate::flows_dst::proofing_index(s)->0].node;
                        lemma_remove_node_unique(nodes, node.0.name);
                    }
                },
                ParsecVote::CheckRelocatedNodeConnection => {
                    if s.dst.current is Some {
                        lemma_remove_node_unique(nodes, (s.dst.current->0).0);
                    }
                },
                ParsecVote::AddElderNode(_) | ParsecVote::RemoveElderNode(_) | ParsecVote::NewSectionInfo(_) => {
                    lemma_apply_elder_votes(s.action, s.elder_votes);
                    lemma_same_names_unique(nodes, apply_elder_votes(s.action, s.elder_votes).our_current_nodes);
                },
                ParsecVote::CheckElder => {
                    let a = s.action;
                    let chosen = crate::flows_elder::new_elders(a.our_current_nodes);
                    let changes = crate::flows_elder::elder_adds(a.our_current_nodes, chosen)
                        + crate::flows_elder::elder_removes(a.our_current_nodes, chosen);
                    let votes = changes.push(ParsecVote::NewSectionInfo(crate::flows_elder::next_section_info(a)));
                    lemma_emit_votes(a, votes);
                },
                ParsecVote::WorkUnitIncrement => {
                    let bumped = nodes.map_values(|ns: NodeState| crate::flows_src::bump_work(ns));
                    assert(same_names(nodes, bumped));
                    lemma_same_names_unique(nodes, bumped);
                    lemma_same_names_unique(nodes, crate::flows_src::on_work_unit_increment(s).action.our_current_nodes);
                },
                ParsecVote::CheckRelocate => {
                    let bumped = nodes.map_values(|ns: NodeState| crate::flows_src::bump_wait(ns));
                    assert(same_names(nodes, bumped));
                    lemma_same_names_unique(nodes, crate::flows_src::on_check_relocate(s).action.our_current_nodes);
                },
                ParsecVote::RefuseCandidate(c) => {
                    lemma_same_names_unique(nodes, crate::flows_src::on_refuse_candidate(s, c).action.our_current_nodes);
                },
                ParsecVote::RelocateResponse(info) => {
                    lemma_same_names_unique(nodes, crate::flows_src::on_relocate_response(s, info).action.our_current_nodes);
                },
                ParsecVote::RelocatedInfo(info) => {
                    let q = crate::flows_src::query(crate::flows_src::NodeQuery::RelocatedWith(info));
                    if let Some(i) = crate::seq_tools::first_index(nodes, q) {
                        lemma_first_index_some(nodes, q);
                        lemma_remove_at_unique(nodes, i);
                    }
                },
                ParsecVote::Offline(n) => {
                    lemma_set_fields_keep_names(nodes, n.0.name, crate::utilities::State::Offline, false, 0);
                    lemma_same_names_unique(nodes, crate::flows_elder::on_offline(s, n).action.our_current_nodes);
                },
                ParsecVote::BackOnline(n) => {
                    lemma_same_names_unique(nodes, crate::flows_elder::on_back_online(s, n).action.our_current_nodes);
                },
                _ => {},
            }
        },
        Event::TestEvent(t) => {
            lemma_test_event(s.action, t);
            lemma_same_names_unique(nodes, apply_test_event(s.action, t).our_current_nodes);
        },
        _ => {},
    }
}

/// A step of a joining node keeps the names of the section's nodes unique.
pub proof fn lemma_joining_step_keeps_names_unique(s: JoiningView, e: Event)
    requires
        s.action.wf(),
    ensures
        joining_step(s, e).0.action.wf(),
{
    reveal(joining_step);
    lemma_resend_proofs(s.action, s.proofs);
    if let Event::TestEvent(t) = e {
        lemma_test_event(s.action, t);
        lemma_same_names_unique(s.action.our_current_nodes, apply_test_event(s.action, t).our_current_nodes);
    }
}

/// Through any list of events a member keeps its node names unique, and its record of
/// what was done only grows.
pub proof fn lemma_process_member_keeps_invariants(s: MemberView, events: Seq<Event>)
    requires
        s.action.wf(),
    ensures
        process_member(s, events).action.wf(),
        record_grows(s.action.our_events, process_member(s, events).action.our_events),
    decreases events.len(),
{
    if events.len() > 0 {
        lemma_member_step_keeps_names_unique(s, events[0]);
        lemma_member_step_keeps_record(s, events[0]);
        let s1 = member_after(s, events[0]);
        if s1.failure is None {
            lemma_process_member_keeps_invariants(s1, events.drop_first());
        }
    }
}

/// Through any list of events a joining node keeps its node names unique, and its
/// record of what was done only grows.
pub proof fn lemma_process_joining_keeps_invariants(s: JoiningView, events: Seq<Event>)
    requires
        s.action.wf(),
    ensures
        process_joining(s, events).action.wf(),
        record_grows(s.action.our_events, process_joining(s, events).action.our_events),
    decreases events.len(),
{
    if events.len() > 0 {
        lemma_joining_step_keeps_names_unique(s, events[0]);
        lemma_joining_step_keeps_record(s, events[0]);
        let s1 = joining_after(s, events[0]);
        if s1.failure is None {
            lemma_process_joining_keeps_invariants(s1, events.drop_first());
        }
    }
}

/// The starting sections of the scenarios have unique node names.
pub proof fn lemma_fixtures_have_unique_names()
    ensures
        crate::fixtures::young_elders_view().action.wf(),
        crate::fixtures::old_elders_view().action.wf(),
        crate::fixtures::joining_dst_200_view().action.wf(),
{
}

} // verus!
