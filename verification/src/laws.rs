//! What holds of the state machines for every input: how the driver composes, that
//! the record of what was done only grows, that node names stay unique, and the
//! rules that the routines keep whatever the state.
use vstd::prelude::*;
use crate::flows_dst::{
    candidate_in_progress, expected_candidate_info, is_proofing_candidate, on_candidate_info, on_expect_candidate,
    on_online, on_proof_response, on_purge, waiting_info,
};
use crate::actions::{find_node, has_name, names_unique, set_node_elder, InnerActionView};
use crate::flows_elder::{
    apply_elder_vote, apply_elder_votes, elder_adds, elder_candidate_pred, elder_choice, elder_key, elder_key_fn,
    elder_removes, new_elders, next_section_info, on_elder_vote, vote_is,
};
use crate::flows_node::{joining_step, on_receipt, our_candidate, find_elder_proof};
use crate::flows_src::{
    bump_wait, on_check_relocate, on_refuse_candidate, on_work_unit_increment, query, ready_pred, ready_to_send,
    relocation_key, relocation_key_fn, NodeQuery,
};
use crate::scenarios::{joining_after, member_after, process_joining, process_member};
use crate::seq_tools::{best_index, first_index, lemma_best_index_exists, lemma_best_index_some, lemma_first_index_some};
use crate::state::{member_step, JoiningView, MemberView, ELDER_SIZE};
use crate::utilities::{
    ActionTriggered, Candidate, CandidateInfo, Event, GenesisPfxInfo, Name, NodeState, ParsecVote, Proof, RelocatedInfo,
    Rpc, State, TryResult,
};

verus! {

/// Processing `a` and then `b` is processing `a + b`: the driver keeps nothing between
/// events, and once a failure is recorded no further event is taken.
pub proof fn lemma_process_member_append(s: MemberView, a: Seq<Event>, b: Seq<Event>)
    requires
        a.len() > 0 || s.failure is None,
    ensures
        process_member(s, a + b) == (if process_member(s, a).failure is Some {
            process_member(s, a)
        } else {
            process_member(process_member(s, a), b)
        }),
    decreases a.len(),
{
    if a.len() == 0 {
        assert(a + b =~= b);
    } else {
        assert((a + b)[0] == a[0]);
        assert((a + b).drop_first() =~= a.drop_first() + b);
        let s1 = member_after(s, a[0]);
        if s1.failure is None {
            lemma_process_member_append(s1, a.drop_first(), b);
        }
    }
}

/// Processing `a` and then `b` is processing `a + b`, for a joining node.
pub proof fn lemma_process_joining_append(s: JoiningView, a: Seq<Event>, b: Seq<Event>)
    requires
        a.len() > 0 || s.failure is None,
    ensures
        process_joining(s, a + b) == (if process_joining(s, a).failure is Some {
            process_joining(s, a)
        } else {
            process_joining(process_joining(s, a), b)
        }),
    decreases a.len(),
{
    if a.len() == 0 {
        assert(a + b =~= b);
    } else {
        assert((a + b)[0] == a[0]);
        assert((a + b).drop_first() =~= a.drop_first() + b);
        let s1 = joining_after(s, a[0]);
        if s1.failure is None {
            lemma_process_joining_append(s1, a.drop_first(), b);
        }
    }
}

/// An event that no routine handles changes nothing but the failure.
pub proof fn lemma_member_unhandled_changes_nothing(s: MemberView, e: Event)
    ensures
        member_step(s, e).1 == TryResult::Unhandled ==> member_step(s, e).0 == s,
        member_step(s, e).1 == TryResult::Unhandled ==> member_after(s, e) == (MemberView { failure: Some(e), ..s }),
{
    reveal(member_step);
}

/// An event that the joining routine does not handle changes nothing but the failure.
pub proof fn lemma_joining_unhandled_changes_nothing(s: JoiningView, e: Event)
    ensures
        joining_step(s, e).1 == TryResult::Unhandled ==> joining_step(s, e).0 == s,
        joining_step(s, e).1 == TryResult::Unhandled ==> joining_after(s, e) == (JoiningView { failure: Some(e), ..s }),
{
    reveal(joining_step);
}

/// Consensus on ExpectCandidate while another candidate is processed refuses it and
/// changes nothing else.
pub proof fn lemma_one_candidate_at_a_time(s: MemberView, c: Candidate)
    requires
        candidate_in_progress(s),
        !(waiting_info(s) is Some && waiting_info(s)->0.candidate == c),
    ensures
        on_expect_candidate(s, c) == s.with_action(s.action.emit(Event::Rpc(Rpc::RefuseCandidate(c)))),
{
}

/// Consensus on ExpectCandidate for the candidate whose CandidateInfo we wait for sends
/// it the same RelocateResponse again and changes nothing else.
pub proof fn lemma_expect_candidate_again(s: MemberView, c: Candidate)
    requires
        waiting_info(s) is Some,
        waiting_info(s)->0.candidate == c,
    ensures
        on_expect_candidate(s, c) == s.with_action(
            s.action.emit(Event::Rpc(Rpc::RelocateResponse(waiting_info(s)->0))),
        ),
{
}

/// While a node relocates for its work, WorkUnitIncrement starts no other relocation:
/// every node keeps its state.
pub proof fn lemma_one_age_increase_at_a_time(s: MemberView)
    requires
        first_index(s.action.our_current_nodes, query(NodeQuery::AgeIncreaseStarted)) is Some,
    ensures
        on_work_unit_increment(s).action.our_current_nodes.len() == s.action.our_current_nodes.len(),
        forall|i: int|
            0 <= i < s.action.our_current_nodes.len() ==> (#[trigger] on_work_unit_increment(
                s,
            ).action.our_current_nodes[i]).state == s.action.our_current_nodes[i].state,
        on_work_unit_increment(s).action.our_events == s.action.our_events.push(
            Event::ActionTriggered(ActionTriggered::WorkUnitIncremented),
        ),
{
    let nodes = s.action.our_current_nodes.map_values(|ns: crate::utilities::NodeState| crate::flows_src::bump_work(ns));
    let p = query(NodeQuery::AgeIncreaseStarted);
    lemma_first_index_some(s.action.our_current_nodes, p);
    let k = first_index(s.action.our_current_nodes, p)->0;
    assert(p(nodes[k]));
    crate::seq_tools::lemma_first_index_exists(nodes, p, k);
}

/// A vote of an elder change that we did not cast, or that is agreed already, is an
/// error and changes nothing else.
pub proof fn lemma_unexpected_elder_vote(s: MemberView, v: ParsecVote)
    requires
        s.elder_votes.len() == 0 || first_index(s.elder_pending, vote_is(v)) is None,
    ensures
        on_elder_vote(s, v) == s.with_action(
            s.action.emit(Event::ActionTriggered(ActionTriggered::UnexpectedEventErrorTriggered)),
        ),
{
}

/// Online and PurgeCandidate for a candidate other than the one whose proof is awaited
/// change nothing.
pub proof fn lemma_votes_for_other_candidates_ignored(s: MemberView, c: Candidate)
    requires
        !is_proofing_candidate(s, c),
    ensures
        on_online(s, c) == s,
        on_purge(s, c) == s,
{
}

/// Of Online and PurgeCandidate for the same candidate, only the first agreed counts.
pub proof fn lemma_first_of_online_and_purge_counts(s: MemberView, c: Candidate)
    requires
        is_proofing_candidate(s, c),
    ensures
        on_purge(on_online(s, c), c) == on_online(s, c),
        on_online(on_purge(s, c), c) == on_purge(s, c),
{
}

/// Invalid proof parts are discarded.
pub proof fn lemma_invalid_proof_discarded(s: MemberView, candidate: Candidate, destination: Name)
    ensures
        on_proof_response(s, candidate, destination, Proof::Invalid) == s,
{
}

/// A NodeApproval for us completes the joining routine with the section information
/// it carries, and nothing is sent.
pub proof fn lemma_approval_completes_joining(s: JoiningView, g: GenesisPfxInfo)
    ensures
        joining_step(s, Event::Rpc(Rpc::NodeApproval(our_candidate(s.action), g))) == (
            JoiningView { routine_complete_output: Some(g), ..s },
            TryResult::Handled,
        ),
{
    reveal(joining_step);
}

/// Once the last part of a proof is sent, a receipt sends nothing more.
pub proof fn lemma_nothing_after_last_part(s: JoiningView, elder: Name)
    requires
        find_elder_proof(s.proofs, elder) is Some,
        s.proofs[find_elder_proof(s.proofs, elder)->0].remaining == 0,
    ensures
        on_receipt(s, elder).action == s.action,
{
}

/// The name of an online node that no unchosen online node outranks.
pub open spec fn outranks_unchosen(nodes: Seq<NodeState>, chosen: Seq<u64>, name: u64) -> bool {
    exists|i: int|
        #![trigger nodes[i]]
        0 <= i < nodes.len() && nodes[i].node.0.name == name && nodes[i].state == State::Online && forall|j: int|
            0 <= j < nodes.len() && nodes[j].state == State::Online && !chosen.contains(nodes[j].node.0.name)
                ==> elder_key(nodes[j]) <= elder_key(nodes[i])
}

/// The first `k` choices of elders are at most `k` distinct online nodes, each ranked
/// (by age, then name) at least as high as every online node not chosen; fewer than
/// `k` only where every online node is chosen.
pub proof fn lemma_elder_choice(nodes: Seq<NodeState>, k: nat)
    ensures
        elder_choice(nodes, k).len() <= k,
        forall|m: int, n: int|
            0 <= m < n < elder_choice(nodes, k).len() ==> elder_choice(nodes, k)[m] != elder_choice(nodes, k)[n],
        forall|m: int|
            0 <= m < elder_choice(nodes, k).len() ==> outranks_unchosen(
                nodes,
                elder_choice(nodes, k),
                #[trigger] elder_choice(nodes, k)[m],
            ),
        elder_choice(nodes, k).len() < k ==> forall|j: int|
            0 <= j < nodes.len() && nodes[j].state == State::Online ==> elder_choice(nodes, k).contains(
                #[trigger] nodes[j].node.0.name,
            ),
    decreases k,
{
    if k > 0 {
        let prev = elder_choice(nodes, (k - 1) as nat);
        lemma_elder_choice(nodes, (k - 1) as nat);
        let r = elder_choice(nodes, k);
        let p = elder_candidate_pred(prev);
        let key = elder_key_fn();
        match best_index(nodes, p, key) {
            Some(b) => {
                lemma_best_index_some(nodes, p, key);
                assert(r == prev.push(nodes[b].node.0.name));
                assert forall|m: int| 0 <= m < r.len() implies outranks_unchosen(nodes, r, #[trigger] r[m]) by {
                    if m < prev.len() {
                        assert(r[m] == prev[m]);
                        assert(outranks_unchosen(nodes, prev, prev[m]));
                        let i = choose|i: int|
                            #![trigger nodes[i]]
                            0 <= i < nodes.len() && nodes[i].node.0.name == prev[m] && nodes[i].state == State::Online
                                && forall|j: int|
                                0 <= j < nodes.len() && nodes[j].state == State::Online && !prev.contains(
                                    nodes[j].node.0.name,
                                ) ==> elder_key(nodes[j]) <= elder_key(nodes[i]);
                        assert forall|j: int|
                            0 <= j < nodes.len() && nodes[j].state == State::Online && !r.contains(
                                nodes[j].node.0.name,
                            ) implies elder_key(nodes[j]) <= elder_key(nodes[i]) by {
                            if prev.contains(nodes[j].node.0.name) {
                                let t = choose|t: int| 0 <= t < prev.len() && prev[t] == nodes[j].node.0.name;
                                assert(r[t] == prev[t]);
                            }
                        }
                    } else {
                        assert forall|j: int|
                            0 <= j < nodes.len() && nodes[j].state == State::Online && !r.contains(
                                nodes[j].node.0.name,
                            ) implies elder_key(nodes[j]) <= elder_key(nodes[b]) by {
                            if prev.contains(nodes[j].node.0.name) {
                                let t = choose|t: int| 0 <= t < prev.len() && prev[t] == nodes[j].node.0.name;
                                assert(r[t] == prev[t]);
                            }
                            assert(p(nodes[j]));
                        }
                    }
                }
                assert forall|m: int, n: int| 0 <= m < n < r.len() implies r[m] != r[n] by {
                    if n == prev.len() {
                        assert(!prev.contains(nodes[b].node.0.name));
                        assert(prev[m] == r[m]);
                    }
                }
                if r.len() < k {
                    assert forall|j: int| 0 <= j < nodes.len() && nodes[j].state == State::Online implies r.contains(
                        #[trigger] nodes[j].node.0.name,
                    ) by {
                        assert(prev.contains(nodes[j].node.0.name));
                        let t = choose|t: int| 0 <= t < prev.len() && prev[t] == nodes[j].node.0.name;
                        assert(r[t] == prev[t]);
                    }
                }
            },
            None => {
                assert(r == prev);
                assert forall|j: int| 0 <= j < nodes.len() && nodes[j].state == State::Online implies r.contains(
                    #[trigger] nodes[j].node.0.name,
                ) by {
                    if !prev.contains(nodes[j].node.0.name) {
                        assert(p(nodes[j]));
                        lemma_best_index_exists(nodes, p, key, j);
                    }
                }
            },
        }
    }
}

/// The nodes that CheckElder makes the elders: at most `ELDER_SIZE` distinct online
/// nodes, none outranked by an online node left out, and all online nodes where there
/// are fewer.
pub proof fn lemma_new_elders_are_the_oldest_online(nodes: Seq<NodeState>)
    ensures
        new_elders(nodes).len() <= ELDER_SIZE,
        forall|m: int, n: int| 0 <= m < n < new_elders(nodes).len() ==> new_elders(nodes)[m] != new_elders(nodes)[n],
        forall|m: int|
            0 <= m < new_elders(nodes).len() ==> outranks_unchosen(nodes, new_elders(nodes), #[trigger] new_elders(nodes)[m]),
        new_elders(nodes).len() < ELDER_SIZE ==> forall|j: int|
            0 <= j < nodes.len() && nodes[j].state == State::Online ==> new_elders(nodes).contains(
                #[trigger] nodes[j].node.0.name,
            ),
{
    lemma_elder_choice(nodes, ELDER_SIZE as nat);
}

/// A CandidateInfo is discarded unless we wait for the CandidateInfo of its candidate.
pub proof fn lemma_candidate_info_only_when_awaited(s: MemberView, ci: CandidateInfo)
    requires
        waiting_info(s) is None || !expected_candidate_info(waiting_info(s)->0, ci),
    ensures
        on_candidate_info(s, ci) == s,
{
}

/// Once we voted the candidate online, further proof parts are discarded.
pub proof fn lemma_no_proof_after_online_vote(s: MemberView, candidate: Candidate, destination: Name, part: Proof)
    requires
        s.dst.voted_online,
    ensures
        on_proof_response(s, candidate, destination, part) == s,
{
}

/// An answer to our ExpectCandidate is put to the vote whatever the state: we may be
/// lagging behind the section.
pub proof fn lemma_relocation_answers_always_voted(s: MemberView, c: Candidate, info: RelocatedInfo)
    ensures
        member_step(s, Event::Rpc(Rpc::RefuseCandidate(c))) == (
            s.with_action(s.action.emit(Event::ParsecConsensus(ParsecVote::RefuseCandidate(c)))),
            TryResult::Handled,
        ),
        member_step(s, Event::Rpc(Rpc::RelocateResponse(info))) == (
            s.with_action(s.action.emit(Event::ParsecConsensus(ParsecVote::RelocateResponse(info)))),
            TryResult::Handled,
        ),
{
    reveal(member_step);
}

/// A refused relocation sends nothing: the node is only made ready for the next check.
pub proof fn lemma_refusal_sends_nothing(s: MemberView, c: Candidate)
    ensures
        on_refuse_candidate(s, c).action.our_events == s.action.our_events,
        on_refuse_candidate(s, c).action.our_current_nodes.len() == s.action.our_current_nodes.len(),
{
}

/// CheckRelocate sends ExpectCandidate only for a node that may be sent (never sent,
/// refused, or unanswered for `RELOCATE_RESEND_CHECKS` checks), the first in relocation
/// order among those.
pub proof fn lemma_check_relocate_sends_first_ready(s: MemberView)
    ensures
        ({
            let nodes = s.action.our_current_nodes.map_values(|ns: NodeState| bump_wait(ns));
            match best_index(nodes, ready_pred(), relocation_key_fn()) {
                Some(i) => {
                    &&& ready_to_send(nodes[i])
                    &&& forall|j: int|
                        0 <= j < nodes.len() && ready_to_send(#[trigger] nodes[j]) ==> relocation_key(nodes[j])
                            <= relocation_key(nodes[i])
                    &&& on_check_relocate(s).action.our_events == s.action.our_events.push(
                        Event::Rpc(Rpc::ExpectCandidate(Candidate(nodes[i].node.0))),
                    )
                },
                None => {
                    &&& forall|j: int| 0 <= j < nodes.len() ==> !ready_to_send(#[trigger] nodes[j])
                    &&& on_check_relocate(s).action.our_events == s.action.our_events
                },
            }
        }),
{
    let nodes = s.action.our_current_nodes.map_values(|ns: NodeState| bump_wait(ns));
    let p = ready_pred();
    let key = relocation_key_fn();
    match best_index(nodes, p, key) {
        Some(i) => {
            lemma_best_index_some(nodes, p, key);
            assert forall|j: int| 0 <= j < nodes.len() && ready_to_send(#[trigger] nodes[j]) implies relocation_key(
                nodes[j],
            ) <= relocation_key(nodes[i]) by {
                assert(p(nodes[j]));
            }
        },
        None => {
            assert forall|j: int| 0 <= j < nodes.len() implies !ready_to_send(#[trigger] nodes[j]) by {
                if ready_to_send(nodes[j]) {
                    assert(p(nodes[j]));
                    lemma_best_index_exists(nodes, p, key, j);
                }
            }
        },
    }
}

/// The elder flag that the votes give the node called `name`: the last vote about it
/// decides; none where no vote is about it.
pub open spec fn vote_flag(votes: Seq<ParsecVote>, name: u64) -> Option<bool>
    decreases votes.len(),
{
    if votes.len() == 0 {
        None
    } else {
        match votes.last() {
            ParsecVote::AddElderNode(n) => if n.0.name == name {
                Some(true)
            } else {
                vote_flag(votes.drop_last(), name)
            },
            ParsecVote::RemoveElderNode(n) => if n.0.name == name {
                Some(false)
            } else {
                vote_flag(votes.drop_last(), name)
            },
            _ => vote_flag(votes.drop_last(), name),
        }
    }
}

proof fn lemma_vote_flag_append(a: Seq<ParsecVote>, b: Seq<ParsecVote>, name: u64)
    ensures
        vote_flag(a + b, name) == (if vote_flag(b, name) is Some {
            vote_flag(b, name)
        } else {
            vote_flag(a, name)
        }),
    decreases b.len(),
{
    if b.len() == 0 {
        assert(a + b =~= a);
    } else {
        assert((a + b).drop_last() =~= a + b.drop_last());
        assert((a + b).last() == b.last());
        lemma_vote_flag_append(a, b.drop_last(), name);
    }
}

/// Setting the elder flag of one node, where names are unique.
proof fn lemma_set_elder_at(nodes: Seq<NodeState>, name: u64, b: bool)
    requires
        names_unique(nodes),
    ensures
        set_node_elder(nodes, name, b).len() == nodes.len(),
        forall|j: int|
            0 <= j < nodes.len() ==> (#[trigger] set_node_elder(nodes, name, b)[j]).node == nodes[j].node
                && set_node_elder(nodes, name, b)[j].state == nodes[j].state
                && set_node_elder(nodes, name, b)[j].is_elder == (if nodes[j].node.0.name == name {
                b
            } else {
                nodes[j].is_elder
            }),
{
    match find_node(nodes, name) {
        Some(i) => {
            lemma_first_index_some(nodes, has_name(name));
            assert forall|j: int| 0 <= j < nodes.len() && nodes[j].node.0.name == name implies j == i by {
                if j != i {
                    assert(nodes[j].node.0.name != nodes[i].node.0.name);
                }
            }
        },
        None => {
            assert forall|j: int| 0 <= j < nodes.len() implies nodes[j].node.0.name != name by {
                if nodes[j].node.0.name == name {
                    crate::seq_tools::lemma_first_index_exists(nodes, has_name(name), j);
                }
            }
        },
    }
}

/// Applying agreed votes sets the elder flag of each node as the votes about it say.
proof fn lemma_apply_votes_flags(a: InnerActionView, votes: Seq<ParsecVote>)
    requires
        names_unique(a.our_current_nodes),
    ensures
        apply_elder_votes(a, votes).our_current_nodes.len() == a.our_current_nodes.len(),
        names_unique(apply_elder_votes(a, votes).our_current_nodes),
        forall|j: int|
            0 <= j < a.our_current_nodes.len() ==> (#[trigger] apply_elder_votes(a, votes).our_current_nodes[j]).node
                == a.our_current_nodes[j].node && apply_elder_votes(a, votes).our_current_nodes[j].is_elder == match vote_flag(
                votes,
                a.our_current_nodes[j].node.0.name,
            ) {
                Some(b) => b,
                None => a.our_current_nodes[j].is_elder,
            },
    decreases votes.len(),
{
    if votes.len() > 0 {
        lemma_apply_votes_flags(a, votes.drop_last());
        let prev = apply_elder_votes(a, votes.drop_last());
        let pn = prev.our_current_nodes;
        match votes.last() {
            ParsecVote::AddElderNode(n) => {
                lemma_set_elder_at(pn, n.0.name, true);
                crate::invariants::lemma_member_names_after_flag(pn, n.0.name, true);
            },
            ParsecVote::RemoveElderNode(n) => {
                lemma_set_elder_at(pn, n.0.name, false);
                crate::invariants::lemma_member_names_after_flag(pn, n.0.name, false);
            },
            _ => {},
        }
    }
}

proof fn lemma_adds_flag(nodes: Seq<NodeState>, chosen: Seq<u64>, j: int)
    requires
        names_unique(nodes),
        0 <= j < nodes.len(),
    ensures
        vote_flag(elder_adds(nodes, chosen), nodes[j].node.0.name) == (if chosen.contains(nodes[j].node.0.name)
            && !nodes[j].is_elder {
            Some(true)
        } else {
            None::<bool>
        }),
    decreases nodes.len(),
{
    let init = nodes.drop_last();
    let last = nodes.last();
    let prev = elder_adds(init, chosen);
    let name = nodes[j].node.0.name;
    assert(names_unique(init));
    lemma_push_flag(elder_adds(init, chosen), ParsecVote::AddElderNode(last.node), name);
    if j < nodes.len() - 1 {
        assert(init[j] == nodes[j]);
        lemma_adds_flag(init, chosen, j);
        assert(last.node.0.name != name);
    } else {
        assert forall|k: int| 0 <= k < init.len() implies init[k].node.0.name != name by {
            assert(nodes[k].node.0.name != nodes[j].node.0.name);
        }
        lemma_adds_none(init, chosen, name);
    }
}

proof fn lemma_adds_none(nodes: Seq<NodeState>, chosen: Seq<u64>, name: u64)
    requires
        forall|k: int| 0 <= k < nodes.len() ==> nodes[k].node.0.name != name,
    ensures
        vote_flag(elder_adds(nodes, chosen), name) is None,
        vote_flag(elder_removes(nodes, chosen), name) is None,
    decreases nodes.len(),
{
    if nodes.len() > 0 {
        let init = nodes.drop_last();
        lemma_adds_none(init, chosen, name);
        lemma_push_flag(elder_adds(init, chosen), ParsecVote::AddElderNode(nodes.last().node), name);
        lemma_push_flag(elder_removes(init, chosen), ParsecVote::RemoveElderNode(nodes.last().node), name);
    }
}

/// The flag after one more vote.
proof fn lemma_push_flag(votes: Seq<ParsecVote>, v: ParsecVote, name: u64)
    ensures
        vote_flag(votes.push(v), name) == match v {
            ParsecVote::AddElderNode(n) => if n.0.name == name {
                Some(true)
            } else {
                vote_flag(votes, name)
            },
            ParsecVote::RemoveElderNode(n) => if n.0.name == name {
                Some(false)
            } else {
                vote_flag(votes, name)
            },
            _ => vote_flag(votes, name),
        },
{
    assert(votes.push(v).drop_last() =~= votes);
}

proof fn lemma_removes_flag(nodes: Seq<NodeState>, chosen: Seq<u64>, j: int)
    requires
        names_unique(nodes),
        0 <= j < nodes.len(),
    ensures
        vote_flag(elder_removes(nodes, chosen), nodes[j].node.0.name) == (if nodes[j].is_elder && !chosen.contains(
            nodes[j].node.0.name,
        ) {
            Some(false)
        } else {
            None::<bool>
        }),
    decreases nodes.len(),
{
    let init = nodes.drop_last();
    let last = nodes.last();
    let name = nodes[j].node.0.name;
    assert(names_unique(init));
    lemma_push_flag(elder_removes(init, chosen), ParsecVote::RemoveElderNode(last.node), name);
    if j < nodes.len() - 1 {
        assert(init[j] == nodes[j]);
        lemma_removes_flag(init, chosen, j);
        assert(last.node.0.name != name);
    } else {
        assert forall|k: int| 0 <= k < init.len() implies init[k].node.0.name != name by {
            assert(nodes[k].node.0.name != nodes[j].node.0.name);
        }
        lemma_adds_none(init, chosen, name);
    }
}

/// Once all the votes of the elder change that CheckElder proposes are agreed, the
/// elders are exactly the chosen nodes, and our section is at its next version.
pub proof fn lemma_elder_change_makes_the_chosen_the_elders(a: InnerActionView)
    requires
        a.wf(),
    ensures
        ({
            let nodes = a.our_current_nodes;
            let chosen = new_elders(nodes);
            let votes = (elder_adds(nodes, chosen) + elder_removes(nodes, chosen)).push(
                ParsecVote::NewSectionInfo(next_section_info(a)),
            );
            let after = apply_elder_votes(a, votes);
            &&& after.our_section == next_section_info(a)
            &&& after.our_current_nodes.len() == nodes.len()
            &&& forall|j: int|
                0 <= j < nodes.len() ==> (#[trigger] after.our_current_nodes[j]).node == nodes[j].node
                    && after.our_current_nodes[j].is_elder == chosen.contains(nodes[j].node.0.name)
        }),
{
    let nodes = a.our_current_nodes;
    let chosen = new_elders(nodes);
    let adds = elder_adds(nodes, chosen);
    let removes = elder_removes(nodes, chosen);
    let votes = (adds + removes).push(ParsecVote::NewSectionInfo(next_section_info(a)));
    lemma_apply_votes_flags(a, votes);
    assert forall|j: int| 0 <= j < nodes.len() implies vote_flag(votes, nodes[j].node.0.name) == (if chosen.contains(
        nodes[j].node.0.name,
    ) != nodes[j].is_elder {
        Some(chosen.contains(nodes[j].node.0.name))
    } else {
        None::<bool>
    }) by {
        let name = nodes[j].node.0.name;
        assert(votes.drop_last() =~= adds + removes);
        lemma_vote_flag_append(adds, removes, name);
        lemma_adds_flag(nodes, chosen, j);
        lemma_removes_flag(nodes, chosen, j);
    }
    let prev = apply_elder_votes(a, votes.drop_last());
    assert(apply_elder_votes(a, votes) == apply_elder_vote(prev, votes.last()));
}

} // verus!
