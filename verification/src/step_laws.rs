//! What single steps promise, stated over the step functions by their results alone:
//! the section version that an elder change proposes, that a completed elder change
//! no longer holds CheckElder, that only the candidate's own answer votes it
//! connected, that a part sent on a receipt is not resent at the next timeout, and
//! that every WorkUnitIncrement counts one unit of work for every node.
use vstd::prelude::*;
use crate::actions::InnerActionView;
use crate::flows_elder::emit_votes;
use crate::flows_node::{joining_step, resend_one, resend_proofs};
use crate::state::{member_step, ElderProof, JoiningView, MemberView};
use crate::utilities::{
    ActionTriggered, Candidate, Event, LocalEvent, Name, ParsecVote, Rpc, SectionInfo, TryResult,
};

verus! {

/// One more, staying at the largest value.
pub open spec fn one_more(v: u64) -> u64 {
    if v < u64::MAX {
        (v + 1) as u64
    } else {
        v
    }
}

/// The last event of a non-empty list of recorded votes is the last vote.
proof fn lemma_emit_votes_last(a: InnerActionView, votes: Seq<ParsecVote>)
    requires
        votes.len() > 0,
    ensures
        emit_votes(a, votes).our_events.len() > a.our_events.len(),
        emit_votes(a, votes).our_events.last() == Event::ParsecConsensus(votes.last()),
        emit_votes(a, votes).our_section == a.our_section,
    decreases votes.len(),
{
    let prev = emit_votes(a, votes.drop_last());
    assert(emit_votes(a, votes) == prev.emit(Event::ParsecConsensus(votes.last())));
    if votes.len() > 1 {
        lemma_emit_votes_last(a, votes.drop_last());
    } else {
        assert(votes.drop_last().len() == 0);
        assert(prev == a);
    }
}

/// CheckElder, where neither merge nor split is needed and no elder change is held,
/// either records only that the next CheckElder is scheduled, or votes an elder change
/// whose last vote names our section at its next version (our prefix, version plus one),
/// and holds that change with all its votes pending.
pub proof fn lemma_check_elder_proposes_next_version(s: MemberView)
    requires
        !s.action.merge_needed,
        s.action.merge_info is None,
        !s.action.split_needed,
        s.elder_votes.len() == 0,
    ensures
        ({
            let r = member_step(s, Event::ParsecConsensus(ParsecVote::CheckElder));
            let next = SectionInfo(s.action.our_section.0, one_more(s.action.our_section.1));
            &&& r.1 == TryResult::Handled
            &&& r.0.action.our_section == s.action.our_section
            &&& (r.0.action.our_events == s.action.our_events.push(
                Event::ActionTriggered(ActionTriggered::Scheduled(LocalEvent::TimeoutCheckElder)),
            ) && r.0.elder_votes.len() == 0) || (r.0.action.our_events.len() > s.action.our_events.len()
                && r.0.action.our_events.last() == Event::ParsecConsensus(ParsecVote::NewSectionInfo(next))
                && r.0.elder_votes.len() > 0 && r.0.elder_votes.last() == ParsecVote::NewSectionInfo(next)
                && r.0.elder_pending == r.0.elder_votes)
        }),
{
    reveal(member_step);
    let a = s.action;
    let chosen = crate::flows_elder::new_elders(a.our_current_nodes);
    let changes = crate::flows_elder::elder_adds(a.our_current_nodes, chosen)
        + crate::flows_elder::elder_removes(a.our_current_nodes, chosen);
    if changes.len() > 0 {
        let votes = changes.push(ParsecVote::NewSectionInfo(crate::flows_elder::next_section_info(a)));
        lemma_emit_votes_last(a, votes);
    }
}

/// The vote that completes an elder change leaves no change held: after it, nothing is
/// cast or pending, the next CheckElder is scheduled, and a following CheckElder
/// (with neither merge nor split needed) records something again.
pub proof fn lemma_completed_elder_change_releases_check_elder(s: MemberView, v: ParsecVote)
    requires
        s.elder_votes.len() > 0,
        s.elder_pending == seq![v],
        v is AddElderNode || v is RemoveElderNode || v is NewSectionInfo,
    ensures
        ({
            let r = member_step(s, Event::ParsecConsensus(v)).0;
            &&& r.elder_votes.len() == 0
            &&& r.elder_pending.len() == 0
            &&& r.action.our_events.len() > s.action.our_events.len()
            &&& r.action.our_events.last() == Event::ActionTriggered(
                ActionTriggered::Scheduled(LocalEvent::TimeoutCheckElder),
            )
            &&& (!r.action.merge_needed && r.action.merge_info is None && !r.action.split_needed) ==> member_step(
                r,
                Event::ParsecConsensus(ParsecVote::CheckElder),
            ).0.action.our_events.len() > r.action.our_events.len()
        }),
{
    reveal(member_step);
    let idx = crate::seq_tools::first_index(s.elder_pending, crate::flows_elder::vote_is(v));
    crate::seq_tools::lemma_first_index_found(s.elder_pending, crate::flows_elder::vote_is(v), 0);
    assert(s.elder_pending.remove(0) =~= Seq::<ParsecVote>::empty());
    assert(crate::state::member_consensus(s, v) == crate::flows_elder::on_elder_vote(s, v));
    let r = member_step(s, Event::ParsecConsensus(v)).0;
    assert(r == crate::flows_elder::on_elder_vote(s, v));
    crate::invariants::lemma_apply_elder_votes(s.action, s.elder_votes);
    if !r.action.merge_needed && r.action.merge_info is None && !r.action.split_needed {
        if r.elder_votes.len() == 0 {
            lemma_check_elder_proposes_next_version(r);
        }
    }
}

/// A ConnectionInfoResponse that is not from the new identity of the candidate whose
/// CandidateInfo we hold casts no vote and leaves the routine's state unchanged: it is
/// left to the general connect handler, which records that it is not implemented.
pub proof fn lemma_only_the_candidate_answer_votes_connected(
    s: MemberView,
    source: Name,
    destination: Name,
    info: u64,
)
    requires
        match s.dst.candidate_info {
            Some(ci) => Name(ci.new_public_id.0.name) != source,
            None => true,
        },
    ensures
        member_step(
            s,
            Event::Rpc(Rpc::ConnectionInfoResponse { source, destination, connection_info: info }),
        ) == (
            MemberView {
                action: InnerActionView {
                    our_events: s.action.our_events.push(
                        Event::ActionTriggered(ActionTriggered::NotYetImplementedErrorTriggered),
                    ),
                    ..s.action
                },
                ..s
            },
            TryResult::Handled,
        ),
{
    reveal(member_step);
}

/// The response event sent to `elder` at position `k` of a record.
pub open spec fn is_response_to(e: Event, elder: Name) -> bool {
    match e {
        Event::Rpc(Rpc::ResourceProofResponse { destination, .. }) => destination == elder,
        _ => false,
    }
}

/// Resending sends nothing to an elder all of whose proofs were sent since the last
/// timeout or are complete.
proof fn lemma_resend_skips(a: InnerActionView, ps: Seq<ElderProof>, elder: Name)
    requires
        forall|j: int| 0 <= j < ps.len() && ps[j].elder == elder ==> ps[j].recently_sent || ps[j].awaiting is None,
    ensures
        resend_proofs(a, ps).0.our_events.len() >= a.our_events.len(),
        forall|k: int| 0 <= k < a.our_events.len() ==> resend_proofs(a, ps).0.our_events[k] == a.our_events[k],
        forall|k: int|
            a.our_events.len() <= k < resend_proofs(a, ps).0.our_events.len() ==> !is_response_to(
                #[trigger] resend_proofs(a, ps).0.our_events[k],
                elder,
            ),
    decreases ps.len(),
{
    if ps.len() > 0 {
        lemma_resend_skips(a, ps.drop_last(), elder);
    }
}

/// A part that a receipt makes us send counts as sent within the current timeout: at
/// the next resend timeout nothing is sent to that elder (where each elder has one
/// proof).
pub proof fn lemma_part_sent_on_receipt_not_resent(s: JoiningView, elder: Name)
    requires
        s.connected,
        forall|i: int, j: int| 0 <= i < j < s.proofs.len() ==> s.proofs[i].elder != s.proofs[j].elder,
    ensures
        ({
            let ours = Candidate(s.action.our_attributes);
            let s1 = joining_step(s, Event::Rpc(Rpc::ResourceProofReceipt { candidate: ours, source: elder })).0;
            let s2 = joining_step(s1, Event::LocalEvent(LocalEvent::JoiningTimeoutResendInfo)).0;
            s1.action.our_events.len() > s.action.our_events.len() ==> {
                &&& s2.action.our_events.len() >= s1.action.our_events.len()
                &&& forall|k: int|
                    s1.action.our_events.len() <= k < s2.action.our_events.len() ==> !is_response_to(
                        #[trigger] s2.action.our_events[k],
                        elder,
                    )
            }
        }),
{
    reveal(joining_step);
    let ours = Candidate(s.action.our_attributes);
    let s1 = joining_step(s, Event::Rpc(Rpc::ResourceProofReceipt { candidate: ours, source: elder })).0;
    if s1.action.our_events.len() > s.action.our_events.len() {
        let i = crate::flows_node::find_elder_proof(s.proofs, elder)->0;
        crate::seq_tools::lemma_first_index_some(s.proofs, crate::flows_node::elder_proof_of(elder));
        assert forall|j: int| 0 <= j < s1.proofs.len() && s1.proofs[j].elder == elder implies s1.proofs[j].recently_sent
            || s1.proofs[j].awaiting is None by {
            if j != i {
                assert(s.proofs[j].elder != s.proofs[i].elder);
            }
        }
        lemma_resend_skips(s1.action, s1.proofs, elder);
    }
}

/// Every WorkUnitIncrement counts one more unit of work (staying at the largest value)
/// for every node, and keeps the nodes in place.
pub proof fn lemma_work_unit_increment_counts_for_every_node(s: MemberView)
    ensures
        ({
            let before = s.action.our_current_nodes;
            let after = member_step(s, Event::ParsecConsensus(ParsecVote::WorkUnitIncrement)).0.action.our_current_nodes;
            &&& after.len() == before.len()
            &&& forall|i: int|
                0 <= i < before.len() ==> (#[trigger] after[i]).work_units_done == one_more(before[i].work_units_done)
                    && after[i].node == before[i].node
        }),
{
    reveal(member_step);
}

} // verus!
