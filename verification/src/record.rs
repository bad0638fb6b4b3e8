//! No step reads the record of what was done: putting any record in front of a
//! state's record puts it in front of what the step records, and changes nothing else.
//! So running events after clearing the record reports exactly what the same events
//! add to the record of one longer run.
use vstd::prelude::*;
use crate::actions::InnerActionView;
use crate::flows_elder::{apply_elder_vote, apply_elder_votes, emit_votes};
use crate::flows_node::{joining_step, resend_one, resend_proofs};
use crate::laws::{lemma_process_joining_append, lemma_process_member_append};
use crate::scenarios::{
    joining_after, member_after, process_joining, process_member, without_events,
};
use crate::flows_dst::{on_candidate_connected, on_expect_candidate};
use crate::flows_src::{on_check_relocate, on_work_unit_increment};
use crate::state::{
    apply_test_event, member_consensus, member_local, member_rpc, member_step, ElderProof, JoiningView, MemberView,
};
use crate::utilities::{Event, LocalEvent, ParsecVote, Rpc};

verus! {

/// The action with `r` in front of its record.
pub open spec fn rebase(a: InnerActionView, r: Seq<Event>) -> InnerActionView {
    InnerActionView { our_events: r + a.our_events, ..a }
}

/// The member with `r` in front of its record.
pub open spec fn rebase_member(s: MemberView, r: Seq<Event>) -> MemberView {
    MemberView { action: rebase(s.action, r), ..s }
}

/// The joining node with `r` in front of its record.
pub open spec fn rebase_joining(s: JoiningView, r: Seq<Event>) -> JoiningView {
    JoiningView { action: rebase(s.action, r), ..s }
}

pub broadcast proof fn lemma_push_after_concat(r: Seq<Event>, a: Seq<Event>, x: Event)
    ensures
        #[trigger] (r + a).push(x) == r + a.push(x),
{
    assert((r + a).push(x) =~= r + a.push(x));
}

proof fn lemma_emit_votes_rebase(a: InnerActionView, votes: Seq<ParsecVote>, r: Seq<Event>)
    ensures
        emit_votes(rebase(a, r), votes) == rebase(emit_votes(a, votes), r),
    decreases votes.len(),
{
    broadcast use lemma_push_after_concat;
    if votes.len() > 0 {
        lemma_emit_votes_rebase(a, votes.drop_last(), r);
    }
}

proof fn lemma_apply_elder_votes_rebase(a: InnerActionView, votes: Seq<ParsecVote>, r: Seq<Event>)
    ensures
        apply_elder_votes(rebase(a, r), votes) == rebase(apply_elder_votes(a, votes), r),
    decreases votes.len(),
{
    broadcast use lemma_push_after_concat;
    if votes.len() > 0 {
        lemma_apply_elder_votes_rebase(a, votes.drop_last(), r);
        let prev = apply_elder_votes(a, votes.drop_last());
        assert(apply_elder_vote(rebase(prev, r), votes.last()) == rebase(apply_elder_vote(prev, votes.last()), r));
    }
}

proof fn lemma_resend_proofs_rebase(a: InnerActionView, ps: Seq<ElderProof>, r: Seq<Event>)
    ensures
        resend_proofs(rebase(a, r), ps).0 == rebase(resend_proofs(a, ps).0, r),
        resend_proofs(rebase(a, r), ps).1 == resend_proofs(a, ps).1,
    decreases ps.len(),
{
    broadcast use lemma_push_after_concat;
    if ps.len() > 0 {
        lemma_resend_proofs_rebase(a, ps.drop_last(), r);
        let prev = resend_proofs(a, ps.drop_last()).0;
        assert(resend_one(rebase(prev, r), ps.last()).0 == rebase(resend_one(prev, ps.last()).0, r));
    }
}

proof fn lemma_member_rpc_ignores_record(s: MemberView, rpc: Rpc, r: Seq<Event>)
    ensures
        member_rpc(rebase_member(s, r), rpc) == (rebase_member(member_rpc(s, rpc).0, r), member_rpc(s, rpc).1),
{
    broadcast use lemma_push_after_concat;
}

proof fn lemma_member_local_ignores_record(s: MemberView, l: LocalEvent, r: Seq<Event>)
    ensures
        member_local(rebase_member(s, r), l) == (rebase_member(member_local(s, l).0, r), member_local(s, l).1),
{
    broadcast use lemma_push_after_concat;
}

proof fn lemma_member_consensus_ignores_record(s: MemberView, v: ParsecVote, r: Seq<Event>)
    ensures
        member_consensus(rebase_member(s, r), v) == rebase_member(member_consensus(s, v), r),
{
    broadcast use lemma_push_after_concat;
    match v {
        ParsecVote::CheckElder => {
            let a = s.action;
            let chosen = crate::flows_elder::new_elders(a.our_current_nodes);
            let changes = crate::flows_elder::elder_adds(a.our_current_nodes, chosen)
                + crate::flows_elder::elder_removes(a.our_current_nodes, chosen);
            let votes = changes.push(ParsecVote::NewSectionInfo(crate::flows_elder::next_section_info(a)));
            lemma_emit_votes_rebase(a, votes, r);
        },
        ParsecVote::AddElderNode(_) | ParsecVote::RemoveElderNode(_) | ParsecVote::NewSectionInfo(_) => {
            lemma_apply_elder_votes_rebase(s.action, s.elder_votes, r);
        },
        ParsecVote::ExpectCandidate(c) => {
            assert(on_expect_candidate(rebase_member(s, r), c) == rebase_member(on_expect_candidate(s, c), r));
        },
        ParsecVote::CandidateConnected(ci) => {
            assert(on_candidate_connected(rebase_member(s, r), ci) == rebase_member(on_candidate_connected(s, ci), r));
        },
        ParsecVote::WorkUnitIncrement => {
            assert(on_work_unit_increment(rebase_member(s, r)) == rebase_member(on_work_unit_increment(s), r));
        },
        ParsecVote::CheckRelocate => {
            assert(on_check_relocate(rebase_member(s, r)) == rebase_member(on_check_relocate(s), r));
        },
        _ => {},
    }
}

/// A member's step does not read its record: with `r` in front of the record, the step
/// does the same and records the same after `r`.
pub proof fn lemma_member_step_ignores_record(s: MemberView, e: Event, r: Seq<Event>)
    ensures
        member_step(rebase_member(s, r), e) == (
            rebase_member(member_step(s, e).0, r),
            member_step(s, e).1,
        ),
{
    reveal(member_step);
    match e {
        Event::Rpc(rpc) => lemma_member_rpc_ignores_record(s, rpc, r),
        Event::ParsecConsensus(v) => lemma_member_consensus_ignores_record(s, v, r),
        Event::LocalEvent(l) => lemma_member_local_ignores_record(s, l, r),
        Event::TestEvent(t) => {
            assert(apply_test_event(rebase(s.action, r), t) == rebase(apply_test_event(s.action, t), r));
        },
        _ => {},
    }
}

/// A joining node's step does not read its record.
pub proof fn lemma_joining_step_ignores_record(s: JoiningView, e: Event, r: Seq<Event>)
    ensures
        joining_step(rebase_joining(s, r), e) == (
            rebase_joining(joining_step(s, e).0, r),
            joining_step(s, e).1,
        ),
{
    broadcast use lemma_push_after_concat;
    reveal(joining_step);
    lemma_resend_proofs_rebase(s.action, s.proofs, r);
    if let Event::TestEvent(t) = e {
        assert(apply_test_event(rebase(s.action, r), t) == rebase(apply_test_event(s.action, t), r));
    }
}

/// Running events does not read the record: with `r` in front of the record, the run
/// ends in the same state with `r` in front of its record.
pub proof fn lemma_process_member_ignores_record(s: MemberView, events: Seq<Event>, r: Seq<Event>)
    ensures
        process_member(rebase_member(s, r), events) == rebase_member(process_member(s, events), r),
    decreases events.len(),
{
    if events.len() > 0 {
        lemma_member_step_ignores_record(s, events[0], r);
        let s1 = member_after(s, events[0]);
        assert(member_after(rebase_member(s, r), events[0]) == rebase_member(s1, r));
        if s1.failure is None {
            lemma_process_member_ignores_record(s1, events.drop_first(), r);
        }
    }
}

/// Running events does not read the record, for a joining node.
pub proof fn lemma_process_joining_ignores_record(s: JoiningView, events: Seq<Event>, r: Seq<Event>)
    ensures
        process_joining(rebase_joining(s, r), events) == rebase_joining(process_joining(s, events), r),
    decreases events.len(),
{
    if events.len() > 0 {
        lemma_joining_step_ignores_record(s, events[0], r);
        let s1 = joining_after(s, events[0]);
        assert(joining_after(rebase_joining(s, r), events[0]) == rebase_joining(s1, r));
        if s1.failure is None {
            lemma_process_joining_ignores_record(s1, events.drop_first(), r);
        }
    }
}

/// Arranging a member with `a` (running them, then clearing the record) and then running
/// `b` records exactly what one run over `a + b` records after the run over `a`, and
/// ends in the same state but for the record.
pub proof fn lemma_arrange_then_run_member(s: MemberView, a: Seq<Event>, b: Seq<Event>)
    requires
        process_member(s, a).failure is None,
    ensures
        ({
            let arranged = MemberView {
                action: without_events(process_member(s, a).action),
                ..process_member(s, a)
            };
            let whole = process_member(s, a + b);
            &&& whole.action.our_events == process_member(s, a).action.our_events + process_member(
                arranged,
                b,
            ).action.our_events
            &&& whole == rebase_member(process_member(arranged, b), process_member(s, a).action.our_events)
        }),
{
    let t = process_member(s, a);
    let arranged = MemberView { action: without_events(t.action), ..t };
    if a.len() == 0 {
        assert(process_member(s, a) == s);
    }
    lemma_process_member_append(s, a, b);
    assert(rebase_member(arranged, t.action.our_events) == t) by {
        assert(t.action.our_events + Seq::<Event>::empty() =~= t.action.our_events);
        assert(Seq::<Event>::empty() + t.action.our_events =~= t.action.our_events);
    }
    lemma_process_member_ignores_record(arranged, b, t.action.our_events);
}

/// Arranging a joining node with `a` and then running `b` records exactly what one run
/// over `a + b` records after the run over `a`.
pub proof fn lemma_arrange_then_run_joining(s: JoiningView, a: Seq<Event>, b: Seq<Event>)
    requires
        process_joining(s, a).failure is None,
    ensures
        ({
            let arranged = JoiningView {
                action: without_events(process_joining(s, a).action),
                ..process_joining(s, a)
            };
            let whole = process_joining(s, a + b);
            &&& whole.action.our_events == process_joining(s, a).action.our_events + process_joining(
                arranged,
                b,
            ).action.our_events
            &&& whole == rebase_joining(process_joining(arranged, b), process_joining(s, a).action.our_events)
        }),
{
    let t = process_joining(s, a);
    let arranged = JoiningView { action: without_events(t.action), ..t };
    if a.len() == 0 {
        assert(process_joining(s, a) == s);
    }
    lemma_process_joining_append(s, a, b);
    assert(rebase_joining(arranged, t.action.our_events) == t) by {
        assert(Seq::<Event>::empty() + t.action.our_events =~= t.action.our_events);
    }
    lemma_process_joining_ignores_record(arranged, b, t.action.our_events);
}

} // verus!
