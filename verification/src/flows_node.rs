//! A relocated node joining its destination section: it sends its CandidateInfo
//! until connected, answers the elders' connection requests, sends each elder its
//! resource proof part by part on receipts (again when a receipt is late), and is
//! done when approved.
use vstd::prelude::*;
use crate::actions::{find_node, find_proof, InnerActionView};
use crate::flows_dst::opt_index;
use crate::seq_tools::{first_index, lemma_first_index_found, lemma_first_index_none, lemma_first_index_some};
use crate::state::{apply_test_event, ElderProof, JoiningState, JoiningView};
use crate::utilities::{
    ActionTriggered, Candidate, CandidateInfo, Event, LocalEvent, Name, Proof, RelocatedInfo, Rpc, TryResult,
};

verus! {

/// Our new identity, as a candidate.
pub open spec fn our_candidate(a: InnerActionView) -> Candidate {
    Candidate(a.our_attributes)
}

/// What we tell the destination section.
pub open spec fn joining_candidate_info(a: InnerActionView, info: RelocatedInfo) -> CandidateInfo {
    CandidateInfo {
        old_public_id: info.candidate,
        new_public_id: our_candidate(a),
        destination: info.target_interval_centre,
        valid: true,
    }
}

/// The part sent when `remaining` parts are left: the last one is the end.
pub open spec fn next_part(remaining: u64) -> Proof {
    if remaining >= 2 {
        Proof::ValidPart
    } else {
        Proof::ValidEnd
    }
}

pub open spec fn proof_response(a: InnerActionView, elder: Name, part: Proof) -> Event {
    Event::Rpc(Rpc::ResourceProofResponse { candidate: our_candidate(a), destination: elder, proof: part })
}

pub open spec fn scheduled(l: LocalEvent) -> Event {
    Event::ActionTriggered(ActionTriggered::Scheduled(l))
}

/// Starting to join with the information the destination section sent.
pub open spec fn joining_start(s: JoiningView, info: RelocatedInfo) -> JoiningView {
    JoiningView {
        relocated_info: Some(info),
        action: s.action.emit(Event::Rpc(Rpc::CandidateInfo(joining_candidate_info(s.action, info)))).emit(
            scheduled(LocalEvent::JoiningTimeoutResendInfo),
        ).emit(scheduled(LocalEvent::JoiningTimeoutConnectRefused)),
        ..s
    }
}

pub open spec fn elder_proof_of(elder: Name) -> spec_fn(ElderProof) -> bool {
    |p: ElderProof| p.elder == elder
}

pub open spec fn find_elder_proof(proofs: Seq<ElderProof>, elder: Name) -> Option<int> {
    first_index(proofs, elder_proof_of(elder))
}

pub open spec fn upsert_elder_proof(proofs: Seq<ElderProof>, p: ElderProof) -> Seq<ElderProof> {
    match find_elder_proof(proofs, p.elder) {
        Some(i) => proofs.update(i, p),
        None => proofs.push(p),
    }
}

/// `name` is an elder of the section we join.
pub open spec fn is_section_elder(a: InnerActionView, name: Name) -> bool {
    match find_node(a.our_current_nodes, name.0) {
        Some(i) => a.our_current_nodes[i].is_elder,
        None => false,
    }
}

/// A receipt from `elder`: send the next part, or note that the proof is complete.
pub open spec fn on_receipt(s: JoiningView, elder: Name) -> JoiningView {
    match find_elder_proof(s.proofs, elder) {
        Some(i) => {
            let p = s.proofs[i];
            if p.awaiting is Some {
                if p.remaining > 0 {
                    let part = next_part(p.remaining);
                    JoiningView {
                        action: s.action.emit(proof_response(s.action, elder, part)),
                        proofs: s.proofs.update(
                            i,
                            ElderProof {
                                remaining: (p.remaining - 1) as u64,
                                awaiting: Some(part),
                                recently_sent: true,
                                ..p
                            },
                        ),
                        ..s
                    }
                } else {
                    JoiningView { proofs: s.proofs.update(i, ElderProof { awaiting: None, ..p }), ..s }
                }
            } else {
                s
            }
        },
        None => s,
    }
}

/// The proof for `elder` is computed: send its first part.
pub open spec fn on_proof_ready(s: JoiningView, elder: Name) -> JoiningView {
    let a = s.action;
    match find_proof(a.resource_proofs_for_elder, elder) {
        Some(j) => {
            let source = a.resource_proofs_for_elder[j].1;
            if source.0 > 0 {
                let part = next_part(source.0);
                JoiningView {
                    action: a.emit(proof_response(a, elder, part)),
                    proofs: upsert_elder_proof(
                        s.proofs,
                        ElderProof { elder, remaining: (source.0 - 1) as u64, awaiting: Some(part), recently_sent: true },
                    ),
                    ..s
                }
            } else {
                s
            }
        },
        None => s,
    }
}

/// At a resend timeout, a part sent before the previous timeout and still without
/// receipt is sent again.
pub open spec fn resend_one(a: InnerActionView, p: ElderProof) -> (InnerActionView, ElderProof) {
    match p.awaiting {
        Some(part) => if p.recently_sent {
            (a, ElderProof { recently_sent: false, ..p })
        } else {
            (a.emit(proof_response(a, p.elder, part)), ElderProof { recently_sent: true, ..p })
        },
        None => (a, p),
    }
}

pub open spec fn resend_proofs(a: InnerActionView, ps: Seq<ElderProof>) -> (InnerActionView, Seq<ElderProof>)
    decreases ps.len(),
{
    if ps.len() == 0 {
        (a, Seq::empty())
    } else {
        let r = resend_proofs(a, ps.drop_last());
        let r2 = resend_one(r.0, ps.last());
        (r2.0, r.1.push(r2.1))
    }
}

/// The resend timeout: send the CandidateInfo again while not connected, else the late
/// proof parts; then schedule the next one.
pub open spec fn on_resend_timeout(s: JoiningView) -> JoiningView {
    let s1 = if !s.connected {
        match s.relocated_info {
            Some(info) => JoiningView {
                action: s.action.emit(Event::Rpc(Rpc::CandidateInfo(joining_candidate_info(s.action, info)))),
                ..s
            },
            None => s,
        }
    } else {
        let r = resend_proofs(s.action, s.proofs);
        JoiningView { action: r.0, proofs: r.1, ..s }
    };
    JoiningView { action: s1.action.emit(scheduled(LocalEvent::JoiningTimeoutResendInfo)), ..s1 }
}

/// What one event does to a joining node, and whether the routine handled it. The
/// connect-refused and proof-refused timers, votes, and anything else not listed here
/// are not handled: the driver records such an event as the failure.
#[verifier::opaque]
pub open spec fn joining_step(s: JoiningView, e: Event) -> (JoiningView, TryResult) {
    let a = s.action;
    match e {
        Event::Rpc(Rpc::NodeApproval(c, g)) => (
            if c == our_candidate(a) {
                JoiningView { routine_complete_output: Some(g), ..s }
            } else {
                s
            },
            TryResult::Handled,
        ),
        Event::Rpc(Rpc::NodeConnected(c, _)) => (
            if c == our_candidate(a) && !s.connected {
                JoiningView {
                    connected: true,
                    action: a.emit(
                        Event::ActionTriggered(ActionTriggered::Killed(LocalEvent::JoiningTimeoutConnectRefused)),
                    ),
                    ..s
                }
            } else {
                s
            },
            TryResult::Handled,
        ),
        Event::Rpc(Rpc::ConnectionInfoRequest { source, destination, .. }) => (
            if destination == a.our_name() && is_section_elder(a, source) {
                JoiningView {
                    action: a.emit(
                        Event::Rpc(
                            Rpc::ConnectionInfoResponse {
                                source: a.our_name(),
                                destination: source,
                                connection_info: a.our_attributes.name,
                            },
                        ),
                    ),
                    ..s
                }
            } else {
                s
            },
            TryResult::Handled,
        ),
        Event::Rpc(Rpc::ResourceProof { candidate, source, .. }) => (
            if candidate == our_candidate(a) {
                JoiningView {
                    action: a.emit(scheduled(LocalEvent::JoiningTimeoutProofRefused)).emit(
                        Event::ActionTriggered(ActionTriggered::ComputeResourceProofForElder(source)),
                    ),
                    ..s
                }
            } else {
                s
            },
            TryResult::Handled,
        ),
        Event::Rpc(Rpc::ResourceProofReceipt { candidate, source }) => (
            if candidate == our_candidate(a) {
                on_receipt(s, source)
            } else {
                s
            },
            TryResult::Handled,
        ),
        Event::LocalEvent(LocalEvent::ResourceProofForElderReady(elder)) => (
            on_proof_ready(s, elder),
            TryResult::Handled,
        ),
        Event::LocalEvent(LocalEvent::JoiningTimeoutResendInfo) => (on_resend_timeout(s), TryResult::Handled),
        Event::TestEvent(t) => (JoiningView { action: apply_test_event(a, t), ..s }, TryResult::Handled),
        _ => (s, TryResult::Unhandled),
    }
}

fn find_elder_proof_exec(proofs: &Vec<ElderProof>, elder: Name) -> (r: Option<usize>)
    ensures
        opt_index(r) == find_elder_proof(proofs@, elder),
        r is Some ==> r->0 < proofs@.len(),
{
    let mut i: usize = 0;
    while i < proofs.len()
        invariant
            i <= proofs@.len(),
            forall|j: int| 0 <= j < i ==> !elder_proof_of(elder)(proofs@[j]),
        decreases proofs@.len() - i,
    {
        if proofs[i].elder == elder {
            proof {
                lemma_first_index_found(proofs@, elder_proof_of(elder), i as int);
            }
            return Some(i);
        }
        i = i + 1;
    }
    proof {
        lemma_first_index_none(proofs@, elder_proof_of(elder));
    }
    None
}

fn next_part_exec(remaining: u64) -> (r: Proof)
    ensures
        r == next_part(remaining),
{
    if remaining >= 2 {
        Proof::ValidPart
    } else {
        Proof::ValidEnd
    }
}

impl JoiningState {
    fn our_candidate(&self) -> (c: Candidate)
        ensures
            c == our_candidate(self@.action),
    {
        Candidate(self.action.inner.our_attributes)
    }

    /// Starts joining the section that accepted us with `info`.
    pub fn start(&mut self, info: RelocatedInfo)
        ensures
            final(self)@ == joining_start(old(self)@, info),
    {
        self.join_routine.relocated_info = Some(info);
        let ci = CandidateInfo {
            old_public_id: info.candidate,
            new_public_id: self.our_candidate(),
            destination: info.target_interval_centre,
            valid: true,
        };
        self.action.inner.send_rpc(Rpc::CandidateInfo(ci));
        self.action.inner.schedule_event(LocalEvent::JoiningTimeoutResendInfo);
        self.action.inner.schedule_event(LocalEvent::JoiningTimeoutConnectRefused);
    }

    fn is_section_elder(&self, name: Name) -> (r: bool)
        ensures
            r == is_section_elder(self@.action, name),
    {
        match self.action.inner.find_node(name.0) {
            Some(i) => {
                proof {
                    lemma_first_index_some(self@.action.our_current_nodes, crate::actions::has_name(name.0));
                }
                self.action.inner.our_current_nodes[i].is_elder
            },
            None => false,
        }
    }

    fn handle_receipt(&mut self, elder: Name)
        ensures
            final(self)@ == on_receipt(old(self)@, elder),
    {
        match find_elder_proof_exec(&self.join_routine.proofs, elder) {
            Some(i) => {
                let p = self.join_routine.proofs[i];
                if p.awaiting.is_some() {
                    if p.remaining > 0 {
                        let part = next_part_exec(p.remaining);
                        let candidate = self.our_candidate();
                        self.action.inner.send_rpc(
                            Rpc::ResourceProofResponse { candidate, destination: elder, proof: part },
                        );
                        self.join_routine.proofs.set(
                            i,
                            ElderProof {
                                remaining: p.remaining - 1,
                                awaiting: Some(part),
                                recently_sent: true,
                                ..p
                            },
                        );
                    } else {
                        self.join_routine.proofs.set(i, ElderProof { awaiting: None, ..p });
                    }
                }
            },
            None => {},
        }
    }

    fn handle_proof_ready(&mut self, elder: Name)
        ensures
            final(self)@ == on_proof_ready(old(self)@, elder),
    {
        match self.action.inner.find_proof(elder) {
            Some(j) => {
                proof {
                    lemma_first_index_some(
                        self@.action.resource_proofs_for_elder,
                        |p: (Name, crate::utilities::ProofSource)| p.0 == elder,
                    );
                }
                let source = self.action.inner.resource_proofs_for_elder[j].1;
                if source.0 > 0 {
                    let part = next_part_exec(source.0);
                    let candidate = self.our_candidate();
                    self.action.inner.send_rpc(
                        Rpc::ResourceProofResponse { candidate, destination: elder, proof: part },
                    );
                    let p = ElderProof { elder, remaining: source.0 - 1, awaiting: Some(part), recently_sent: true };
                    match find_elder_proof_exec(&self.join_routine.proofs, elder) {
                        Some(i) => {
                            self.join_routine.proofs.set(i, p);
                        },
                        None => {
                            self.join_routine.proofs.push(p);
                        },
                    }
                }
            },
            None => {},
        }
    }

    fn resend_late_proofs(&mut self)
        ensures
            final(self)@ == (JoiningView {
                action: resend_proofs(old(self)@.action, old(self)@.proofs).0,
                proofs: resend_proofs(old(self)@.action, old(self)@.proofs).1,
                ..old(self)@
            }),
    {
        let ghost ps0 = self@.proofs;
        let ghost a0 = self@.action;
        let mut i: usize = 0;
        proof {
            assert(ps0.take(0) =~= Seq::<ElderProof>::empty());
            assert(Seq::<ElderProof>::empty() + ps0.skip(0) =~= ps0);
        }
        while i < self.join_routine.proofs.len()
            invariant
                i <= ps0.len(),
                self.join_routine.proofs@.len() == ps0.len(),
                self@ == (JoiningView {
                    action: resend_proofs(a0, ps0.take(i as int)).0,
                    proofs: resend_proofs(a0, ps0.take(i as int)).1 + ps0.skip(i as int),
                    ..old(self)@
                }),
            decreases ps0.len() - i,
        {
            proof {
                assert(ps0.take(i + 1).drop_last() =~= ps0.take(i as int));
                assert(ps0.take(i + 1).last() == ps0[i as int]);
                assert(self@.proofs[i as int] == ps0[i as int]);
            }
            let p = self.join_routine.proofs[i];
            match p.awaiting {
                Some(part) => {
                    if p.recently_sent {
                        self.join_routine.proofs.set(i, ElderProof { recently_sent: false, ..p });
                    } else {
                        let candidate = self.our_candidate();
                        self.action.inner.send_rpc(
                            Rpc::ResourceProofResponse { candidate, destination: p.elder, proof: part },
                        );
                        self.join_routine.proofs.set(i, ElderProof { recently_sent: true, ..p });
                    }
                },
                None => {},
            }
            proof {
                let r = resend_proofs(a0, ps0.take(i + 1));
                assert(self@.proofs =~= r.1 + ps0.skip(i + 1));
            }
            i = i + 1;
        }
        proof {
            assert(ps0.take(ps0.len() as int) =~= ps0);
            assert(self@.proofs =~= resend_proofs(a0, ps0).1);
        }
    }

    fn handle_resend_timeout(&mut self)
        ensures
            final(self)@ == on_resend_timeout(old(self)@),
    {
        if !self.join_routine.connected {
            match self.join_routine.relocated_info {
                Some(info) => {
                    let ci = CandidateInfo {
                        old_public_id: info.candidate,
                        new_public_id: self.our_candidate(),
                        destination: info.target_interval_centre,
                        valid: true,
                    };
                    self.action.inner.send_rpc(Rpc::CandidateInfo(ci));
                },
                None => {},
            }
        } else {
            self.resend_late_proofs();
        }
        self.action.inner.schedule_event(LocalEvent::JoiningTimeoutResendInfo);
    }

    /// Hands `e` to the joining routine.
    pub fn try_next(&mut self, e: Event) -> (r: TryResult)
        ensures
            (final(self)@, r) == joining_step(old(self)@, e),
    {
        reveal(joining_step);
        let ours = self.our_candidate();
        match e {
            Event::Rpc(Rpc::NodeApproval(c, g)) => {
                if c == ours {
                    self.join_routine.routine_complete_output = Some(g);
                }
                TryResult::Handled
            },
            Event::Rpc(Rpc::NodeConnected(c, _)) => {
                if c == ours && !self.join_routine.connected {
                    self.join_routine.connected = true;
                    self.action.inner.action_triggered(ActionTriggered::Killed(LocalEvent::JoiningTimeoutConnectRefused));
                }
                TryResult::Handled
            },
            Event::Rpc(Rpc::ConnectionInfoRequest { source, destination, .. }) => {
                let our = self.action.inner.our_name();
                if destination == our && self.is_section_elder(source) {
                    self.action.inner.send_rpc(
                        Rpc::ConnectionInfoResponse { source: our, destination: source, connection_info: our.0 },
                    );
                }
                TryResult::Handled
            },
            Event::Rpc(Rpc::ResourceProof { candidate, source, .. }) => {
                if candidate == ours {
                    self.action.inner.schedule_event(LocalEvent::JoiningTimeoutProofRefused);
                    self.action.inner.action_triggered(ActionTriggered::ComputeResourceProofForElder(source));
                }
                TryResult::Handled
            },
            Event::Rpc(Rpc::ResourceProofReceipt { candidate, source }) => {
                if candidate == ours {
                    self.handle_receipt(source);
                }
                TryResult::Handled
            },
            Event::LocalEvent(LocalEvent::ResourceProofForElderReady(elder)) => {
                self.handle_proof_ready(elder);
                TryResult::Handled
            },
            Event::LocalEvent(LocalEvent::JoiningTimeoutResendInfo) => {
                self.handle_resend_timeout();
                TryResult::Handled
            },
            Event::TestEvent(t) => {
                self.action.apply_test_event(t);
                TryResult::Handled
            },
            _ => TryResult::Unhandled,
        }
    }
}

} // verus!
