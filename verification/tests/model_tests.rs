use routing_model::actions::{Action, InnerAction};
use routing_model::fixtures::{
    get_relocated_info, initial_joining_state_with_dst_200, initial_state_old_elders, initial_state_young_elders,
};
use routing_model::scenarios::{arrange_initial_state, process_events, process_joining_events};
use routing_model::state::{JoiningState, MemberState, ELDER_SIZE, RELOCATE_RESEND_CHECKS};
use routing_model::utilities::{
    ActionTriggered, Age, Attributes, Candidate, CandidateInfo, Event, GenesisPfxInfo, LocalEvent, Name, Node,
    NodeChange, NodeState, ParsecVote, Proof, ProofSource, RelocatedInfo, Rpc, Section, SectionInfo, State,
    TestEvent, TryResult,
};

const CANDIDATE_1_OLD: Candidate = Candidate(Attributes { name: 1001, age: 9 });
const CANDIDATE_1: Candidate = Candidate(Attributes { name: 1, age: 10 });
const CANDIDATE_2_OLD: Candidate = Candidate(Attributes { name: 1002, age: 9 });
const OUR_NAME: Name = Name(132);
const OUR_INITIAL_SECTION_INFO: SectionInfo = SectionInfo(Section(0), 0);
const CANDIDATE_205: Candidate = Candidate(Attributes { name: 205, age: 5 });
const NODE_205: Node = Node(Attributes { name: 205, age: 5 });

fn info_1() -> CandidateInfo {
    CandidateInfo { old_public_id: CANDIDATE_1_OLD, new_public_id: CANDIDATE_1, destination: Name(1234), valid: true }
}

fn events_of(state: &MemberState) -> Vec<Event> {
    state.action.inner().our_events
}

fn names_of(state: &MemberState) -> Vec<u64> {
    state.action.inner().our_current_nodes.iter().map(|ns| ns.node.0.name).collect()
}

fn names_are_unique(names: &[u64]) -> bool {
    let mut sorted = names.to_vec();
    sorted.sort();
    sorted.windows(2).all(|w| w[0] != w[1])
}

fn accept_and_proof_c1() -> Vec<Event> {
    vec![
        ParsecVote::ExpectCandidate(CANDIDATE_1_OLD).to_event(),
        ParsecVote::CandidateConnected(info_1()).to_event(),
        ParsecVote::CheckResourceProof.to_event(),
    ]
}

#[test]
fn processing_in_two_batches_is_processing_at_once() {
    let first = accept_and_proof_c1();
    let second = vec![
        Rpc::ResourceProofResponse { candidate: CANDIDATE_1, destination: OUR_NAME, proof: Proof::ValidEnd }.to_event(),
        ParsecVote::Online(CANDIDATE_1).to_event(),
        ParsecVote::CheckElder.to_event(),
    ];
    let all: Vec<Event> = first.iter().chain(second.iter()).cloned().collect();

    let at_once = process_events(initial_state_young_elders(), &all);
    let in_two = process_events(process_events(initial_state_young_elders(), &first), &second);

    assert_eq!(events_of(&at_once), events_of(&in_two));
    assert_eq!(names_of(&at_once), names_of(&in_two));
    assert_eq!(at_once.failure, in_two.failure);
}

#[test]
fn unhandled_event_is_the_failure_and_stops_processing() {
    let unhandled = Rpc::NodeApproval(CANDIDATE_1, GenesisPfxInfo(OUR_INITIAL_SECTION_INFO)).to_event();
    let state = process_events(
        initial_state_old_elders(),
        &[unhandled, ParsecVote::ExpectCandidate(CANDIDATE_1_OLD).to_event()],
    );
    assert_eq!(state.failure, Some(unhandled));
    assert_eq!(events_of(&state), vec![]);
    assert_eq!(names_of(&state), vec![130, 131, 132, 205]);
}

#[test]
fn unhandled_event_changes_nothing() {
    let mut state = initial_state_old_elders();
    let r = state.try_next(NodeChange::Remove(Name(205)).to_event());
    assert_eq!(r, TryResult::Unhandled);
    assert_eq!(events_of(&state), vec![]);
    assert_eq!(names_of(&state), vec![130, 131, 132, 205]);
    assert_eq!(state.failure, None);
}

#[test]
fn joining_node_does_not_handle_votes() {
    let vote = ParsecVote::CheckElder.to_event();
    let state = process_joining_events(
        initial_joining_state_with_dst_200(),
        &[vote, LocalEvent::JoiningTimeoutResendInfo.to_event()],
    );
    assert_eq!(state.failure, Some(vote));
    assert_eq!(state.action.inner().our_events, vec![]);
}

#[test]
fn record_only_grows() {
    let mut state = initial_state_young_elders();
    let mut before: Vec<Event> = vec![];
    for event in accept_and_proof_c1()
        .into_iter()
        .chain(vec![ParsecVote::Online(CANDIDATE_1).to_event(), ParsecVote::CheckElder.to_event()])
    {
        state.try_next(event);
        let after = events_of(&state);
        assert!(after.len() >= before.len());
        assert_eq!(&after[..before.len()], &before[..]);
        before = after;
    }
    assert_eq!(before.len(), 12);
}

#[test]
fn node_names_stay_unique() {
    let events = vec![
        ParsecVote::ExpectCandidate(CANDIDATE_1_OLD).to_event(),
        ParsecVote::CandidateConnected(info_1()).to_event(),
        ParsecVote::CheckResourceProof.to_event(),
        ParsecVote::PurgeCandidate(CANDIDATE_1).to_event(),
        ParsecVote::ExpectCandidate(CANDIDATE_2_OLD).to_event(),
        ParsecVote::Offline(Node(Attributes { name: 130, age: 30 })).to_event(),
        ParsecVote::BackOnline(Node(Attributes { name: 130, age: 30 })).to_event(),
    ];
    let state = process_events(initial_state_old_elders(), &events);
    let names = names_of(&state);
    assert!(names_are_unique(&names));
    assert_eq!(names, vec![130, 131, 132, 205, 1235]);
}

#[test]
fn one_candidate_at_a_time_refuses_and_changes_nothing_else() {
    let start = arrange_initial_state(&initial_state_young_elders(), &accept_and_proof_c1());
    let names_before = names_of(&start);
    let state = process_events(start, &[ParsecVote::ExpectCandidate(CANDIDATE_2_OLD).to_event()]);
    assert_eq!(events_of(&state), vec![Rpc::RefuseCandidate(CANDIDATE_2_OLD).to_event()]);
    assert_eq!(names_of(&state), names_before);
}

#[test]
fn accepted_candidate_is_one_year_older_at_the_next_interval() {
    let state = process_events(initial_state_old_elders(), &[ParsecVote::ExpectCandidate(CANDIDATE_2_OLD).to_event()]);
    let info = RelocatedInfo {
        candidate: CANDIDATE_2_OLD,
        expected_age: Age(10),
        target_interval_centre: Name(1234),
        section_info: OUR_INITIAL_SECTION_INFO,
    };
    assert_eq!(
        events_of(&state),
        vec![
            NodeChange::AddWithState(Node(Attributes { name: 1234, age: 10 }), State::WaitingCandidateInfo(info))
                .to_event(),
            Rpc::RelocateResponse(info).to_event(),
        ]
    );
    assert_eq!(state.action.inner().next_target_interval, Name(1235));
}

#[test]
fn age_stays_at_the_largest_value() {
    let oldest = Candidate(Attributes { name: 7, age: u64::MAX });
    let state = process_events(initial_state_old_elders(), &[ParsecVote::ExpectCandidate(oldest).to_event()]);
    match events_of(&state)[1] {
        Event::Rpc(Rpc::RelocateResponse(info)) => assert_eq!(info.expected_age, Age(u64::MAX)),
        other => panic!("unexpected {:?}", other),
    }
}

#[test]
fn relocated_info_formula() {
    let info = get_relocated_info(CANDIDATE_205, SectionInfo(Section(200), 0));
    assert_eq!(
        info,
        RelocatedInfo {
            candidate: CANDIDATE_205,
            expected_age: Age(6),
            target_interval_centre: Name(1234),
            section_info: SectionInfo(Section(200), 0),
        }
    );
}

#[test]
fn elders_are_the_oldest_online_nodes_ties_by_name() {
    let elder = NodeState { is_elder: true, ..NodeState::default() };
    let inner = InnerAction::new_with_our_attributes(Attributes { name: 50, age: 10 })
        .extend_current_nodes_with(
            &elder,
            &[Node(Attributes { name: 10, age: 10 }), Node(Attributes { name: 20, age: 10 })],
        )
        .extend_current_nodes_with(
            &NodeState::default(),
            &[
                Node(Attributes { name: 30, age: 10 }),
                Node(Attributes { name: 40, age: 10 }),
                Node(Attributes { name: 50, age: 9 }),
            ],
        );
    let start = MemberState { action: Action::new(inner), ..MemberState::default() };
    let state = process_events(start, &[ParsecVote::CheckElder.to_event()]);
    assert_eq!(ELDER_SIZE, 3);
    assert_eq!(
        events_of(&state),
        vec![
            ParsecVote::AddElderNode(Node(Attributes { name: 30, age: 10 })).to_event(),
            ParsecVote::AddElderNode(Node(Attributes { name: 40, age: 10 })).to_event(),
            ParsecVote::RemoveElderNode(Node(Attributes { name: 10, age: 10 })).to_event(),
            ParsecVote::NewSectionInfo(SectionInfo(Section(0), 1)).to_event(),
        ]
    );
}

#[test]
fn fewer_online_nodes_than_elders_are_all_elders() {
    let inner = InnerAction::new_with_our_attributes(Attributes { name: 1, age: 1 })
        .extend_current_nodes_with(&NodeState::default(), &[Node(Attributes { name: 1, age: 1 })]);
    let start = MemberState { action: Action::new(inner), ..MemberState::default() };
    let state = process_events(start, &[ParsecVote::CheckElder.to_event()]);
    assert_eq!(
        events_of(&state),
        vec![
            ParsecVote::AddElderNode(Node(Attributes { name: 1, age: 1 })).to_event(),
            ParsecVote::NewSectionInfo(SectionInfo(Section(0), 1)).to_event(),
        ]
    );
}

#[test]
fn check_elder_waits_while_a_change_is_voted() {
    let start = arrange_initial_state(
        &initial_state_old_elders(),
        &[ParsecVote::Offline(Node(Attributes { name: 130, age: 30 })).to_event(), ParsecVote::CheckElder.to_event()],
    );
    let state = process_events(start, &[ParsecVote::CheckElder.to_event()]);
    assert_eq!(events_of(&state), vec![]);
}

#[test]
fn an_agreed_vote_agreed_again_is_unexpected() {
    let start = arrange_initial_state(
        &initial_state_old_elders(),
        &[ParsecVote::Offline(Node(Attributes { name: 130, age: 30 })).to_event(), ParsecVote::CheckElder.to_event()],
    );
    let removal = ParsecVote::RemoveElderNode(Node(Attributes { name: 130, age: 30 })).to_event();
    let state = process_events(start, &[removal, removal]);
    assert_eq!(events_of(&state), vec![ActionTriggered::UnexpectedEventErrorTriggered.to_event()]);
}

#[test]
fn merge_goes_before_split() {
    let state = process_events(
        initial_state_old_elders(),
        &[
            TestEvent::SetSplitNeeded(true).to_event(),
            TestEvent::SetMergeNeeded(true).to_event(),
            ParsecVote::CheckElder.to_event(),
        ],
    );
    assert_eq!(events_of(&state), vec![Rpc::Merge.to_event()]);
}

#[test]
fn refusal_only_readies_the_next_send() {
    let start = arrange_initial_state(
        &initial_state_old_elders(),
        &[
            TestEvent::SetWorkUnitEnoughToRelocate(NODE_205).to_event(),
            ParsecVote::WorkUnitIncrement.to_event(),
            ParsecVote::CheckRelocate.to_event(),
        ],
    );
    let refused = process_events(start.clone(), &[ParsecVote::RefuseCandidate(CANDIDATE_205).to_event()]);
    assert_eq!(events_of(&refused), vec![]);
    assert_eq!(refused.action.inner().our_current_nodes[3].relocation_wait, None);
    assert_eq!(start.action.inner().our_current_nodes[3].relocation_wait, Some(0));
}

#[test]
fn resend_comes_after_the_resend_checks() {
    assert_eq!(RELOCATE_RESEND_CHECKS, 3);
    let mut events = vec![
        TestEvent::SetWorkUnitEnoughToRelocate(NODE_205).to_event(),
        ParsecVote::WorkUnitIncrement.to_event(),
    ];
    for _ in 0..8 {
        events.push(ParsecVote::CheckRelocate.to_event());
    }
    let state = process_events(initial_state_old_elders(), &events);
    let sent = events_of(&state)
        .into_iter()
        .filter(|e| *e == Rpc::ExpectCandidate(CANDIDATE_205).to_event())
        .count();
    assert_eq!(sent, 3);
}

#[test]
fn offline_and_back_online_need_a_known_offline_node() {
    let unknown = Node(Attributes { name: 999, age: 1 });
    let state = process_events(
        initial_state_old_elders(),
        &[
            ParsecVote::Offline(unknown).to_event(),
            ParsecVote::BackOnline(Node(Attributes { name: 131, age: 31 })).to_event(),
        ],
    );
    assert_eq!(events_of(&state), vec![]);
}

#[test]
fn timers_become_votes() {
    let state = process_events(
        initial_state_old_elders(),
        &[LocalEvent::TimeoutCheckElder.to_event(), LocalEvent::CheckResourceProofTimeout.to_event()],
    );
    assert_eq!(
        events_of(&state),
        vec![ParsecVote::CheckElder.to_event(), ParsecVote::CheckResourceProof.to_event()]
    );
}

#[test]
fn timeout_accept_without_proof_in_progress_does_nothing() {
    let state = process_events(initial_state_old_elders(), &[LocalEvent::TimeoutAccept.to_event()]);
    assert_eq!(events_of(&state), vec![]);
}

#[test]
fn joining_ignores_connection_requests_from_non_elders() {
    let mut start = initial_joining_state_with_dst_200();
    start.start(RelocatedInfo {
        candidate: Candidate(Attributes { name: 132, age: 31 }),
        expected_age: Age(32),
        target_interval_centre: Name(1234),
        section_info: SectionInfo(Section(200), 0),
    });
    let start = routing_model::scenarios::arrange_initial_joining_state(&start, &[]);
    let state = process_joining_events(
        start,
        &[Rpc::ConnectionInfoRequest { source: Name(999), destination: OUR_NAME, connection_info: 999 }.to_event()],
    );
    assert_eq!(state.action.inner().our_events, vec![]);
    assert_eq!(state.failure, None);
}

#[test]
fn joining_connected_once() {
    let ours = Candidate(Attributes { name: 132, age: 32 });
    let connected = Rpc::NodeConnected(ours, GenesisPfxInfo(SectionInfo(Section(200), 0))).to_event();
    let state = process_joining_events(initial_joining_state_with_dst_200(), &[connected, connected]);
    assert_eq!(
        state.action.inner().our_events,
        vec![ActionTriggered::Killed(LocalEvent::JoiningTimeoutConnectRefused).to_event()]
    );
}

#[test]
fn joining_resend_before_start_only_reschedules() {
    let state = process_joining_events(
        initial_joining_state_with_dst_200(),
        &[LocalEvent::JoiningTimeoutResendInfo.to_event()],
    );
    assert_eq!(
        state.action.inner().our_events,
        vec![ActionTriggered::Scheduled(LocalEvent::JoiningTimeoutResendInfo).to_event()]
    );
}

#[test]
fn joining_proof_of_three_parts() {
    let ours = Candidate(Attributes { name: 132, age: 32 });
    let elder = Name(110);
    let receipt = Rpc::ResourceProofReceipt { candidate: ours, source: elder }.to_event();
    let state = process_joining_events(
        initial_joining_state_with_dst_200(),
        &[
            TestEvent::SetResourceProof(elder, ProofSource(3)).to_event(),
            LocalEvent::ResourceProofForElderReady(elder).to_event(),
            receipt,
            receipt,
            receipt,
        ],
    );
    let response = |proof| Rpc::ResourceProofResponse { candidate: ours, destination: elder, proof }.to_event();
    assert_eq!(
        state.action.inner().our_events,
        vec![response(Proof::ValidPart), response(Proof::ValidPart), response(Proof::ValidEnd)]
    );
}

#[test]
fn processed_state_is_forgotten_and_copies_are_equal() {
    let state = process_events(initial_state_old_elders(), &[Rpc::Merge.to_event()]);
    let copy = state.action.inner();
    assert_eq!(copy.our_events, vec![ParsecVote::NeighbourMerge(routing_model::utilities::MergeInfo).to_event()]);
    let mut action = Action::new(copy);
    action.remove_processed_state();
    assert_eq!(action.inner().our_events, vec![]);
    assert_eq!(action.inner().our_current_nodes, state.action.inner().our_current_nodes);
}

#[test]
fn joining_state_default_has_no_routine() {
    let state = JoiningState::default();
    assert_eq!(state.join_routine.relocated_info, None);
    assert_eq!(state.join_routine.routine_complete_output, None);
}

#[test]
fn completed_elder_change_makes_the_chosen_the_elders() {
    let mut events = accept_and_proof_c1();
    events.push(ParsecVote::Online(CANDIDATE_1).to_event());
    events.push(ParsecVote::CheckElder.to_event());
    events.push(ParsecVote::NewSectionInfo(SectionInfo(Section(0), 1)).to_event());
    events.push(ParsecVote::RemoveElderNode(Node(Attributes { name: 109, age: 9 })).to_event());
    events.push(ParsecVote::AddElderNode(Node(Attributes { name: 1, age: 10 })).to_event());
    let state = process_events(initial_state_young_elders(), &events);
    let inner = state.action.inner();
    let mut elders: Vec<u64> =
        inner.our_current_nodes.iter().filter(|ns| ns.is_elder).map(|ns| ns.node.0.name).collect();
    elders.sort();
    assert_eq!(elders, vec![1, 110, 132]);
    assert_eq!(inner.our_section, SectionInfo(Section(0), 1));
    assert_eq!(state.failure, None);
}

#[test]
fn arranging_then_running_reports_the_tail_of_one_run() {
    let a = accept_and_proof_c1();
    let b = vec![
        Rpc::ResourceProofResponse { candidate: CANDIDATE_1, destination: OUR_NAME, proof: Proof::ValidEnd }.to_event(),
        ParsecVote::Online(CANDIDATE_1).to_event(),
        ParsecVote::CheckElder.to_event(),
    ];
    let all: Vec<Event> = a.iter().chain(b.iter()).cloned().collect();
    let whole = process_events(initial_state_young_elders(), &all);
    let head = process_events(initial_state_young_elders(), &a);
    let tail = process_events(arrange_initial_state(&initial_state_young_elders(), &a), &b);
    let mut expected = events_of(&head);
    expected.extend(events_of(&tail));
    assert_eq!(head.failure, None);
    assert_eq!(events_of(&whole), expected);
    assert_eq!(names_of(&whole), names_of(&tail));
}
