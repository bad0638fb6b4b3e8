//! Driving the state machines through a list of events, as the scenarios do: each
//! event goes to the routines; one that no routine handles is recorded as the
//! failure, and processing stops at the first failure.
use vstd::prelude::*;
use crate::actions::InnerActionView;
use crate::flows_node::joining_step;
use crate::state::{member_step, JoiningState, JoiningView, MemberState, MemberView};
use crate::utilities::{Event, TryResult};

verus! {

/// A member after one event: the event's effect, and the event as the failure where no
/// routine handled it.
pub open spec fn member_after(s: MemberView, e: Event) -> MemberView {
    let r = member_step(s, e);
    if r.1 == TryResult::Unhandled {
        MemberView { failure: Some(e), ..r.0 }
    } else {
        r.0
    }
}

/// A member after the events, up to the first one after which it has a failure.
pub open spec fn process_member(s: MemberView, events: Seq<Event>) -> MemberView
    decreases events.len(),
{
    if events.len() == 0 {
        s
    } else {
        let s1 = member_after(s, events[0]);
        if s1.failure is Some {
            s1
        } else {
            process_member(s1, events.drop_first())
        }
    }
}

/// A joining node after one event.
pub open spec fn joining_after(s: JoiningView, e: Event) -> JoiningView {
    let r = joining_step(s, e);
    if r.1 == TryResult::Unhandled {
        JoiningView { failure: Some(e), ..r.0 }
    } else {
        r.0
    }
}

/// A joining node after the events, up to the first one after which it has a failure.
pub open spec fn process_joining(s: JoiningView, events: Seq<Event>) -> JoiningView
    decreases events.len(),
{
    if events.len() == 0 {
        s
    } else {
        let s1 = joining_after(s, events[0]);
        if s1.failure is Some {
            s1
        } else {
            process_joining(s1, events.drop_first())
        }
    }
}

pub open spec fn without_events(a: InnerActionView) -> InnerActionView {
    InnerActionView { our_events: Seq::empty(), ..a }
}

/// Hands the events one by one to the member, up to the first failure.
pub fn process_events(state: MemberState, events: &[Event]) -> (r: MemberState)
    ensures
        r@ == process_member(state@, events@),
{
    let ghost s0 = state@;
    let mut current = state;
    let mut i: usize = 0;
    assert(events@.subrange(0, events@.len() as int) =~= events@);
    while i < events.len()
        invariant
            i <= events@.len(),
            s0 == state@,
            process_member(current@, events@.subrange(i as int, events@.len() as int)) == process_member(s0, events@),
        decreases events@.len() - i,
    {
        let ghost rest = events@.subrange(i as int, events@.len() as int);
        let ghost before = current@;
        let event = events[i];
        if TryResult::Unhandled == current.try_next(event) {
            current.failure_event(event);
        }
        proof {
            assert(rest[0] == event);
            assert(rest.drop_first() =~= events@.subrange(i + 1, events@.len() as int));
            assert(current@ == member_after(before, event));
        }
        if current.failure.is_some() {
            proof {
                assert(rest.len() > 0);
            }
            return current;
        }
        i = i + 1;
    }
    proof {
        assert(events@.subrange(i as int, events@.len() as int).len() == 0);
    }
    current
}

/// The member after the events, with what they did forgotten: a starting state.
pub fn arrange_initial_state(state: &MemberState, events: &[Event]) -> (r: MemberState)
    ensures
        r@ == (MemberView {
            action: without_events(process_member(state@, events@).action),
            ..process_member(state@, events@)
        }),
{
    let mut state = process_events(state.duplicate(), events);
    state.action.remove_processed_state();
    state
}

/// Hands the events one by one to the joining node, up to the first failure.
pub fn process_joining_events(state: JoiningState, events: &[Event]) -> (r: JoiningState)
    ensures
        r@ == process_joining(state@, events@),
{
    let ghost s0 = state@;
    let mut current = state;
    let mut i: usize = 0;
    assert(events@.subrange(0, events@.len() as int) =~= events@);
    while i < events.len()
        invariant
            i <= events@.len(),
            s0 == state@,
            process_joining(current@, events@.subrange(i as int, events@.len() as int)) == process_joining(s0, events@),
        decreases events@.len() - i,
    {
        let ghost rest = events@.subrange(i as int, events@.len() as int);
        let ghost before = current@;
        let event = events[i];
        if TryResult::Unhandled == current.try_next(event) {
            current.failure_event(event);
        }
        proof {
            assert(rest[0] == event);
            assert(rest.drop_first() =~= events@.subrange(i + 1, events@.len() as int));
            assert(current@ == joining_after(before, event));
        }
        if current.failure.is_some() {
            proof {
                assert(rest.len() > 0);
            }
            return current;
        }
        i = i + 1;
    }
    proof {
        assert(events@.subrange(i as int, events@.len() as int).len() == 0);
    }
    current
}

/// The joining node after the events, with what they did forgotten.
pub fn arrange_initial_joining_state(state: &JoiningState, events: &[Event]) -> (r: JoiningState)
    ensures
        r@ == (JoiningView {
            action: without_events(process_joining(state@, events@).action),
            ..process_joining(state@, events@)
        }),
{
    let mut state = process_joining_events(state.duplicate(), events);
    state.action.remove_processed_state();
    state
}

} // verus!
