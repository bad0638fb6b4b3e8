# routing_model

A verified model of the routing of a section-based network, written in Verus.

A **member** of a section (`state::MemberState`) takes one event at a time (RPCs,
agreed votes, timers, test settings) and records what it does in `our_events`:

- as a destination (`flows_dst`), it accepts one relocated candidate at a time,
  waits for its `CandidateInfo` and its connection, checks its resource proof, and
  approves or purges it;
- as a source (`flows_src`), it counts work units, starts relocating a node that did
  enough work, and sends `ExpectCandidate` for the node to relocate first, again when
  no answer came;
- it keeps its elders (`flows_elder`): merge, split, or vote for the change that makes
  the oldest online nodes the elders; offline nodes and nodes back online.

A **relocated node joining** its new section (`state::JoiningState`, `flows_node`)
sends its `CandidateInfo`, answers connection requests, sends its resource proof part
by part, and completes when approved.

`scenarios` drives either machine through a list of events up to the first event that
no routine handles; `fixtures` builds the sections used by the tests.

Each step is specified by a spec function (`member_step`, `joining_step`) that every
executable function is proved against. `laws` and `invariants` prove what holds for
every input: the driver composes over concatenated event lists, the record of events
only grows, node names stay unique, elders are the oldest online nodes, and the rules
of the routines (one candidate at a time, only the first of Online/Purge counts, ...).
`record` proves that no step reads the record of events, so arranging a state and then
running more events reports exactly the tail of one longer run.

`tests/` holds the scenarios and further tests on concrete values.
