# symphony

The decision core of the Symphony agent orchestrator, verified with Verus:
which tracker issues are dispatched and in what order, how failed workers
are retried, how escalations and steering requests are answered, what the
spec and review stages accept from their agents and publish, and every text
the orchestrator shows or sends.

- `src/` is the verified library. Each public function states its result in
  its `ensures`; the public `lemma_*` proof functions state the laws that
  relate several calls (retry tokens fire once, every polled candidate is
  counted once, a blocked candidate is never dispatched, and so on).
- `src/orchestrator/` holds the dispatch loop's rules: issue eligibility and
  order, worker host selection, retries, escalations, sessions and turns,
  reconciliation, steering, shared context, agent-event summaries and
  runtime-event payloads.
- `src/specification/` and `src/review/` hold the spec and review stages:
  artifact validation, decisions, issue and configuration revisions,
  comment rendering and publication.
- `src/json.rs` is the JSON model the library reads agent messages with;
  JSON text is read by `serde_json` behind one trusted wrapper.
- `app/` is the unverified edge: strict JSON decoding of agent outputs,
  paths resolved on disk, the admin HTTP client and the git and `gh`
  commands of the pull-request check.
  It is not a running service: the orchestrator's run loop, the stage
  coordinators' polls, the pipeline runner and the publishers, which would
  drive the library's state machines (`tick_step`, `decide_due_retry`,
  `ReviewAttemptLoop`, `advance_pipeline`, `pi_turn_line`) against the
  tracker, the forge and the agent processes, are not part of this crate.
- `tests/` runs the library on concrete cases.
