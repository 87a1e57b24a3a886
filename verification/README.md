# ankaios_agent

Verified decision logic of an orchestration agent's runtime facade:

- `src/objects.rs`: workload execution states and reported workload states.
- `src/runtime_facade.rs`: the facade in front of a runtime connector, and
  the state machine of a workload deletion (what is reported, what the
  runtime is asked), with its laws.
- `src/generic_polling_state_checker.rs`: the polling loop that reports each
  change of a workload's state and stops once the workload is removed, with
  its laws, and the handle that stops the polling task.
- `app/`: the tokio tasks that drive these machines against a runtime.
