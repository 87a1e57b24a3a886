//! Decision logic of the agent's workload runtime facade and of its polling
//! state checker, written as verified state machines. The surrounding tasks,
//! timers and channels are driven by the code in `app/`.

pub mod objects;
pub mod runtime_facade;
pub mod generic_polling_state_checker;
