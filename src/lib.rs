//! Event-chain logic for a leaky-integrator process: a state that decays
//! between events and is raised by each event's weights.
//!
//! The library holds the decisions of the process: how a chain's state is
//! threaded from event to event and restarted, which closed form a crossing
//! solver must take, where a segment reaches its peak, which event of a chain
//! holds the largest value and whether it breaks a cap, and which periodic
//! copies of a time fall in a window. The arithmetic on real values is handed
//! in by the caller.
pub mod chain;
pub mod crossing;
pub mod order;
pub mod peak;
pub mod periodic;
