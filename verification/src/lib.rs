//! Verified core of the postzegel I/O router: postzegel code validation,
//! worker and in-flight task bookkeeping of the dispatcher, the balancer's
//! backlog decisions, and the decisions of the test client.

pub mod postzegel;
pub mod text;
pub mod global;
pub mod channel;
pub mod task_util;
pub mod rpc;
pub mod workers;
pub mod dispatcher;
pub mod client;
pub mod cli;
pub mod scanner;
pub mod demos;
pub mod postzegel_event;
pub mod balancer;
